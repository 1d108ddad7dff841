//! Sessions, discovery, and the device scan protocols.

use fprint_rs::Device;
use fprint_rs::DiscoveredDev;
use fprint_rs::DiscoveredDevices;
use fprint_rs::Driver;
use fprint_rs::EnrollResult;
use fprint_rs::EnrollStep;
use fprint_rs::FPrint;
use fprint_rs::FPrintError;
use fprint_rs::Finger;
use fprint_rs::IdentifyResult;
use fprint_rs::Image;
use fprint_rs::NotSupportContext;
use fprint_rs::NullPtrContext;
use fprint_rs::PrintData;
use fprint_rs::SizeVariant;
use fprint_rs::VerifyResult;

fn test_driver() -> Driver {
    Driver::new(String::from("upekts"), String::from("UPEK TouchStrip"), 5, 0)
}

fn test_device() -> Device {
    Device::new(test_driver(), 9, 3, true, true, 384, 289)
}

#[test]
fn session_init_codes() {
    assert!(FPrint::new(0).is_ok());
    assert!(matches!(
        FPrint::new(-1),
        Err(FPrintError::InitFailed(-1))
    ));
    assert!(matches!(
        FPrint::new(7),
        Err(FPrintError::InitFailed(7))
    ));
}

#[test]
fn discovery_empty_not_error() {
    let session = FPrint::new(0).unwrap();
    let devices = session.discover(vec![]);
    assert_eq!(devices.count(), 0);
    assert!(devices.get(0).is_none());
}

#[test]
fn discovery_count_stops_at_terminator() {
    let slots = vec![
        Some(DiscoveredDev::new(test_driver(), 9)),
        Some(DiscoveredDev::new(test_driver(), 10)),
        None,
        Some(DiscoveredDev::new(test_driver(), 11)),
    ];
    let devices = DiscoveredDevices::with_devices(slots);
    assert_eq!(devices.count(), 2);
    assert_eq!(devices.get(0).unwrap().get_devtype(), 9);
    assert_eq!(devices.get(1).unwrap().get_devtype(), 10);
    assert!(devices.get(2).is_none());
    assert!(devices.get(3).is_none());
    assert!(devices.get(100).is_none());
}

#[test]
fn discovery_sequence_restartable() {
    let slots = vec![
        Some(DiscoveredDev::new(test_driver(), 9)),
        Some(DiscoveredDev::new(test_driver(), 10)),
        None,
    ];
    let mut devices = DiscoveredDevices::with_devices(slots);
    let mut devtypes = Vec::new();
    while let Some(entry) = devices.next() {
        devtypes.push(entry.get_devtype());
    }
    assert_eq!(devtypes, vec![9, 10]);
    assert!(devices.next().is_none());
    devices.restart();
    assert_eq!(devices.next().unwrap().get_devtype(), 9);
    assert_eq!(devices.next().unwrap().get_devtype(), 10);
    assert!(devices.next().is_none());
}

#[test]
fn opened_device_reports_capabilities() {
    let entry = DiscoveredDev::new(test_driver(), 9);
    assert_eq!(entry.get_devtype(), 9);
    assert_eq!(entry.get_driver().get_driver_id(), 5);
    let device = entry.open(3, true, false, 384, 289);
    assert_eq!(device.get_nr_enroll_stages(), 3);
    assert_eq!(device.get_enroll_stages_count(), 3);
    assert_eq!(device.get_dev_type(), 9);
    assert!(device.supports_imaging());
    assert!(!device.supports_identification());
    assert_eq!(device.get_driver().get_name(), "upekts");
    assert_eq!(device.get_driver().get_full_name(), "UPEK TouchStrip");
    assert_eq!(device.get_img_width(), SizeVariant::Static(384));
    assert_eq!(device.get_img_height(), SizeVariant::Static(289));
}

#[test]
fn non_imaging_device_dimensions() {
    let device = Device::new(test_driver(), 9, 1, false, false, -1, 0);
    assert_eq!(device.get_img_width(), SizeVariant::NonImagingDevice);
    assert_eq!(device.get_img_height(), SizeVariant::Variable);
}

#[test]
fn print_compatibility_is_driver_and_devtype() {
    let device = test_device();
    let matching = PrintData::with_data(5, 9, vec![1]);
    let wrong_driver = PrintData::with_data(6, 9, vec![1]);
    let wrong_devtype = PrintData::with_data(5, 8, vec![1]);
    assert!(device.supports_print_data(&matching));
    assert!(device.is_support_print_data(&matching));
    assert!(!device.supports_print_data(&wrong_driver));
    assert!(!device.supports_print_data(&wrong_devtype));
    let entry = DiscoveredDev::new(test_driver(), 9);
    assert!(entry.supports_print_data(&matching));
    assert!(!entry.supports_print_data(&wrong_driver));
}

#[test]
fn load_outcomes_distinguish_missing_from_obscure() {
    let device = test_device();
    assert!(matches!(
        device.load_data(Finger::LeftIndex, -2, None),
        Err(FPrintError::FingerprintNotFound(Finger::LeftIndex))
    ));
    assert!(matches!(
        device.load_data(Finger::LeftIndex, -77, None),
        Err(FPrintError::ObscureFailure(-77))
    ));
    assert!(matches!(
        device.load_data(Finger::LeftIndex, 0, None),
        Err(FPrintError::NullHandle(NullPtrContext::LoadPrintData))
    ));
    let stored = PrintData::with_data(5, 9, vec![4, 2]);
    let loaded = device
        .load_data(Finger::LeftIndex, 0, Some(stored))
        .expect("a success code with a handle loads");
    assert_eq!(loaded.data_len(), 2);
}

#[test]
fn delete_outcomes() {
    let device = test_device();
    assert!(device.delete_data(Finger::RightThumb, 0).is_ok());
    assert!(matches!(
        device.delete_data(Finger::RightThumb, -1),
        Err(FPrintError::DeleteFailed(Finger::RightThumb))
    ));
}

#[test]
fn capture_outcomes() {
    let device = test_device();
    let frame = Image::with_image(384, 289, vec![0; 4]);
    let captured = device.capture_image(false, 0, Some(frame)).unwrap();
    assert_eq!(captured.get_width(), 384);
    assert_eq!(captured.get_height(), 289);
    assert!(matches!(
        device.capture_image(true, -95, None),
        Err(FPrintError::NotSupported(NotSupportContext::CapturingImage))
    ));
    assert!(matches!(
        device.capture_image(false, 0, None),
        Err(FPrintError::NullHandle(NullPtrContext::CapturingImage))
    ));
    assert!(matches!(
        device.capture_image(false, 4, None),
        Err(FPrintError::ObscureFailure(4))
    ));
}

#[test]
fn verify_outcomes_map_codes() {
    let device = test_device();
    let print = PrintData::with_data(5, 9, vec![1]);
    assert_eq!(
        device.verify_finger_image(&print, 0),
        Ok(VerifyResult::NoMatch)
    );
    assert_eq!(
        device.verify_finger_image(&print, 1),
        Ok(VerifyResult::Match)
    );
    assert_eq!(
        device.verify_finger_image(&print, 100),
        Err(FPrintError::RetryNeeded(VerifyResult::Retry))
    );
    assert_eq!(
        device.verify_finger_image(&print, 101),
        Err(FPrintError::RetryNeeded(VerifyResult::RetryTooShort))
    );
    assert_eq!(
        device.verify_finger_image(&print, 102),
        Err(FPrintError::RetryNeeded(VerifyResult::RetryCenterFinger))
    );
    assert_eq!(
        device.verify_finger_image(&print, 103),
        Err(FPrintError::RetryNeeded(VerifyResult::RetryRemoveFinger))
    );
    assert_eq!(
        device.verify_finger_image(&print, -9),
        Err(FPrintError::VerifyFailed(-9))
    );
    assert_eq!(
        device.verify_finger_image(&print, 55),
        Err(FPrintError::InvalidEnumValue(55))
    );
}

fn template_buffer(driver_id: u16, devtype: u32) -> Vec<u8> {
    fprint_rs::PrintData::with_data(driver_id, devtype, vec![driver_id as u8])
        .as_bytes()
        .unwrap()
}

#[test]
fn identify_outcomes_map_codes() {
    let device = test_device();
    let gallery = vec![
        template_buffer(5, 9),
        template_buffer(5, 9),
        template_buffer(5, 9),
    ];
    assert_eq!(
        device.identify_finger_image(&gallery, 1, 2),
        Ok(IdentifyResult::Matched(2))
    );
    assert_eq!(
        device.identify_finger_image(&gallery, 0, 0),
        Ok(IdentifyResult::Error(VerifyResult::NoMatch))
    );
    assert_eq!(
        device.identify_finger_image(&gallery, 100, 0),
        Ok(IdentifyResult::Error(VerifyResult::Retry))
    );
    assert_eq!(
        device.identify_finger_image(&gallery, -95, 0),
        Err(FPrintError::NotSupported(NotSupportContext::Identify))
    );
    assert_eq!(
        device.identify_finger_image(&gallery, -3, 0),
        Err(FPrintError::IdentifyFailed(-3))
    );
    assert_eq!(
        device.identify_finger_image(&gallery, 55, 0),
        Err(FPrintError::InvalidEnumValue(55))
    );
}

#[test]
fn identify_match_indexes_callers_gallery() {
    let device = test_device();
    // A malformed first buffer is skipped when the native gallery is
    // built, so the native offsets 0 and 1 name the second and third
    // caller entries.
    let gallery = vec![
        vec![1, 2, 3],
        template_buffer(5, 9),
        template_buffer(5, 9),
    ];
    assert_eq!(
        device.identify_finger_image(&gallery, 1, 0),
        Ok(IdentifyResult::Matched(1))
    );
    assert_eq!(
        device.identify_finger_image(&gallery, 1, 1),
        Ok(IdentifyResult::Matched(2))
    );
    // An offset beyond the reconstructed gallery cannot name an entry.
    assert_eq!(
        device.identify_finger_image(&gallery, 1, 2),
        Err(FPrintError::Unspecified)
    );
}

#[test]
fn enroll_stage_outcomes() {
    let mut device = test_device();
    let retry = device
        .enroll_finger_image(100, PrintData::new(), None)
        .unwrap();
    assert!(matches!(retry, EnrollResult::Retry));
    let too_short = device
        .enroll_finger_image(101, PrintData::new(), None)
        .unwrap();
    assert!(matches!(too_short, EnrollResult::RetryTooShort));
    let failed = device
        .enroll_finger_image(2, PrintData::new(), None)
        .unwrap();
    assert!(matches!(failed, EnrollResult::Fail));
    assert!(matches!(
        device.enroll_finger_image(-5, PrintData::new(), None),
        Err(FPrintError::UnexpectedAbort(-5))
    ));
    assert!(matches!(
        device.enroll_finger_image(55, PrintData::new(), None),
        Err(FPrintError::InvalidEnumValue(55))
    ));
}

#[test]
fn enroll_pass_sequence_yields_each_stage() {
    let mut device = test_device();
    let mut session = device.enroll();
    let mut yielded: usize = 0;
    for _ in 0..2 {
        match session.step(&mut device, 3, PrintData::new(), None) {
            EnrollStep::Yielded(EnrollResult::Pass(_)) => yielded += 1,
            other => panic!("a passing stage must be yielded, got {:?}", other),
        }
    }
    assert_eq!(yielded, 2);
    let template = PrintData::with_data(5, 9, vec![1, 2, 3]);
    match session.step(&mut device, 1, template, None) {
        EnrollStep::Done(Ok(finished)) => {
            assert_eq!(finished.get_driver_id(), 5);
            assert_eq!(finished.data_len(), 3);
        }
        other => panic!("the final stage must complete, got {:?}", other),
    }
    assert!(session.is_finished());
}

#[test]
fn enroll_abort_then_fresh_run_succeeds() {
    let mut device = test_device();
    let mut session = device.enroll();
    match session.step(&mut device, -5, PrintData::new(), None) {
        EnrollStep::Done(Err(FPrintError::UnexpectedAbort(-5))) => {}
        other => panic!("an abort must end the session, got {:?}", other),
    }
    assert!(session.is_finished());
    let mut fresh = device.enroll();
    assert!(matches!(
        fresh.step(&mut device, 3, PrintData::new(), None),
        EnrollStep::Yielded(EnrollResult::Pass(_))
    ));
    assert!(matches!(
        fresh.step(&mut device, 3, PrintData::new(), None),
        EnrollStep::Yielded(EnrollResult::Pass(_))
    ));
    let template = PrintData::with_data(5, 9, vec![7]);
    assert!(matches!(
        fresh.step(&mut device, 1, template, None),
        EnrollStep::Done(Ok(_))
    ));
}

#[test]
fn enroll_complete_without_template_is_null_handle() {
    let mut device = test_device();
    let mut session = device.enroll();
    match session.step(&mut device, 1, PrintData::new(), None) {
        EnrollStep::Done(Err(FPrintError::NullHandle(NullPtrContext::EnrollComplete))) => {}
        other => panic!(
            "completion without a template is an invariant violation, got {:?}",
            other
        ),
    }
}

#[test]
fn image_standardize_and_binarize() {
    let mut image = Image::with_image(8, 8, vec![7; 64]);
    image.standardize();
    image.standardize();
    assert_eq!(image.get_width(), 8);
    assert_eq!(image.get_data().len(), 64);
    assert!(matches!(
        image.binarize(None),
        Err(FPrintError::NullHandle(NullPtrContext::Binarize))
    ));
    let derived = Image::with_image(8, 8, vec![0; 64]);
    let binarized = image.binarize(Some(derived)).unwrap();
    assert_eq!(binarized.get_height(), 8);
}

#[test]
fn image_save_outcomes() {
    let image = Image::new();
    assert!(matches!(
        image.save_to_file(false, 0),
        Err(FPrintError::PathNotFound)
    ));
    assert!(image.save_to_file(true, 0).is_ok());
    assert!(matches!(
        image.save_to_file(true, 3),
        Err(FPrintError::SaveFailed(3))
    ));
}
