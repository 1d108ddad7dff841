//! Conversions between raw native codes and their typed forms.

use fprint_rs::CaptureResult;
use fprint_rs::EnrollResult;
use fprint_rs::FPrintError;
use fprint_rs::Finger;
use fprint_rs::ScanType;
use fprint_rs::SizeVariant;
use fprint_rs::VerifyResult;

#[test]
fn finger_codes_roundtrip() {
    for code in 1u32..=10 {
        let finger = Finger::try_from(code).expect("codes 1..=10 must decode");
        assert_eq!(finger.code(), code);
    }
    assert_eq!(Finger::try_from(1), Ok(Finger::LeftThumb));
    assert_eq!(Finger::try_from(5), Ok(Finger::LeftLittle));
    assert_eq!(Finger::try_from(6), Ok(Finger::RightThumb));
    assert_eq!(Finger::try_from(10), Ok(Finger::RightLittle));
    assert_eq!(Finger::RightIndex.code(), 7);
}

#[test]
fn finger_rejects_out_of_range() {
    assert_eq!(Finger::try_from(0), Err(FPrintError::InvalidEnumValue(0)));
    assert_eq!(Finger::try_from(11), Err(FPrintError::InvalidEnumValue(11)));
    assert_eq!(
        Finger::try_from(4_000_000_000),
        Err(FPrintError::InvalidEnumValue(4_000_000_000))
    );
}

#[test]
fn finger_names() {
    assert_eq!(Finger::LeftThumb.name(), "LeftThumb");
    assert_eq!(Finger::LeftRing.name(), "LeftRing");
    assert_eq!(Finger::RightLittle.name(), "RightLittle");
}

#[test]
fn scan_type_codes() {
    assert_eq!(ScanType::try_from(0), Ok(ScanType::Press));
    assert_eq!(ScanType::try_from(1), Ok(ScanType::Swipe));
    assert_eq!(ScanType::try_from(2), Err(FPrintError::InvalidEnumValue(2)));
}

#[test]
fn size_variant_classes() {
    assert_eq!(SizeVariant::from(-1), SizeVariant::NonImagingDevice);
    assert_eq!(SizeVariant::from(0), SizeVariant::Variable);
    assert_eq!(SizeVariant::from(384), SizeVariant::Static(384));
}

#[test]
fn capture_result_codes() {
    assert_eq!(CaptureResult::try_from(0).unwrap(), CaptureResult::Complete);
    assert_eq!(CaptureResult::try_from(1).unwrap(), CaptureResult::Fail);
    assert_eq!(
        CaptureResult::try_from(7),
        Err(FPrintError::InvalidEnumValue(7))
    );
}

#[test]
fn verify_result_codes() {
    assert_eq!(VerifyResult::try_from(0), Ok(VerifyResult::NoMatch));
    assert_eq!(VerifyResult::try_from(1), Ok(VerifyResult::Match));
    assert_eq!(VerifyResult::try_from(100), Ok(VerifyResult::Retry));
    assert_eq!(VerifyResult::try_from(101), Ok(VerifyResult::RetryTooShort));
    assert_eq!(
        VerifyResult::try_from(102),
        Ok(VerifyResult::RetryCenterFinger)
    );
    assert_eq!(
        VerifyResult::try_from(103),
        Ok(VerifyResult::RetryRemoveFinger)
    );
    assert_eq!(
        VerifyResult::try_from(99),
        Err(FPrintError::InvalidEnumValue(99))
    );
}

#[test]
fn enroll_result_names() {
    assert_eq!(EnrollResult::Fail.name(), "Fail");
    assert_eq!(EnrollResult::Pass(None).name(), "Pass");
    assert_eq!(EnrollResult::Retry.name(), "Retry");
    assert_eq!(EnrollResult::RetryTooShort.name(), "Retry: too short");
    assert_eq!(EnrollResult::RetryCenterFinger.name(), "Retry: center finger");
    assert_eq!(EnrollResult::RetryRemoveFinger.name(), "Retry: remove finger");
}

#[test]
fn verify_result_names() {
    assert_eq!(VerifyResult::NoMatch.name(), "NoMatch");
    assert_eq!(VerifyResult::Match.name(), "Match");
    assert_eq!(VerifyResult::RetryCenterFinger.name(), "RetryCenterFinger");
}
