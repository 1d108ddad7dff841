//! Print templates: byte-buffer round trips and gallery building.

use fprint_rs::build_gallery;
use fprint_rs::FPrintError;
use fprint_rs::Finger;
use fprint_rs::PrintData;

#[test]
fn template_bytes_roundtrip() {
    let template = PrintData::with_data(258, 0x0102_0304, vec![9, 8, 7]);
    let bytes = template.as_bytes().expect("a template with payload serializes");
    let reloaded = PrintData::from_bytes(&bytes).expect("its buffer must parse back");
    assert_eq!(reloaded.get_driver_id(), 258);
    assert_eq!(reloaded.get_devtype(), 0x0102_0304);
    assert_eq!(reloaded.data_len(), 3);
    let again = reloaded.as_bytes().expect("the reloaded template serializes too");
    assert_eq!(again, bytes);
}

#[test]
fn template_bytes_layout_exact() {
    let template = PrintData::with_data(0x0102, 0x0A0B_0C0D, vec![0xFF]);
    let bytes = template.get_data().unwrap();
    assert_eq!(bytes, vec![0x02, 0x01, 0x0D, 0x0C, 0x0B, 0x0A, 0xFF]);
}

#[test]
fn template_malformed_rejected() {
    assert!(matches!(
        PrintData::from_bytes(&vec![]),
        Err(FPrintError::SerializationFailed)
    ));
    assert!(matches!(
        PrintData::from_bytes(&vec![1, 2, 3, 4, 5, 6]),
        Err(FPrintError::SerializationFailed)
    ));
    let header_plus_payload = vec![1, 2, 3, 4, 5, 6, 7];
    assert!(PrintData::from_data(&header_plus_payload).is_ok());
}

#[test]
fn empty_template_has_no_bytes() {
    let empty = PrintData::new();
    assert!(matches!(
        empty.as_bytes(),
        Err(FPrintError::SerializationFailed)
    ));
    assert_eq!(empty.data_len(), 0);
    assert_eq!(empty.get_driver_id(), 0);
    assert_eq!(empty.get_devtype(), 0);
}

#[test]
fn gallery_skips_malformed() {
    let good_a = PrintData::with_data(1, 10, vec![1, 1]).as_bytes().unwrap();
    let bad = vec![0, 1, 2];
    let good_b = PrintData::with_data(2, 20, vec![2, 2, 2]).as_bytes().unwrap();
    let gallery = build_gallery(&vec![good_a, bad, good_b]);
    assert_eq!(gallery.len(), 2);
    assert_eq!(gallery[0].get_driver_id(), 1);
    assert_eq!(gallery[0].get_devtype(), 10);
    assert_eq!(gallery[1].get_driver_id(), 2);
    assert_eq!(gallery[1].get_devtype(), 20);
}

#[test]
fn save_to_disk_codes() {
    let template = PrintData::with_data(1, 1, vec![1]);
    assert!(template.save_to_disk(Finger::LeftThumb, 0).is_ok());
    assert_eq!(
        template.save_to_disk(Finger::LeftThumb, 5),
        Err(FPrintError::SaveFailed(5))
    );
    assert_eq!(
        template.save_to_disk(Finger::RightRing, -9),
        Err(FPrintError::SaveFailed(-9))
    );
}
