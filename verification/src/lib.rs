//! A safety wrapper around a native fingerprint-scanning subsystem.
//!
//! The native library owns every interesting resource: device handles,
//! discovered-device lists, print templates and scan images, all reachable
//! only through calls that report plain integer codes and may hand back
//! nothing at all.  This crate keeps the bookkeeping around that boundary
//! honest: each handle is modelled by an owned value holding exactly the
//! plain data the wrapper logic reads, every native return code is
//! classified into a closed error taxonomy before it reaches a caller, and
//! the multi-stage enroll protocol is an explicit state machine.
//!
//! The blocking calls themselves (USB traffic, disk access, global
//! initialisation) live outside this crate; their outcomes enter the
//! library as ordinary values, so every decision taken on an outcome is
//! verified for all outcomes the native layer can produce.

use vstd::prelude::*;

mod device;
mod discovered_device;
mod driver;
mod enroll;
mod errors;
mod finger;
mod image;
mod print_data;

pub use device::enroll_stage_next;
pub use device::CaptureResult;
pub use device::Device;
pub use device::DeviceView;
pub use device::EnrollResult;
pub use device::IdentifyResult;
pub use device::SizeVariant;
pub use device::VerifyResult;
pub use device::CODE_NOT_FOUND;
pub use device::CODE_NOT_SUPPORTED;
pub use discovered_device::lemma_terminator_scan;
pub use discovered_device::lemma_terminator_scan_value;
pub use discovered_device::terminator_scan;
pub use discovered_device::DiscoveredDev;
pub use discovered_device::DiscoveredDevView;
pub use discovered_device::DiscoveredDevices;
pub use discovered_device::DiscoveredDevicesView;
pub use driver::Driver;
pub use driver::DriverView;
pub use driver::ScanType;
pub use enroll::lemma_enroll_abort_resets;
pub use enroll::lemma_enroll_pass_run;
pub use enroll::lemma_enroll_stage_sequencing;
pub use enroll::stage_after_run;
pub use enroll::EnrollSession;
pub use enroll::EnrollStep;
pub use errors::FPrintError;
pub use errors::NotSupportContext;
pub use errors::NullPtrContext;
pub use finger::lemma_finger_decode_encode;
pub use finger::lemma_finger_encode_bijective;
pub use finger::Finger;
pub use image::lemma_standardize_idempotent;
pub use image::standardized_spec;
pub use image::Image;
pub use image::ImageView;
pub use print_data::build_gallery;
pub use print_data::gallery_indices;
pub use print_data::gallery_views;
pub use print_data::kept_indices_spec;
pub use print_data::lemma_kept_indices_bounds;
pub use print_data::lemma_kept_indices_len;
pub use print_data::lemma_print_bytes_roundtrip;
pub use print_data::lemma_print_data_roundtrip;
pub use print_data::parse_gallery_spec;
pub use print_data::parse_spec;
pub use print_data::serialized_spec;
pub use print_data::PrintData;
pub use print_data::PrintView;

verus! {

/// Marker for the process-wide initialised state of the native subsystem.
///
/// At most one live instance should exist per process: the native library
/// tracks a single global state, and tearing it down twice is undefined.
/// Constructing the value is gated on the code the native initialisation
/// call reported.
#[derive(Debug)]
pub struct FPrint;

impl FPrint {
    /// Classifies the outcome of the global native initialisation call:
    /// a zero code yields the session marker, anything else is an
    /// initialisation failure carrying the raw code.
    pub fn new(code: i32) -> (r: Result<FPrint, FPrintError>)
        ensures
            code == 0 ==> r is Ok,
            code != 0 ==> r == Err::<FPrint, FPrintError>(FPrintError::InitFailed(code)),
    {
        if code == 0 {
            Ok(FPrint)
        } else {
            Err(FPrintError::InitFailed(code))
        }
    }

    /// Wraps the raw slots a native hardware scan returned as a
    /// discovery snapshot.  Finding nothing is not an error: an absent
    /// or empty array is simply an empty sequence.
    pub fn discover(&self, slots: Vec<Option<DiscoveredDev>>) -> (r: DiscoveredDevices)
        ensures
            r@.slots == slots@,
            r@.pos == 0,
    {
        DiscoveredDevices::with_devices(slots)
    }
}

} // verus!
