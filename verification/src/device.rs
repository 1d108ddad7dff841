//! An opened scanner device and the outcome codes of its scan protocols.
//!
//! A `Device` stands for an exclusive session with one physical scanner.
//! The native layer holds all protocol state for it; the wrapper mirrors
//! that state as a model so the multi-stage enroll protocol can be
//! reasoned about.  Every scan operation blocks inside the native layer
//! and reports a plain code; the methods here take that code and classify
//! it, so the classification holds for every outcome the hardware can
//! produce.

use vstd::prelude::*;

use crate::driver::Driver;
use crate::driver::DriverView;
use crate::errors::FPrintError;
use crate::errors::NotSupportContext;
use crate::errors::NullPtrContext;
use crate::finger::Finger;
use crate::image::Image;
use crate::print_data::gallery_indices;
use crate::print_data::gallery_views;
use crate::print_data::kept_indices_spec;
use crate::print_data::lemma_kept_indices_bounds;
use crate::print_data::PrintData;

verus! {

/// The errno value the native layer reports when a stored print is
/// missing from disk.
pub const CODE_NOT_FOUND: i32 = 2;

/// The errno value the native layer reports when a device lacks the
/// capability an operation needs.
pub const CODE_NOT_SUPPORTED: i32 = 95;

/// The expected width or height of images a device captures.
#[derive(Debug, Clone, Copy, PartialEq, Eq, Structural)]
pub enum SizeVariant {
    /// The device does no imaging at all.
    NonImagingDevice,
    /// The dimension varies from capture to capture.
    Variable,
    /// The dimension is fixed at this many pixels.
    Static(u32),
}

impl SizeVariant {
    /// The size class a raw native dimension denotes: -1 marks a
    /// non-imaging device, 0 a variable dimension, a positive value a
    /// fixed one.
    pub open spec fn from_spec(value: i32) -> SizeVariant
        recommends
            value >= -1,
    {
        if value == -1 {
            SizeVariant::NonImagingDevice
        } else if value == 0 {
            SizeVariant::Variable
        } else {
            SizeVariant::Static(value as u32)
        }
    }

    /// Classifies a raw native dimension.  The native layer reports -1,
    /// 0, or a positive pixel count.
    pub fn from(value: i32) -> (r: SizeVariant)
        requires
            value >= -1,
        ensures
            r == SizeVariant::from_spec(value),
    {
        if value == -1 {
            SizeVariant::NonImagingDevice
        } else if value == 0 {
            SizeVariant::Variable
        } else {
            SizeVariant::Static(value as u32)
        }
    }
}

/// Outcome of a single image capture.
#[derive(Debug, Clone, Copy, PartialEq, Eq, Structural)]
pub enum CaptureResult {
    Complete,
    Fail,
}

impl CaptureResult {
    /// The capture outcome a raw native code denotes, if any.
    pub open spec fn decode_spec(value: u32) -> Option<CaptureResult> {
        if value == 0 {
            Some(CaptureResult::Complete)
        } else if value == 1 {
            Some(CaptureResult::Fail)
        } else {
            None
        }
    }

    /// Decodes a raw capture code: 0 is completion, 1 is failure,
    /// everything else is rejected.
    pub fn try_from(value: u32) -> (r: Result<CaptureResult, FPrintError>)
        ensures
            CaptureResult::decode_spec(value) matches Some(c) ==> r == Ok::<
                CaptureResult,
                FPrintError,
            >(c),
            CaptureResult::decode_spec(value) is None ==> r == Err::<CaptureResult, FPrintError>(
                FPrintError::InvalidEnumValue(value),
            ),
    {
        if value == 0 {
            Ok(CaptureResult::Complete)
        } else if value == 1 {
            Ok(CaptureResult::Fail)
        } else {
            Err(FPrintError::InvalidEnumValue(value))
        }
    }
}

/// Outcome of a verification or identification scan.
///
/// `NoMatch` and `Match` are terminal; the `Retry` variants report a scan
/// the user must redo and never advance or abort anything.
#[derive(Debug, Clone, Copy, PartialEq, Eq, Structural)]
pub enum VerifyResult {
    /// The scan succeeded but matches neither the given print nor, during
    /// identification, any gallery entry.
    NoMatch,
    /// The scan succeeded and matches.
    Match,
    /// Poor scan quality or a general user problem; scan again.
    Retry,
    /// The finger swipe was too short; scan again.
    RetryTooShort,
    /// The finger was not centered on the scanner; scan again.
    RetryCenterFinger,
    /// Quality or pressure problems; lift the finger, then scan again.
    RetryRemoveFinger,
}

impl VerifyResult {
    /// The verify outcome a raw native code denotes, if any: 0 and 1 are
    /// the terminal outcomes, 100 through 103 the retry reasons.
    pub open spec fn decode_spec(value: u32) -> Option<VerifyResult> {
        if value == 0 {
            Some(VerifyResult::NoMatch)
        } else if value == 1 {
            Some(VerifyResult::Match)
        } else if value == 100 {
            Some(VerifyResult::Retry)
        } else if value == 101 {
            Some(VerifyResult::RetryTooShort)
        } else if value == 102 {
            Some(VerifyResult::RetryCenterFinger)
        } else if value == 103 {
            Some(VerifyResult::RetryRemoveFinger)
        } else {
            None
        }
    }

    /// True of the retry outcomes, false of `NoMatch` and `Match`.
    pub open spec fn is_retry(self) -> bool {
        !(self == VerifyResult::NoMatch || self == VerifyResult::Match)
    }

    /// Decodes a raw verify code, rejecting every unknown value.
    pub fn try_from(value: u32) -> (r: Result<VerifyResult, FPrintError>)
        ensures
            VerifyResult::decode_spec(value) matches Some(v) ==> r == Ok::<
                VerifyResult,
                FPrintError,
            >(v),
            VerifyResult::decode_spec(value) is None ==> r == Err::<VerifyResult, FPrintError>(
                FPrintError::InvalidEnumValue(value),
            ),
    {
        if value == 0 {
            Ok(VerifyResult::NoMatch)
        } else if value == 1 {
            Ok(VerifyResult::Match)
        } else if value == 100 {
            Ok(VerifyResult::Retry)
        } else if value == 101 {
            Ok(VerifyResult::RetryTooShort)
        } else if value == 102 {
            Ok(VerifyResult::RetryCenterFinger)
        } else if value == 103 {
            Ok(VerifyResult::RetryRemoveFinger)
        } else {
            Err(FPrintError::InvalidEnumValue(value))
        }
    }

    /// The display name of this outcome.
    pub open spec fn name_spec(self) -> Seq<char> {
        match self {
            VerifyResult::NoMatch => "NoMatch"@,
            VerifyResult::Match => "Match"@,
            VerifyResult::Retry => "Retry"@,
            VerifyResult::RetryTooShort => "RetryTooShort"@,
            VerifyResult::RetryCenterFinger => "RetryCenterFinger"@,
            VerifyResult::RetryRemoveFinger => "RetryRemoveFinger"@,
        }
    }

    /// Renders this outcome's display name.
    pub fn name(self) -> (r: String)
        ensures
            r@ == self.name_spec(),
    {
        match self {
            VerifyResult::NoMatch => String::from_str("NoMatch"),
            VerifyResult::Match => String::from_str("Match"),
            VerifyResult::Retry => String::from_str("Retry"),
            VerifyResult::RetryTooShort => String::from_str("RetryTooShort"),
            VerifyResult::RetryCenterFinger => String::from_str("RetryCenterFinger"),
            VerifyResult::RetryRemoveFinger => String::from_str("RetryRemoveFinger"),
        }
    }
}

/// Outcome of one enroll stage.
///
/// The `Retry` variants leave the stage where it was; `Pass` advances it;
/// `Fail` aborts the whole enrollment; `Complete` only ever comes from the
/// final stage and carries the finished template with the triggering
/// image.  Imaging devices attach the scan frame to `Pass` and `Complete`;
/// other devices attach nothing.
#[derive(Debug)]
pub enum EnrollResult {
    /// Enrollment finished; here are the template and the last frame.
    Complete(PrintData, Option<Image>),
    /// The scans were acceptable but processing produced incomprehensible
    /// data, for example different fingers across stages; enrollment is
    /// aborted and implicitly reset.
    Fail,
    /// This stage passed; more stages are needed.
    Pass(Option<Image>),
    /// Poor scan quality or a general user problem; redo this stage.
    Retry,
    /// The finger swipe was too short; redo this stage.
    RetryTooShort,
    /// The finger was not centered on the scanner; redo this stage.
    RetryCenterFinger,
    /// Quality or pressure problems; lift the finger, then redo this
    /// stage.
    RetryRemoveFinger,
}

impl EnrollResult {
    /// True of the raw codes that denote an enroll outcome: 1 completes,
    /// 2 fails, 3 passes, 100 through 103 ask for a retry.
    pub open spec fn known_code(value: u32) -> bool {
        value == 1 || value == 2 || value == 3 || 100 <= value <= 103
    }

    /// Decodes a raw enroll code, attaching the template and image the
    /// native call produced to the variants that carry them.
    pub fn try_from(value: u32, data: PrintData, image: Option<Image>) -> (r: Result<
        EnrollResult,
        FPrintError,
    >)
        ensures
            value == 1 ==> (r matches Ok(e) && e matches EnrollResult::Complete(p, img) && p == data
                && img == image),
            value == 2 ==> (r matches Ok(e) && e is Fail),
            value == 3 ==> (r matches Ok(e) && e matches EnrollResult::Pass(img) && img == image),
            value == 100 ==> (r matches Ok(e) && e is Retry),
            value == 101 ==> (r matches Ok(e) && e is RetryTooShort),
            value == 102 ==> (r matches Ok(e) && e is RetryCenterFinger),
            value == 103 ==> (r matches Ok(e) && e is RetryRemoveFinger),
            !EnrollResult::known_code(value) ==> (r matches Err(e) && e
                == FPrintError::InvalidEnumValue(value)),
    {
        if value == 1 {
            Ok(EnrollResult::Complete(data, image))
        } else if value == 2 {
            Ok(EnrollResult::Fail)
        } else if value == 3 {
            Ok(EnrollResult::Pass(image))
        } else if value == 100 {
            Ok(EnrollResult::Retry)
        } else if value == 101 {
            Ok(EnrollResult::RetryTooShort)
        } else if value == 102 {
            Ok(EnrollResult::RetryCenterFinger)
        } else if value == 103 {
            Ok(EnrollResult::RetryRemoveFinger)
        } else {
            Err(FPrintError::InvalidEnumValue(value))
        }
    }

    /// The display name of this outcome.
    pub open spec fn name_spec(&self) -> Seq<char> {
        match self {
            EnrollResult::Complete(_, _) => "Complete"@,
            EnrollResult::Fail => "Fail"@,
            EnrollResult::Pass(_) => "Pass"@,
            EnrollResult::Retry => "Retry"@,
            EnrollResult::RetryTooShort => "Retry: too short"@,
            EnrollResult::RetryCenterFinger => "Retry: center finger"@,
            EnrollResult::RetryRemoveFinger => "Retry: remove finger"@,
        }
    }

    /// Renders this outcome's display name.
    pub fn name(&self) -> (r: String)
        ensures
            r@ == self.name_spec(),
    {
        match self {
            EnrollResult::Complete(_, _) => String::from_str("Complete"),
            EnrollResult::Fail => String::from_str("Fail"),
            EnrollResult::Pass(_) => String::from_str("Pass"),
            EnrollResult::Retry => String::from_str("Retry"),
            EnrollResult::RetryTooShort => String::from_str("Retry: too short"),
            EnrollResult::RetryCenterFinger => String::from_str("Retry: center finger"),
            EnrollResult::RetryRemoveFinger => String::from_str("Retry: remove finger"),
        }
    }
}

/// Outcome of an identification scan against a gallery.
#[derive(Debug, Clone, Copy, PartialEq, Eq, Structural)]
pub enum IdentifyResult {
    /// The scanned finger matched the gallery entry at this index, in the
    /// caller-supplied ordering.
    Matched(usize),
    /// The scan terminated without a match; the payload is the verify
    /// outcome the native layer reported.
    Error(VerifyResult),
}

/// The native enrollment stage after one scan outcome on a device with
/// `n` stages: a pass advances by one, a retry stays put, and completion,
/// failure or a negative abort code reset to a fresh enrollment.  The
/// native layer never reports a pass from the final stage, so the
/// transition saturates there.
pub open spec fn enroll_stage_next(n: int, stage: int, code: int) -> int {
    if code < 0 || code == 1 || code == 2 {
        0
    } else if code == 3 {
        if stage + 1 < n {
            stage + 1
        } else {
            stage
        }
    } else {
        stage
    }
}

/// Mathematical image of an opened device: the capabilities the native
/// layer reports, plus the enrollment stage the native layer holds for
/// it.
#[verifier::ext_equal]
pub struct DeviceView {
    pub driver: DriverView,
    pub devtype: u32,
    pub nr_enroll_stages: i32,
    pub imaging: bool,
    pub identification: bool,
    pub img_width: i32,
    pub img_height: i32,
    pub enroll_stage: int,
}

/// An opened, exclusive session with one physical scanner.
///
/// Capability queries read the data the native open call revealed; the
/// scan protocols classify the codes the blocking native calls report.
/// A device whose hardware was unplugged after discovery still opens;
/// the loss surfaces as failure codes from later operations, matching
/// the native hotplug semantics.
pub struct Device {
    driver: Driver,
    devtype: u32,
    nr_enroll_stages: i32,
    imaging: bool,
    identification: bool,
    img_width: i32,
    img_height: i32,
    enroll_stage: Ghost<int>,
}

impl View for Device {
    type V = DeviceView;

    closed spec fn view(&self) -> DeviceView {
        DeviceView {
            driver: self.driver@,
            devtype: self.devtype,
            nr_enroll_stages: self.nr_enroll_stages,
            imaging: self.imaging,
            identification: self.identification,
            img_width: self.img_width,
            img_height: self.img_height,
            enroll_stage: self.enroll_stage@,
        }
    }
}

impl Device {
    /// A device is well formed when its capabilities lie in the ranges
    /// the native layer produces and its enrollment stage is one of the
    /// stages it actually has.
    pub open spec fn wf(&self) -> bool {
        &&& self@.nr_enroll_stages >= 1
        &&& self@.img_width >= -1
        &&& self@.img_height >= -1
        &&& 0 <= self@.enroll_stage < self@.nr_enroll_stages
    }

    /// Wraps an opened native device handle together with the
    /// capabilities the native layer reports for it.  A fresh device has
    /// no enrollment in progress.
    pub fn new(
        driver: Driver,
        devtype: u32,
        nr_enroll_stages: i32,
        imaging: bool,
        identification: bool,
        img_width: i32,
        img_height: i32,
    ) -> (r: Device)
        requires
            nr_enroll_stages >= 1,
            img_width >= -1,
            img_height >= -1,
        ensures
            r.wf(),
            r@ == (DeviceView {
                driver: driver@,
                devtype,
                nr_enroll_stages,
                imaging,
                identification,
                img_width,
                img_height,
                enroll_stage: 0,
            }),
    {
        let r = Device {
            driver,
            devtype,
            nr_enroll_stages,
            imaging,
            identification,
            img_width,
            img_height,
            enroll_stage: Ghost(0),
        };
        proof {
            assert(r@ =~= DeviceView {
                driver: r@.driver,
                devtype,
                nr_enroll_stages,
                imaging,
                identification,
                img_width,
                img_height,
                enroll_stage: 0,
            });
        }
        r
    }

    /// The driver controlling this device.
    pub fn get_driver(&self) -> (r: Driver)
        ensures
            r@ == self@.driver,
    {
        self.driver.clone()
    }

    /// The number of enroll stages required to enroll a fingerprint with
    /// this device.
    pub fn get_nr_enroll_stages(&self) -> (r: i32)
        ensures
            r == self@.nr_enroll_stages,
    {
        self.nr_enroll_stages
    }

    /// Alias for `get_nr_enroll_stages`.
    pub fn get_enroll_stages_count(&self) -> (r: i32)
        ensures
            r == self@.nr_enroll_stages,
    {
        self.get_nr_enroll_stages()
    }

    /// The devtype of this device.
    pub fn get_dev_type(&self) -> (r: u32)
        ensures
            r == self@.devtype,
    {
        self.devtype
    }

    /// Whether a stored print is compatible with this device: it must
    /// come from the same driver and device type.
    pub fn supports_print_data(&self, data: &PrintData) -> (r: bool)
        ensures
            r == (self@.driver.driver_id == data@.driver_id && self@.devtype == data@.devtype),
    {
        self.driver.get_driver_id() == data.get_driver_id() && self.devtype == data.get_devtype()
    }

    /// Alias for `supports_print_data`.
    pub fn is_support_print_data(&self, data: &PrintData) -> (r: bool)
        ensures
            r == (self@.driver.driver_id == data@.driver_id && self@.devtype == data@.devtype),
    {
        self.supports_print_data(data)
    }

    /// Whether this device has imaging capabilities.  Non-imaging devices
    /// do all processing in hardware and never hand out scan frames.
    pub fn supports_imaging(&self) -> (r: bool)
        ensures
            r == self@.imaging,
    {
        self.imaging
    }

    /// Whether this device can identify a scan against a gallery.
    pub fn supports_identification(&self) -> (r: bool)
        ensures
            r == self@.identification,
    {
        self.identification
    }

    /// The expected width of images captured from this device.
    pub fn get_img_width(&self) -> (r: SizeVariant)
        requires
            self.wf(),
        ensures
            r == SizeVariant::from_spec(self@.img_width),
    {
        SizeVariant::from(self.img_width)
    }

    /// The expected height of images captured from this device.
    pub fn get_img_height(&self) -> (r: SizeVariant)
        requires
            self.wf(),
        ensures
            r == SizeVariant::from_spec(self@.img_height),
    {
        SizeVariant::from(self.img_height)
    }

    /// Classifies the outcome of loading the stored print for `finger`
    /// from disk: the missing-print errno is a not-found failure, any
    /// other non-zero code is obscure, and a success code without a
    /// handle is the defensive null-handle failure.
    pub fn load_data(&self, finger: Finger, code: i32, data: Option<PrintData>) -> (r: Result<
        PrintData,
        FPrintError,
    >)
        ensures
            code == -CODE_NOT_FOUND ==> (r matches Err(e) && e == FPrintError::FingerprintNotFound(
                finger,
            )),
            code != 0 && code != -CODE_NOT_FOUND ==> (r matches Err(e) && e
                == FPrintError::ObscureFailure(code)),
            code == 0 && data is None ==> (r matches Err(e) && e == FPrintError::NullHandle(
                NullPtrContext::LoadPrintData,
            )),
            code == 0 ==> (data matches Some(p) ==> (r matches Ok(q) && q == p)),
    {
        if code == -CODE_NOT_FOUND {
            Err(FPrintError::FingerprintNotFound(finger))
        } else if code != 0 {
            Err(FPrintError::ObscureFailure(code))
        } else {
            match data {
                None => Err(FPrintError::NullHandle(NullPtrContext::LoadPrintData)),
                Some(p) => Ok(p),
            }
        }
    }

    /// Classifies the outcome of removing the stored print for `finger`.
    /// The native delete call only ever reports zero or a negative code.
    pub fn delete_data(&self, finger: Finger, code: i32) -> (r: Result<(), FPrintError>)
        requires
            code <= 0,
        ensures
            code == 0 ==> r is Ok,
            code < 0 ==> (r matches Err(e) && e == FPrintError::DeleteFailed(finger)),
    {
        if code == 0 {
            Ok(())
        } else {
            Err(FPrintError::DeleteFailed(finger))
        }
    }

    /// Takes over the frame an image capture produced, or classifies why
    /// there is none: the unsupported errno covers both a non-imaging
    /// device and one that cannot capture unconditionally, a success code
    /// without a frame is the defensive null-handle failure, and any
    /// other code is obscure.  When `unconditional` was unset the native
    /// call blocked until a finger was detected.
    pub fn capture_image(&self, unconditional: bool, code: i32, image: Option<Image>) -> (r: Result<
        Image,
        FPrintError,
    >)
        ensures
            code == 0 ==> (image matches Some(img) ==> (r matches Ok(i) && i == img)),
            code == 0 && image is None ==> (r matches Err(e) && e == FPrintError::NullHandle(
                NullPtrContext::CapturingImage,
            )),
            code == -CODE_NOT_SUPPORTED ==> (r matches Err(e) && e == FPrintError::NotSupported(
                NotSupportContext::CapturingImage,
            )),
            code != 0 && code != -CODE_NOT_SUPPORTED ==> (r matches Err(e) && e
                == FPrintError::ObscureFailure(code)),
    {
        let _ = unconditional;
        if code == 0 {
            match image {
                Some(img) => Ok(img),
                None => Err(FPrintError::NullHandle(NullPtrContext::CapturingImage)),
            }
        } else if code == -CODE_NOT_SUPPORTED {
            Err(FPrintError::NotSupported(NotSupportContext::CapturingImage))
        } else {
            Err(FPrintError::ObscureFailure(code))
        }
    }

    /// Performs the bookkeeping for one enroll stage: classifies the raw
    /// code the blocking native scan reported, attaching the template and
    /// frame it produced, and advances, holds or resets the modelled
    /// enrollment stage exactly as the native layer does.  A negative
    /// code aborts the enrollment; the next stage then starts fresh.
    pub fn enroll_finger_image(&mut self, code: i32, data: PrintData, image: Option<Image>) -> (r:
        Result<EnrollResult, FPrintError>)
        requires
            old(self).wf(),
        ensures
            final(self).wf(),
            final(self)@ == (DeviceView {
                enroll_stage: enroll_stage_next(
                    old(self)@.nr_enroll_stages as int,
                    old(self)@.enroll_stage,
                    code as int,
                ),
                ..old(self)@
            }),
            code < 0 ==> (r matches Err(e) && e == FPrintError::UnexpectedAbort(code)),
            code == 1 ==> (r matches Ok(e) && e matches EnrollResult::Complete(p, img) && p == data
                && img == image),
            code == 2 ==> (r matches Ok(e) && e is Fail),
            code == 3 ==> (r matches Ok(e) && e matches EnrollResult::Pass(img) && img == image),
            code == 100 ==> (r matches Ok(e) && e is Retry),
            code == 101 ==> (r matches Ok(e) && e is RetryTooShort),
            code == 102 ==> (r matches Ok(e) && e is RetryCenterFinger),
            code == 103 ==> (r matches Ok(e) && e is RetryRemoveFinger),
            code >= 0 && !EnrollResult::known_code(code as u32) ==> (r matches Err(e) && e
                == FPrintError::InvalidEnumValue(code as u32)),
    {
        let ghost n = self@.nr_enroll_stages as int;
        let ghost stage = self@.enroll_stage;
        if code < 0 {
            self.enroll_stage = Ghost(0);
            proof {
                assert(self@ =~= DeviceView {
                    enroll_stage: enroll_stage_next(n, stage, code as int),
                    ..old(self)@
                });
            }
            Err(FPrintError::UnexpectedAbort(code))
        } else {
            if code == 1 || code == 2 {
                self.enroll_stage = Ghost(0);
            } else if code == 3 {
                self.enroll_stage = Ghost(
                    if stage + 1 < n {
                        stage + 1
                    } else {
                        stage
                    },
                );
            }
            proof {
                assert(self@ =~= DeviceView {
                    enroll_stage: enroll_stage_next(n, stage, code as int),
                    ..old(self)@
                });
            }
            EnrollResult::try_from(code as u32, data, image)
        }
    }

    /// Classifies the outcome of a verification scan against one
    /// enrolled print: code 0 is a successful no-match, code 1 a
    /// successful match, any retry code becomes the retry-needed error
    /// carrying its sub-reason, a negative code is a verify failure, and
    /// an unknown code is rejected.
    pub fn verify_finger_image(&self, print: &PrintData, code: i32) -> (r: Result<
        VerifyResult,
        FPrintError,
    >)
        ensures
            code < 0 ==> (r matches Err(e) && e == FPrintError::VerifyFailed(code)),
            code == 0 ==> (r matches Ok(v) && v == VerifyResult::NoMatch),
            code == 1 ==> (r matches Ok(v) && v == VerifyResult::Match),
            code >= 0 ==> (VerifyResult::decode_spec(code as u32) matches Some(v) ==> (v.is_retry()
                ==> (r matches Err(e) && e == FPrintError::RetryNeeded(v)))),
            code >= 0 && VerifyResult::decode_spec(code as u32) is None ==> (r matches Err(e) && e
                == FPrintError::InvalidEnumValue(code as u32)),
    {
        let _ = print;
        if code < 0 {
            Err(FPrintError::VerifyFailed(code))
        } else {
            match VerifyResult::try_from(code as u32) {
                Err(e) => Err(e),
                Ok(v) => match v {
                    VerifyResult::NoMatch => Ok(v),
                    VerifyResult::Match => Ok(v),
                    _ => Err(FPrintError::RetryNeeded(v)),
                },
            }
        }
    }

    /// Classifies the outcome of an identification scan against a
    /// gallery: the native match offset indexes the reconstructed
    /// gallery - the caller-supplied buffers with the malformed ones
    /// skipped - and is translated back to the caller's own position, so
    /// a match always points into the caller's gallery.  Any other
    /// verify outcome is embedded in the non-match result, the
    /// unsupported errno marks a device that cannot identify, other
    /// negative codes are identify failures, and a match offset beyond
    /// the reconstructed gallery is an invariant violation of the native
    /// layer, surfaced as the unexplained failure rather than as a
    /// fabricated index.
    pub fn identify_finger_image(&self, gallery: &Vec<Vec<u8>>, code: i32, offset: usize) -> (r:
        Result<IdentifyResult, FPrintError>)
        ensures
            code == -CODE_NOT_SUPPORTED ==> (r matches Err(e) && e == FPrintError::NotSupported(
                NotSupportContext::Identify,
            )),
            code < 0 && code != -CODE_NOT_SUPPORTED ==> (r matches Err(e) && e
                == FPrintError::IdentifyFailed(code)),
            code == 1 && (offset as int) < kept_indices_spec(gallery_views(gallery@)).len() ==> (
            r matches Ok(i) && i matches IdentifyResult::Matched(m) && m as int
                == kept_indices_spec(gallery_views(gallery@))[offset as int] && (m as int)
                < gallery@.len()),
            code == 1 && (offset as int) >= kept_indices_spec(gallery_views(gallery@)).len() ==> (
            r matches Err(e) && e == FPrintError::Unspecified),
            code >= 0 ==> (VerifyResult::decode_spec(code as u32) matches Some(v) ==> (v
                != VerifyResult::Match ==> (r matches Ok(i) && i == IdentifyResult::Error(v)))),
            code >= 0 && VerifyResult::decode_spec(code as u32) is None ==> (r matches Err(e) && e
                == FPrintError::InvalidEnumValue(code as u32)),
    {
        if code == -CODE_NOT_SUPPORTED {
            Err(FPrintError::NotSupported(NotSupportContext::Identify))
        } else if code < 0 {
            Err(FPrintError::IdentifyFailed(code))
        } else {
            match VerifyResult::try_from(code as u32) {
                Err(e) => Err(e),
                Ok(v) => match v {
                    VerifyResult::Match => {
                        let indices = gallery_indices(gallery);
                        proof {
                            lemma_kept_indices_bounds(gallery_views(gallery@));
                            assert(indices@.map_values(|x: usize| x as int).len()
                                == indices@.len());
                            assert(gallery_views(gallery@).len() == gallery@.len());
                        }
                        if offset < indices.len() {
                            let m = indices[offset];
                            proof {
                                assert(indices@.map_values(|x: usize| x as int)[offset as int]
                                    == m as int);
                            }
                            Ok(IdentifyResult::Matched(m))
                        } else {
                            Err(FPrintError::Unspecified)
                        }
                    },
                    _ => Ok(IdentifyResult::Error(v)),
                },
            }
        }
    }
}

} // verus!
