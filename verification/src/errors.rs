//! The closed error taxonomy of the wrapper.
//!
//! Every operation that crosses into the native layer classifies the raw
//! outcome (a negative error code, a zero success code, a sentinel, a null
//! handle) into exactly one of these kinds before returning.  Raw codes
//! never escape uncategorised; unrecognised ones are carried as diagnostic
//! payload inside the catch-all kinds.

use vstd::prelude::*;

use crate::device::VerifyResult;
use crate::finger::Finger;

verus! {

/// Where a null handle surfaced while the native layer reported otherwise.
#[derive(Debug, Clone, Copy, PartialEq, Eq, Structural)]
pub enum NullPtrContext {
    /// While scanning for attached devices.
    Discovering,
    /// While loading a stored print from disk.
    LoadPrintData,
    /// While binarizing a scan image.
    Binarize,
    /// While capturing a scan image.
    CapturingImage,
    /// While completing an enrollment.
    EnrollComplete,
    /// While materialising a discovered-device entry.
    CreateDiscoveringDevice,
}

/// Which capability a device turned out to lack.
#[derive(Debug, Clone, Copy, PartialEq, Eq, Structural)]
pub enum NotSupportContext {
    /// The device cannot capture images, or cannot capture unconditionally.
    CapturingImage,
    /// The device cannot identify against a gallery.
    Identify,
}

/// One kind per failure a wrapper operation can surface.
///
/// Recoverable retry outcomes during verification are carried by
/// `RetryNeeded`; recoverable retry outcomes during enrollment are success
/// values of the enroll protocol, not errors.
#[derive(Debug, Clone, Copy, PartialEq, Eq, Structural)]
pub enum FPrintError {
    /// Global native initialisation returned this non-zero code.
    InitFailed(i32),
    /// A native call reported success yet handed back a null handle.
    NullHandle(NullPtrContext),
    /// No print is stored on disk for this finger.
    FingerprintNotFound(Finger),
    /// An unclassified non-zero native code, kept for diagnostics.
    ObscureFailure(i32),
    /// Removing the stored print for this finger failed.
    DeleteFailed(Finger),
    /// The device lacks the capability the call needs.
    NotSupported(NotSupportContext),
    /// Enrollment was aborted by an internal error or I/O problem; the
    /// native enrollment state is reset and the next stage starts fresh.
    UnexpectedAbort(i32),
    /// A verification scan failed outright with this negative code.
    VerifyFailed(i32),
    /// The verification scan must be redone; the payload says why.
    RetryNeeded(VerifyResult),
    /// An identification scan failed outright with this negative code.
    IdentifyFailed(i32),
    /// Saving to disk failed with this non-zero code.
    SaveFailed(i32),
    /// A byte buffer could not be read back as a print template, or a
    /// template without data was asked for its bytes.
    SerializationFailed,
    /// A raw value matches no variant of the enumeration being decoded.
    InvalidEnumValue(u32),
    /// The target path for an image export does not exist.
    PathNotFound,
    /// A failure the native layer left entirely unexplained.
    Unspecified,
}

} // verus!
