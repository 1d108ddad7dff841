//! The enroll driving loop as an explicit state machine.
//!
//! Enrollment needs several scan stages; the native layer holds the stage
//! state inside the device handle.  Instead of a coroutine, the wrapper
//! offers a session object with a single `step` operation: each step
//! performs the bookkeeping for exactly one blocking native scan and
//! either yields an intermediate outcome back to the caller or completes
//! the session with a finished template or a terminal error.

use vstd::prelude::*;

use crate::device::enroll_stage_next;
use crate::device::Device;
use crate::device::DeviceView;
use crate::device::EnrollResult;
use crate::errors::FPrintError;
use crate::errors::NullPtrContext;
use crate::image::Image;
use crate::print_data::PrintData;

verus! {

/// What one step of the enroll loop hands back.
#[derive(Debug)]
pub enum EnrollStep {
    /// An intermediate outcome; the caller informs the user and drives
    /// the next step.
    Yielded(EnrollResult),
    /// The loop is over: either the finished template or the terminal
    /// error.
    Done(Result<PrintData, FPrintError>),
}

/// A suspended enrollment being driven step by step over one device.
pub struct EnrollSession {
    finished: bool,
}

impl EnrollSession {
    /// Whether the session has completed and must not be stepped again.
    pub closed spec fn spec_finished(&self) -> bool {
        self.finished
    }

    /// A fresh session, ready to drive a new enrollment.
    pub fn new() -> (r: EnrollSession)
        ensures
            !r.spec_finished(),
    {
        EnrollSession { finished: false }
    }

    /// Whether the session has completed.
    pub fn is_finished(&self) -> (r: bool)
        ensures
            r == self.spec_finished(),
    {
        self.finished
    }

    /// Drives one enroll stage.  The raw code the blocking native scan
    /// reported, with the template and frame it produced, advance the
    /// device exactly one transition; a pass, a failed stage or a retry
    /// is yielded to the caller, while completion, an abort or an unknown
    /// code ends the session.  A completing scan that hands back no
    /// template is an invariant violation - success reported beside a
    /// null handle - and classified as the null-handle failure, never as
    /// a usable-looking empty template.
    pub fn step(&mut self, dev: &mut Device, code: i32, data: PrintData, image: Option<Image>) -> (r:
        EnrollStep)
        requires
            !old(self).spec_finished(),
            old(dev).wf(),
        ensures
            final(dev).wf(),
            final(dev)@ == (DeviceView {
                enroll_stage: enroll_stage_next(
                    old(dev)@.nr_enroll_stages as int,
                    old(dev)@.enroll_stage,
                    code as int,
                ),
                ..old(dev)@
            }),
            final(self).spec_finished() == (r is Done),
            code < 0 ==> (r matches EnrollStep::Done(res) && res matches Err(e) && e
                == FPrintError::UnexpectedAbort(code)),
            code == 1 && data@.data.len() > 0 ==> (r matches EnrollStep::Done(res) && res matches Ok(
                p,
            ) && p == data),
            code == 1 && data@.data.len() == 0 ==> (r matches EnrollStep::Done(res) && res matches Err(
                e,
            ) && e == FPrintError::NullHandle(NullPtrContext::EnrollComplete)),
            code == 2 ==> (r matches EnrollStep::Yielded(e) && e is Fail),
            code == 3 ==> (r matches EnrollStep::Yielded(e) && e matches EnrollResult::Pass(img)
                && img == image),
            code == 100 ==> (r matches EnrollStep::Yielded(e) && e is Retry),
            code == 101 ==> (r matches EnrollStep::Yielded(e) && e is RetryTooShort),
            code == 102 ==> (r matches EnrollStep::Yielded(e) && e is RetryCenterFinger),
            code == 103 ==> (r matches EnrollStep::Yielded(e) && e is RetryRemoveFinger),
            code >= 0 && !EnrollResult::known_code(code as u32) ==> (r matches EnrollStep::Done(res)
                && res matches Err(e) && e == FPrintError::InvalidEnumValue(code as u32)),
    {
        let result = dev.enroll_finger_image(code, data, image);
        match result {
            Ok(outcome) => match outcome {
                EnrollResult::Complete(p, _) => {
                    self.finished = true;
                    if p.data_len() == 0 {
                        EnrollStep::Done(Err(FPrintError::NullHandle(NullPtrContext::EnrollComplete)))
                    } else {
                        EnrollStep::Done(Ok(p))
                    }
                },
                other => EnrollStep::Yielded(other),
            },
            Err(error) => {
                self.finished = true;
                EnrollStep::Done(Err(error))
            },
        }
    }
}

impl Device {
    /// Begins a fresh enrollment over this device: the returned session
    /// is driven by calling `step` once per scan until it completes.
    pub fn enroll(&self) -> (r: EnrollSession)
        ensures
            !r.spec_finished(),
    {
        EnrollSession::new()
    }
}

/// The native enrollment stage after a whole run of scan outcomes,
/// applied in order on a device with `n` stages.
pub open spec fn stage_after_run(n: int, stage: int, codes: Seq<int>) -> int
    decreases codes.len(),
{
    if codes.len() == 0 {
        stage
    } else {
        stage_after_run(n, enroll_stage_next(n, stage, codes[0]), codes.skip(1))
    }
}

/// Law: on a device with `n` stages, a run of passing scans advances the
/// enrollment stage by exactly one per scan as long as it stays below
/// the final stage.
pub proof fn lemma_enroll_pass_run(n: int, stage: int, codes: Seq<int>)
    requires
        n >= 1,
        0 <= stage,
        stage + codes.len() <= n - 1,
        forall|j: int| 0 <= j < codes.len() ==> codes[j] == 3,
    ensures
        stage_after_run(n, stage, codes) == stage + codes.len(),
    decreases codes.len(),
{
    if codes.len() > 0 {
        assert(codes[0] == 3);
        assert(enroll_stage_next(n, stage, 3) == stage + 1);
        assert(forall|j: int|
            0 <= j < codes.skip(1).len() ==> codes.skip(1)[j] == codes[j + 1] && codes[j + 1] == 3);
        lemma_enroll_pass_run(n, stage + 1, codes.skip(1));
    }
}

/// Law: driving a fresh enrollment on a device with `n` stages through
/// `n - 1` passing scans leaves the device at its final stage, one yield
/// per pass, and the completing scan that follows both finishes the run
/// and resets the device for the next enrollment; so such a run gives
/// exactly `n - 1` intermediate stage-passed notifications and exactly
/// one finished template.
pub proof fn lemma_enroll_stage_sequencing(n: int, codes: Seq<int>)
    requires
        n >= 1,
        codes.len() == n - 1,
        forall|j: int| 0 <= j < codes.len() ==> codes[j] == 3,
    ensures
        stage_after_run(n, 0, codes) == n - 1,
        enroll_stage_next(n, stage_after_run(n, 0, codes), 1) == 0,
{
    lemma_enroll_pass_run(n, 0, codes);
}

/// Law: a failed stage or an unexpected abort resets the native
/// enrollment state; whatever stage had been reached, every run after
/// the abort transitions exactly as it would on a freshly opened device.
pub proof fn lemma_enroll_abort_resets(n: int, stage: int, abort_code: int, codes: Seq<int>)
    requires
        abort_code < 0 || abort_code == 2,
    ensures
        stage_after_run(n, enroll_stage_next(n, stage, abort_code), codes) == stage_after_run(
            n,
            0,
            codes,
        ),
{
    assert(enroll_stage_next(n, stage, abort_code) == 0);
}

} // verus!
