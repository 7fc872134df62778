//! Sequencing of one run: flash, then verify, each gated by an externally
//! supplied confirmation signal.
//!
//! The orchestrator is a one-way phase machine. The surrounding shell
//! performs the I/O of each phase and reports its outcome; the orchestrator
//! decides what comes next and never moves backwards, so a verification can
//! only ever start after a flash has completed and been confirmed. The
//! terminal outcome maps to a process exit code that keeps success, flash
//! failure, read-back failure and digest mismatch apart.

use vstd::prelude::*;
use crate::pipeline::VerificationResult;

verus! {

/// How a run ended.
#[derive(PartialEq, Eq, Structural, Clone, Copy, Debug)]
pub enum Outcome {
    /// Flash completed and the digests matched.
    Success,
    /// The operator declined the flash; nothing was written.
    DeclinedFlash,
    /// The flash completed but the operator declined the verification.
    DeclinedVerify,
    /// The flash ended in an error.
    FlashFailed,
    /// The read-back itself failed; nothing is known about the digests.
    VerifyIo,
    /// The read-back worked and the digests differ.
    Mismatch,
}

/// Where a run stands.
#[derive(PartialEq, Eq, Structural, Clone, Copy, Debug)]
pub enum Phase {
    AwaitingFlashConfirm,
    Flashing,
    AwaitingVerifyConfirm,
    Verifying,
    Done(Outcome),
}

/// Position of a phase on the one-way track of a run.
pub open spec fn phase_rank(p: Phase) -> int {
    match p {
        Phase::AwaitingFlashConfirm => 0,
        Phase::Flashing => 1,
        Phase::AwaitingVerifyConfirm => 2,
        Phase::Verifying => 3,
        Phase::Done(_) => 4,
    }
}

/// The process exit code of an outcome. Aborting at a confirmation gate is
/// not a failure and exits like success.
pub open spec fn spec_exit_code(o: Outcome) -> int {
    match o {
        Outcome::Success => 0,
        Outcome::DeclinedFlash => 0,
        Outcome::DeclinedVerify => 0,
        Outcome::FlashFailed => 1,
        Outcome::VerifyIo => 2,
        Outcome::Mismatch => 3,
    }
}

pub fn exit_code(o: Outcome) -> (r: i32)
    ensures
        r == spec_exit_code(o),
{
    match o {
        Outcome::Success => 0,
        Outcome::DeclinedFlash => 0,
        Outcome::DeclinedVerify => 0,
        Outcome::FlashFailed => 1,
        Outcome::VerifyIo => 2,
        Outcome::Mismatch => 3,
    }
}

/// The four reportable endings — success, flash failure, read-back failure,
/// mismatch — exit with pairwise distinct codes.
pub proof fn lemma_exit_codes_distinguish()
    ensures
        spec_exit_code(Outcome::Success) != spec_exit_code(Outcome::FlashFailed),
        spec_exit_code(Outcome::Success) != spec_exit_code(Outcome::VerifyIo),
        spec_exit_code(Outcome::Success) != spec_exit_code(Outcome::Mismatch),
        spec_exit_code(Outcome::FlashFailed) != spec_exit_code(Outcome::VerifyIo),
        spec_exit_code(Outcome::FlashFailed) != spec_exit_code(Outcome::Mismatch),
        spec_exit_code(Outcome::VerifyIo) != spec_exit_code(Outcome::Mismatch),
{
}

/// Drives one run through its phases.
pub struct Orchestrator {
    phase: Phase,
}

impl Orchestrator {
    pub closed spec fn spec_phase(self) -> Phase {
        self.phase
    }

    /// A run starts waiting for the flash confirmation: the only point, with
    /// the verify gate, at which it can still be abandoned harmlessly.
    pub fn new() -> (r: Orchestrator)
        ensures
            r.spec_phase() == Phase::AwaitingFlashConfirm,
    {
        Orchestrator { phase: Phase::AwaitingFlashConfirm }
    }

    pub fn phase(&self) -> (r: Phase)
        ensures
            r == self.spec_phase(),
    {
        self.phase
    }

    /// The go/no-go signal for the flash. Declining ends the run before any
    /// destructive I/O.
    pub fn confirm_flash(&mut self, proceed: bool)
        requires
            old(self).spec_phase() == Phase::AwaitingFlashConfirm,
        ensures
            final(self).spec_phase() == if proceed {
                Phase::Flashing
            } else {
                Phase::Done(Outcome::DeclinedFlash)
            },
            phase_rank(final(self).spec_phase()) >= phase_rank(old(self).spec_phase()),
    {
        self.phase = if proceed {
            Phase::Flashing
        } else {
            Phase::Done(Outcome::DeclinedFlash)
        };
    }

    /// The flash phase ended. Only a completed flash opens the verify gate;
    /// any failure ends the run.
    pub fn flash_finished(&mut self, completed: bool)
        requires
            old(self).spec_phase() == Phase::Flashing,
        ensures
            final(self).spec_phase() == if completed {
                Phase::AwaitingVerifyConfirm
            } else {
                Phase::Done(Outcome::FlashFailed)
            },
            phase_rank(final(self).spec_phase()) >= phase_rank(old(self).spec_phase()),
    {
        self.phase = if completed {
            Phase::AwaitingVerifyConfirm
        } else {
            Phase::Done(Outcome::FlashFailed)
        };
    }

    /// The go/no-go signal for the verification. This phase is reachable
    /// only through a completed flash, so a verifier never runs against an
    /// unfinished session.
    pub fn confirm_verify(&mut self, proceed: bool)
        requires
            old(self).spec_phase() == Phase::AwaitingVerifyConfirm,
        ensures
            final(self).spec_phase() == if proceed {
                Phase::Verifying
            } else {
                Phase::Done(Outcome::DeclinedVerify)
            },
            phase_rank(final(self).spec_phase()) >= phase_rank(old(self).spec_phase()),
    {
        self.phase = if proceed {
            Phase::Verifying
        } else {
            Phase::Done(Outcome::DeclinedVerify)
        };
    }

    /// The verification pass ended: an I/O failure, or a result whose
    /// `matched` flag decides between success and mismatch.
    pub fn verify_finished(&mut self, result: Option<&VerificationResult>)
        requires
            old(self).spec_phase() == Phase::Verifying,
        ensures
            final(self).spec_phase() == (match result {
                Some(vr) => if vr.matched {
                    Phase::Done(Outcome::Success)
                } else {
                    Phase::Done(Outcome::Mismatch)
                },
                None => Phase::Done(Outcome::VerifyIo),
            }),
            phase_rank(final(self).spec_phase()) >= phase_rank(old(self).spec_phase()),
    {
        self.phase = match result {
            Some(vr) => if vr.matched {
                Phase::Done(Outcome::Success)
            } else {
                Phase::Done(Outcome::Mismatch)
            },
            None => Phase::Done(Outcome::VerifyIo),
        };
    }
}

} // verus!
