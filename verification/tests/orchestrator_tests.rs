use isoflash::orchestrator::{exit_code, Orchestrator, Outcome, Phase};
use isoflash::pipeline::VerificationResult;
use isoflash::digest::DigestState;

fn some_result(matched: bool) -> VerificationResult {
    let d = DigestState::new().finish();
    VerificationResult { matched, source_digest: d, device_digest: d }
}

#[test]
fn happy_path_reaches_success() {
    let mut orch = Orchestrator::new();
    assert_eq!(orch.phase(), Phase::AwaitingFlashConfirm);
    orch.confirm_flash(true);
    assert_eq!(orch.phase(), Phase::Flashing);
    orch.flash_finished(true);
    assert_eq!(orch.phase(), Phase::AwaitingVerifyConfirm);
    orch.confirm_verify(true);
    assert_eq!(orch.phase(), Phase::Verifying);
    let vr = some_result(true);
    orch.verify_finished(Some(&vr));
    assert_eq!(orch.phase(), Phase::Done(Outcome::Success));
}

#[test]
fn declining_the_flash_ends_the_run() {
    let mut orch = Orchestrator::new();
    orch.confirm_flash(false);
    assert_eq!(orch.phase(), Phase::Done(Outcome::DeclinedFlash));
}

#[test]
fn failed_flash_ends_the_run() {
    let mut orch = Orchestrator::new();
    orch.confirm_flash(true);
    orch.flash_finished(false);
    assert_eq!(orch.phase(), Phase::Done(Outcome::FlashFailed));
}

#[test]
fn declining_the_verification_ends_the_run() {
    let mut orch = Orchestrator::new();
    orch.confirm_flash(true);
    orch.flash_finished(true);
    orch.confirm_verify(false);
    assert_eq!(orch.phase(), Phase::Done(Outcome::DeclinedVerify));
}

#[test]
fn read_back_failure_and_mismatch_are_kept_apart() {
    let mut orch = Orchestrator::new();
    orch.confirm_flash(true);
    orch.flash_finished(true);
    orch.confirm_verify(true);
    orch.verify_finished(None);
    assert_eq!(orch.phase(), Phase::Done(Outcome::VerifyIo));

    let mut orch = Orchestrator::new();
    orch.confirm_flash(true);
    orch.flash_finished(true);
    orch.confirm_verify(true);
    let vr = some_result(false);
    orch.verify_finished(Some(&vr));
    assert_eq!(orch.phase(), Phase::Done(Outcome::Mismatch));
}

#[test]
fn exit_codes_distinguish_the_reportable_endings() {
    assert_eq!(exit_code(Outcome::Success), 0);
    assert_eq!(exit_code(Outcome::DeclinedFlash), 0);
    assert_eq!(exit_code(Outcome::DeclinedVerify), 0);
    assert_eq!(exit_code(Outcome::FlashFailed), 1);
    assert_eq!(exit_code(Outcome::VerifyIo), 2);
    assert_eq!(exit_code(Outcome::Mismatch), 3);
}
