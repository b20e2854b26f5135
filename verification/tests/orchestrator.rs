//! Orchestrator behaviour: registration order, fail-fast, dry-run,
//! and one terminal record per invocation.

use magnet::capability::ScriptedCapability;
use magnet::config::RunConfig;
use magnet::ledger::Ledger;
use magnet::record::{ActionError, Status};
use magnet::runner::Runner;

fn cfg(dry_run: bool) -> RunConfig {
    RunConfig::new(
        String::from("t-0001"),
        dry_run,
        String::from("C:\\Users\\tester\\Documents\\MagnetTelemetry"),
    )
}

fn ok_cap(name: &str) -> ScriptedCapability {
    ScriptedCapability::succeeding(String::from(name), String::from("scripted effect done"))
}

fn bad_cap(name: &str, err: ActionError) -> ScriptedCapability {
    ScriptedCapability::failing(String::from(name), String::from("scripted failure"), err)
}

#[test]
fn second_capability_failure_stops_the_sequence() {
    let mut runner: Runner<ScriptedCapability> = Runner::new(cfg(false));
    runner.register(ok_cap("alpha"));
    runner.register(bad_cap("beta", ActionError::VerificationFailed));
    runner.register(ok_cap("gamma"));

    let mut ledger = Ledger::new();
    let result = runner.run_all(&mut ledger);

    assert_eq!(result, Err(ActionError::VerificationFailed));
    // Exactly two terminal records: the first capability's, flushed
    // before the failure, and the failing capability's own.
    assert_eq!(ledger.len(), 2);
    assert_eq!(ledger.record_at(0).action, "alpha");
    assert_eq!(ledger.record_at(0).status, Status::Completed);
    assert_eq!(ledger.record_at(1).action, "beta");
    assert_eq!(ledger.record_at(1).status, Status::Failed);
}

#[test]
fn capabilities_run_in_registration_order() {
    let mut runner: Runner<ScriptedCapability> = Runner::new(cfg(false));
    runner.register(ok_cap("first"));
    runner.register(ok_cap("second"));
    runner.register(ok_cap("third"));

    let mut ledger = Ledger::new();
    assert!(runner.run_all(&mut ledger).is_ok());
    assert_eq!(ledger.len(), 3);
    assert_eq!(ledger.record_at(0).action, "first");
    assert_eq!(ledger.record_at(1).action, "second");
    assert_eq!(ledger.record_at(2).action, "third");
}

#[test]
fn dry_run_yields_only_dry_run_records_and_succeeds() {
    let mut runner: Runner<ScriptedCapability> = Runner::new(cfg(true));
    runner.register(ok_cap("alpha"));
    runner.register(bad_cap("beta", ActionError::VerificationFailed));
    runner.register(ok_cap("gamma"));

    let mut ledger = Ledger::new();
    let result = runner.run_all(&mut ledger);

    // A dry run never produces a non-zero outcome and never records a
    // status other than dry-run.
    assert!(result.is_ok());
    assert_eq!(ledger.len(), 3);
    for i in 0..ledger.len() {
        assert_eq!(ledger.record_at(i).status, Status::DryRun);
        assert_eq!(ledger.record_at(i).test_id, "t-0001");
    }
}

#[test]
fn every_invocation_appends_exactly_one_record() {
    let mut runner: Runner<ScriptedCapability> = Runner::new(cfg(false));
    runner.register(ok_cap("one"));
    runner.register(ok_cap("two"));

    let mut ledger = Ledger::new();
    assert!(runner.run_all(&mut ledger).is_ok());
    assert_eq!(ledger.len(), 2);

    // A second full run appends again; nothing is overwritten.
    assert!(runner.run_all(&mut ledger).is_ok());
    assert_eq!(ledger.len(), 4);
    assert_eq!(ledger.record_at(0).action, "one");
    assert_eq!(ledger.record_at(2).action, "one");
}

#[test]
fn empty_runner_succeeds_with_no_records() {
    let runner: Runner<ScriptedCapability> = Runner::new(cfg(false));
    let mut ledger = Ledger::new();
    assert!(runner.run_all(&mut ledger).is_ok());
    assert_eq!(ledger.len(), 0);
}

#[test]
fn records_carry_the_run_test_id() {
    let mut runner: Runner<ScriptedCapability> = Runner::new(cfg(false));
    runner.register(ok_cap("only"));
    let mut ledger = Ledger::new();
    assert!(runner.run_all(&mut ledger).is_ok());
    assert_eq!(ledger.record_at(0).test_id, "t-0001");
}

#[test]
fn continue_policy_runs_every_capability_and_reports_failures() {
    let mut runner: Runner<ScriptedCapability> = Runner::new(cfg(false));
    runner.register(ok_cap("alpha"));
    runner.register(bad_cap("beta", ActionError::VerificationFailed));
    runner.register(ok_cap("gamma"));

    let mut ledger = Ledger::new();
    let failures = runner.run_to_completion(&mut ledger);

    // Under the continue-on-error policy the third capability still
    // runs, and the one failure is reported at the end.
    assert_eq!(ledger.len(), 3);
    assert_eq!(ledger.record_at(2).action, "gamma");
    assert_eq!(ledger.record_at(2).status, Status::Completed);
    assert_eq!(failures, vec![ActionError::VerificationFailed]);
}

#[test]
fn error_messages_name_their_cause() {
    assert_eq!(
        ActionError::VerificationFailed.message(),
        "verification failed"
    );
    assert_eq!(
        ActionError::PathUnresolved.message(),
        "required path could not be resolved"
    );
    assert_eq!(
        ActionError::EffectFailed(String::from("boom")).message(),
        "boom"
    );
}

#[test]
fn status_text_is_stable() {
    assert_eq!(Status::DryRun.as_str(), "dry-run");
    assert_eq!(Status::Completed.as_str(), "completed");
    assert_eq!(Status::Written.as_str(), "written");
    assert_eq!(Status::Partial.as_str(), "partial");
    assert_eq!(Status::Failed.as_str(), "failed");
    assert_eq!(Status::Blocked.as_str(), "blocked");
}
