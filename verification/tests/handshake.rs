use launchpad::command::Command;
use launchpad::igniter::{igniter, start_fallback_command, Attempt, Fallback, Igniter, IgniterPlan};
use launchpad::rendezvous::{
    claim_refusal, probe_resolves_readiness, Claim, Delivery, ProbeOutcome, StartError,
};
use launchpad::reporter::{reporter_exit, server_ready, Lookup};

fn words(list: &[&str]) -> Vec<String> {
    list.iter().map(|w| w.to_string()).collect()
}

fn echo_hi() -> Command {
    Command { program: "echo".to_string(), args: words(&["hi"]) }
}

fn lookup(name: &str, value: Option<&str>) -> Lookup {
    Lookup { name: name.to_string(), value: value.map(|v| v.to_string()) }
}

#[test]
fn instant_ignite_answers_true() {
    assert!(Igniter.instant_ignite());
}

#[test]
fn a_reachable_igniter_settles_readiness() {
    assert!(probe_resolves_readiness(ProbeOutcome::Answered(true)));
    assert!(probe_resolves_readiness(ProbeOutcome::Answered(false)));
    assert!(!probe_resolves_readiness(ProbeOutcome::Unreachable));
}

#[test]
fn refusal_of_each_claim() {
    assert_eq!(claim_refusal(Claim::Granted), None);
    assert_eq!(claim_refusal(Claim::NameInUse), Some(StartError::NameInUse));
    assert_eq!(claim_refusal(Claim::BusUnavailable), Some(StartError::BusUnavailable));
}

#[test]
fn fallback_runner_without_command() {
    assert_eq!(start_fallback_command(None), Fallback::Missing);
}

#[test]
fn fallback_runner_with_empty_command() {
    assert_eq!(start_fallback_command(Some(Vec::new())), Fallback::Empty);
}

#[test]
fn fallback_runner_with_command() {
    assert_eq!(start_fallback_command(Some(words(&["echo", "hi"]))), Fallback::Run(echo_hi()));
    assert_eq!(
        start_fallback_command(Some(words(&["true"]))),
        Fallback::Run(Command { program: "true".to_string(), args: Vec::new() })
    );
}

#[test]
fn igniter_without_coordinator_and_without_fallback() {
    assert_eq!(
        igniter(Attempt::Signalled(Delivery::ProxyUnavailable), None),
        IgniterPlan { fallback: Fallback::Missing, verdict: Ok(()) }
    );
    assert_eq!(
        igniter(Attempt::Signalled(Delivery::InvocationFailed), None),
        IgniterPlan { fallback: Fallback::Missing, verdict: Ok(()) }
    );
}

#[test]
fn igniter_without_coordinator_runs_the_fallback() {
    assert_eq!(
        igniter(Attempt::Signalled(Delivery::ProxyUnavailable), Some(words(&["echo", "hi"]))),
        IgniterPlan { fallback: Fallback::Run(echo_hi()), verdict: Ok(()) }
    );
    assert_eq!(
        igniter(Attempt::Signalled(Delivery::InvocationFailed), Some(words(&["echo", "hi"]))),
        IgniterPlan { fallback: Fallback::Run(echo_hi()), verdict: Ok(()) }
    );
}

#[test]
fn igniter_that_reached_the_coordinator_needs_no_fallback() {
    assert_eq!(
        igniter(Attempt::Signalled(Delivery::Delivered), Some(words(&["echo", "hi"]))),
        IgniterPlan { fallback: Fallback::NotNeeded, verdict: Ok(()) }
    );
    assert_eq!(
        igniter(Attempt::Signalled(Delivery::Delivered), None),
        IgniterPlan { fallback: Fallback::NotNeeded, verdict: Ok(()) }
    );
}

#[test]
fn igniter_whose_name_is_taken_fails_after_the_fallback() {
    assert_eq!(
        igniter(Attempt::Unpublished(StartError::NameInUse), Some(words(&["echo", "hi"]))),
        IgniterPlan { fallback: Fallback::Run(echo_hi()), verdict: Err(StartError::NameInUse) }
    );
    assert_eq!(
        igniter(Attempt::Unpublished(StartError::BusUnavailable), None),
        IgniterPlan { fallback: Fallback::Missing, verdict: Err(StartError::BusUnavailable) }
    );
}

#[test]
fn igniter_with_empty_fallback() {
    assert_eq!(
        igniter(Attempt::Signalled(Delivery::ProxyUnavailable), Some(Vec::new())),
        IgniterPlan { fallback: Fallback::Empty, verdict: Ok(()) }
    );
}

#[test]
fn report_leaves_out_what_was_not_found() {
    let report = server_ready(vec![
        lookup("WAYLAND_DISPLAY", Some("wayland-1")),
        lookup("MISSING", None),
        lookup("DISPLAY", Some(":0")),
    ]);
    assert_eq!(report.len(), 2);
    assert_eq!(report.get(&"WAYLAND_DISPLAY".to_string()), Some(&"wayland-1".to_string()));
    assert_eq!(report.get(&"DISPLAY".to_string()), Some(&":0".to_string()));
    assert_eq!(report.get(&"MISSING".to_string()), None);
    let names: Vec<&str> = report.vars().iter().map(|v| v.name.as_str()).collect();
    assert_eq!(names, vec!["WAYLAND_DISPLAY", "DISPLAY"]);
}

#[test]
fn report_of_no_lookup_is_empty() {
    assert_eq!(server_ready(Vec::new()).len(), 0);
    assert_eq!(server_ready(vec![lookup("A", None), lookup("B", None)]).len(), 0);
}

#[test]
fn report_keeps_the_last_value_found() {
    let report = server_ready(vec![
        lookup("A", Some("1")),
        lookup("B", Some("2")),
        lookup("A", Some("3")),
        lookup("B", None),
    ]);
    assert_eq!(report.len(), 2);
    assert_eq!(report.get(&"A".to_string()), Some(&"3".to_string()));
    assert_eq!(report.get(&"B".to_string()), Some(&"2".to_string()));
}

#[test]
fn report_is_not_filtered_by_the_reporter() {
    let report = server_ready(vec![lookup("SHELL", Some("/bin/sh"))]);
    assert_eq!(report.get(&"SHELL".to_string()), Some(&"/bin/sh".to_string()));
}

#[test]
fn reporter_ends_only_when_delivery_failed() {
    assert_eq!(reporter_exit(Delivery::Delivered), None);
    assert_eq!(reporter_exit(Delivery::ProxyUnavailable), Some(1));
    assert_eq!(reporter_exit(Delivery::InvocationFailed), Some(1));
}
