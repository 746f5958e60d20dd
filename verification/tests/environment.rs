use launchpad::command::Command;
use launchpad::environment::{filter_env_vars, is_blocked_name, propagation_commands, EnvReport};

fn report(pairs: &[(&str, &str)]) -> EnvReport {
    let mut report = EnvReport::new();
    for (name, value) in pairs {
        report.insert(name.to_string(), value.to_string());
    }
    report
}

fn pairs(report: &EnvReport) -> Vec<(String, String)> {
    report.vars().iter().map(|v| (v.name.clone(), v.value.clone())).collect()
}

fn owned(pairs: &[(&str, &str)]) -> Vec<(String, String)> {
    pairs.iter().map(|(n, v)| (n.to_string(), v.to_string())).collect()
}

#[test]
fn new_report_is_empty() {
    let report = EnvReport::new();
    assert_eq!(report.len(), 0);
    assert!(report.vars().is_empty());
    assert_eq!(report.get(&"FOO".to_string()), None);
}

#[test]
fn insert_binds_in_order_of_first_binding() {
    let report = report(&[("B", "2"), ("A", "1"), ("C", "3")]);
    assert_eq!(report.len(), 3);
    assert_eq!(pairs(&report), owned(&[("B", "2"), ("A", "1"), ("C", "3")]));
    assert_eq!(report.get(&"A".to_string()), Some(&"1".to_string()));
    assert_eq!(report.get(&"D".to_string()), None);
}

#[test]
fn insert_replaces_the_value_of_a_bound_name() {
    let report = report(&[("A", "1"), ("B", "2"), ("A", "3")]);
    assert_eq!(report.len(), 2);
    assert_eq!(pairs(&report), owned(&[("A", "3"), ("B", "2")]));
    assert_eq!(report.get(&"A".to_string()), Some(&"3".to_string()));
}

#[test]
fn with_returns_the_extended_report() {
    let report = EnvReport::new().with("A".to_string(), "1".to_string());
    let report = report.with("A".to_string(), "2".to_string());
    assert_eq!(pairs(&report), owned(&[("A", "2")]));
}

#[test]
fn blocked_names_are_exactly_the_four() {
    for name in ["XAUTHORITY", "_", "SHELL", "SHLVL"] {
        assert!(is_blocked_name(&name.to_string()), "{}", name);
    }
    for name in ["", "FOO", "xauthority", "SHELL ", "__", "SHLVL1", "DISPLAY", "WAYLAND_DISPLAY"] {
        assert!(!is_blocked_name(&name.to_string()), "{}", name);
    }
}

#[test]
fn filter_removes_blocked_names_and_keeps_the_rest() {
    let filtered = filter_env_vars(report(&[("XAUTHORITY", "x"), ("FOO", "bar"), ("SHLVL", "1")]));
    assert_eq!(filtered.len(), 1);
    assert_eq!(pairs(&filtered), owned(&[("FOO", "bar")]));
    assert_eq!(filtered.get(&"FOO".to_string()), Some(&"bar".to_string()));
    assert_eq!(filtered.get(&"XAUTHORITY".to_string()), None);
    assert_eq!(filtered.get(&"SHLVL".to_string()), None);
}

#[test]
fn filter_removes_all_four_blocked_names() {
    let filtered = filter_env_vars(report(&[
        ("_", "/usr/bin/env"),
        ("DISPLAY", ":0"),
        ("SHELL", "/bin/sh"),
        ("XAUTHORITY", "/tmp/x"),
        ("WAYLAND_DISPLAY", "wayland-1"),
        ("SHLVL", "2"),
    ]));
    assert_eq!(pairs(&filtered), owned(&[("DISPLAY", ":0"), ("WAYLAND_DISPLAY", "wayland-1")]));
}

#[test]
fn filter_keeps_order_and_values_unchanged() {
    let input = [("Z", "z=1"), ("A", ""), ("shell", "lower"), ("M", "m m")];
    let filtered = filter_env_vars(report(&input));
    assert_eq!(pairs(&filtered), owned(&input));
}

#[test]
fn filter_of_nothing_is_nothing() {
    assert_eq!(filter_env_vars(EnvReport::new()).len(), 0);
    assert_eq!(filter_env_vars(report(&[("SHELL", "a"), ("_", "b")])).len(), 0);
}

#[test]
fn filter_twice_is_filter_once() {
    let once = filter_env_vars(report(&[("XAUTHORITY", "x"), ("FOO", "bar"), ("BAR", "baz")]));
    let expected = pairs(&once);
    let twice = filter_env_vars(once);
    assert_eq!(pairs(&twice), expected);
}

#[test]
fn propagation_is_one_request_for_each_variable_left() {
    let requests =
        propagation_commands(report(&[("XAUTHORITY", "x"), ("FOO", "bar"), ("SHLVL", "1"), ("A", "b=c")]));
    assert_eq!(
        requests,
        vec![
            Command {
                program: "systemctl".to_string(),
                args: vec![
                    "--user".to_string(),
                    "set-environment".to_string(),
                    "FOO=bar".to_string()
                ],
            },
            Command {
                program: "systemctl".to_string(),
                args: vec![
                    "--user".to_string(),
                    "set-environment".to_string(),
                    "A=b=c".to_string()
                ],
            },
        ]
    );
}

#[test]
fn propagation_of_blocked_names_only_is_empty() {
    assert!(propagation_commands(report(&[("SHELL", "/bin/sh")])).is_empty());
    assert!(propagation_commands(EnvReport::new()).is_empty());
}
