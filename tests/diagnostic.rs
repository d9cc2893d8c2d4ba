use suppr::checks::{client_program, Check};
use suppr::config::{config_notice, resolve_kubeconfig, ConfigError};
use suppr::outcome::{decode_outcome, CheckOutcome, OutputError, RawOutcome};
use suppr::report::{build_report, decode_findings, render_report, Findings, RawFindings, DEFAULT_VERBOSE};
use suppr::status::{colorize, Marks};

fn plain_marks() -> Marks {
    Marks { pass: String::from("+"), fail: String::from("-") }
}

fn outcome(success: bool, output: &str) -> CheckOutcome {
    CheckOutcome { success, output: String::from(output) }
}

fn raw(success: bool, stdout: &[u8]) -> RawOutcome {
    RawOutcome { success, stdout: stdout.to_vec() }
}

fn all_valid_raw() -> RawFindings {
    RawFindings {
        connectivity: raw(true, b"node-a Ready"),
        node_health: raw(false, b""),
        events: raw(true, b"ev1\nev2"),
        pods: raw(true, b"pod-x Running"),
    }
}

#[test]
fn named_file_takes_precedence_over_home() {
    let r = resolve_kubeconfig(Some("/tmp/foo.conf"), Some("/home/u"));
    assert_eq!(r, Ok(String::from("/tmp/foo.conf")));
}

#[test]
fn named_file_is_passed_to_every_check() {
    for check in Check::all() {
        let args = check.args("/tmp/foo.conf");
        assert_eq!(args[0], "--kubeconfig");
        assert_eq!(args[1], "/tmp/foo.conf");
    }
}

#[test]
fn default_file_below_home() {
    let r = resolve_kubeconfig(None, Some("/home/u"));
    assert_eq!(r, Ok(String::from("/home/u/.kube/config")));
}

#[test]
fn empty_named_file_falls_back_to_home() {
    let r = resolve_kubeconfig(Some(""), Some("/home/u"));
    assert_eq!(r, Ok(String::from("/home/u/.kube/config")));
}

#[test]
fn no_file_and_no_home_is_an_error() {
    assert_eq!(resolve_kubeconfig(None, None), Err(ConfigError::NoHome));
    assert_eq!(resolve_kubeconfig(Some(""), None), Err(ConfigError::NoHome));
}

#[test]
fn notice_names_the_file() {
    assert_eq!(config_notice("/tmp/foo.conf"), "Using kubeconfig: /tmp/foo.conf");
}

#[test]
fn checks_run_in_fixed_order() {
    assert_eq!(
        Check::all(),
        vec![Check::Connectivity, Check::NodeHealth, Check::Events, Check::PodRestarts]
    );
}

#[test]
fn arguments_of_each_check() {
    assert_eq!(client_program(), "kubectl");
    assert_eq!(Check::Connectivity.args("c"), vec!["--kubeconfig", "c", "get", "nodes"]);
    assert_eq!(
        Check::NodeHealth.args("c"),
        vec!["--kubeconfig", "c", "get", "nodes", "|", "grep", "NotReady"]
    );
    assert_eq!(Check::Events.args("c"), vec!["--kubeconfig", "c", "get", "events", "-A"]);
    assert_eq!(Check::PodRestarts.args("c"), vec!["--kubeconfig", "c", "get", "pods", "-A"]);
}

#[test]
fn labels_and_launch_messages() {
    assert_eq!(Check::Connectivity.label(), "Master connectivity check");
    assert_eq!(Check::NodeHealth.label(), "Node health check");
    assert_eq!(Check::Events.label(), "Events");
    assert_eq!(Check::PodRestarts.label(), "Pods");
    assert_eq!(Check::Connectivity.launch_failure(), "Master connectivity failed");
    assert_eq!(Check::PodRestarts.launch_failure(), "Get pods failed");
}

#[test]
fn pass_mark_is_green_check() {
    let m = colorize(true);
    assert!(m == "\u{2713}" || m == "\u{1b}[32m\u{2713}\u{1b}[0m", "{:?}", m);
}

#[test]
fn fail_mark_is_red_cross() {
    let m = colorize(false);
    assert!(m == "\u{2718}" || m == "\u{1b}[31m\u{2718}\u{1b}[0m", "{:?}", m);
}

#[test]
fn marks_differ() {
    let marks = Marks::new();
    assert_ne!(marks.pass, marks.fail);
    assert_eq!(marks.mark(true), marks.pass);
    assert_eq!(marks.mark(false), marks.fail);
}

#[test]
fn report_layout_exact() {
    let f = Findings {
        connectivity: outcome(true, "n1"),
        node_health: outcome(false, "nodes"),
        events: outcome(false, "ev"),
        pods: outcome(false, "pods"),
    };
    let r = render_report(&f, true, &plain_marks());
    assert_eq!(
        r,
        "Kubernetes Diagnostic\n\
         Master connectivity check: +\n\
         Node health check: +\n\
         \nnodes\n\
         Events: +\n\
         ev\n\
         Pods: +\n\
         pods\n"
    );
}

#[test]
fn report_with_failed_connectivity_and_quiet_node_output() {
    let f = Findings {
        connectivity: outcome(false, ""),
        node_health: outcome(false, "hidden"),
        events: outcome(true, ""),
        pods: outcome(true, ""),
    };
    let r = render_report(&f, false, &plain_marks());
    assert_eq!(
        r,
        "Kubernetes Diagnostic\n\
         Master connectivity check: -\n\
         Node health check: +\n\
         Events: +\n\
         \n\
         Pods: +\n\
         \n"
    );
}

#[test]
fn node_output_shown_when_its_invocation_succeeds() {
    let f = Findings {
        connectivity: outcome(true, ""),
        node_health: outcome(true, "bad-node NotReady"),
        events: outcome(true, "e"),
        pods: outcome(true, "p"),
    };
    let r = render_report(&f, false, &plain_marks());
    assert!(r.contains("Node health check: -\n\nbad-node NotReady\n"));
}

#[test]
fn connectivity_mark_follows_invocation() {
    for success in [true, false] {
        let f = Findings {
            connectivity: outcome(success, ""),
            node_health: outcome(true, ""),
            events: outcome(true, ""),
            pods: outcome(true, ""),
        };
        let r = render_report(&f, true, &plain_marks());
        let expected = if success { "Master connectivity check: +\n" } else { "Master connectivity check: -\n" };
        assert!(r.contains(expected));
    }
}

#[test]
fn node_mark_inverts_invocation() {
    for success in [true, false] {
        let f = Findings {
            connectivity: outcome(true, ""),
            node_health: outcome(success, ""),
            events: outcome(true, ""),
            pods: outcome(true, ""),
        };
        let r = render_report(&f, true, &plain_marks());
        let expected = if success { "Node health check: -\n" } else { "Node health check: +\n" };
        assert!(r.contains(expected));
    }
}

#[test]
fn events_and_pods_always_pass() {
    let f = Findings {
        connectivity: outcome(false, ""),
        node_health: outcome(true, ""),
        events: outcome(false, "x"),
        pods: outcome(false, "y"),
    };
    let r = render_report(&f, true, &plain_marks());
    assert!(r.contains("Events: +\n"));
    assert!(r.contains("Pods: +\n"));
    assert!(!r.contains("Events: -"));
    assert!(!r.contains("Pods: -"));
}

#[test]
fn one_status_line_per_check_in_order() {
    let r = build_report(all_valid_raw(), DEFAULT_VERBOSE, &plain_marks()).unwrap();
    let a = r.find("Master connectivity check: ").unwrap();
    let b = r.find("Node health check: ").unwrap();
    let c = r.find("Events: +").unwrap();
    let d = r.find("Pods: ").unwrap();
    assert!(a < b && b < c && c < d);
    assert_eq!(r.matches("Master connectivity check: ").count(), 1);
    assert_eq!(r.matches("Node health check: ").count(), 1);
    assert_eq!(r.matches("Events: ").count(), 1);
    assert_eq!(r.matches("Pods: ").count(), 1);
}

#[test]
fn events_and_pods_output_verbatim() {
    let raw_findings = RawFindings {
        connectivity: raw(true, b""),
        node_health: raw(true, b""),
        events: raw(true, "\u{e9}v\u{e9}nement\n  line two\t".as_bytes()),
        pods: raw(true, "pod \u{2603}\r\nnext".as_bytes()),
    };
    let r = build_report(raw_findings, true, &plain_marks()).unwrap();
    assert!(r.contains("\u{e9}v\u{e9}nement\n  line two\t"));
    assert!(r.contains("pod \u{2603}\r\nnext"));
}

#[test]
fn decode_valid_output() {
    let o = decode_outcome(Check::Events, raw(false, "h\u{e9}llo".as_bytes())).unwrap();
    assert!(!o.success);
    assert_eq!(o.output, "h\u{e9}llo");
}

#[test]
fn decode_invalid_output() {
    let r = decode_outcome(Check::Events, raw(true, &[0x61, 0xff]));
    assert!(matches!(r, Err(OutputError::InvalidText(Check::Events))));
}

#[test]
fn invalid_output_aborts_report() {
    for check in Check::all() {
        let mut rf = all_valid_raw();
        let bad = vec![0xc3u8, 0x28];
        match check {
            Check::Connectivity => rf.connectivity.stdout = bad,
            Check::NodeHealth => rf.node_health.stdout = bad,
            Check::Events => rf.events.stdout = bad,
            Check::PodRestarts => rf.pods.stdout = bad,
        }
        let r = build_report(rf, true, &plain_marks());
        assert_eq!(r, Err(OutputError::InvalidText(check)));
    }
}

#[test]
fn first_invalid_output_is_named() {
    let mut rf = all_valid_raw();
    rf.node_health.stdout = vec![0xff];
    rf.events.stdout = vec![0xfe];
    assert!(matches!(decode_findings(rf), Err(OutputError::InvalidText(Check::NodeHealth))));
}

#[test]
fn error_message_names_the_check() {
    assert_eq!(
        OutputError::InvalidText(Check::PodRestarts).message(),
        "Pods: output is not valid UTF-8"
    );
}

#[test]
fn full_report_with_valid_outputs() {
    let r = build_report(all_valid_raw(), true, &plain_marks()).unwrap();
    assert_eq!(
        r,
        "Kubernetes Diagnostic\n\
         Master connectivity check: +\n\
         Node health check: +\n\
         \n\n\
         Events: +\n\
         ev1\nev2\n\
         Pods: +\n\
         pod-x Running\n"
    );
}
