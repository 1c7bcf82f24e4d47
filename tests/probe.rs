use ssh_keyonly::host_key::{HostKeyPolicy, TrustAll};
use ssh_keyonly::method::AuthMethod;
use ssh_keyonly::outcome::{exit_code, ProbeOutcome, WeakMethods};
use ssh_keyonly::probe::{
    interpret_response, AuthResponse, Probe, ProbeAction, ProbeEvent, ProbeStage,
    INACTIVITY_TIMEOUT_SECS,
};
use ssh_keyonly::verbosity::log_filter;

/// Drives a run up to the point where the keyboard-interactive request is sent.
fn connected_probe(user: &str) -> Probe {
    let mut p = Probe::new(user.to_string());
    assert!(matches!(p.step(ProbeEvent::Start), ProbeAction::OpenTransport));
    match p.step(ProbeEvent::TransportUp) {
        ProbeAction::StartKeyboardInteractive { user: u } => assert_eq!(u, user),
        _ => panic!("expected a keyboard-interactive request"),
    }
    assert_eq!(p.stage(), ProbeStage::AuthAttemptSent);
    p
}

fn reply(p: &mut Probe, resp: AuthResponse) -> ProbeOutcome {
    match p.step(ProbeEvent::AuthReply(resp)) {
        ProbeAction::Report(o) => {
            assert_eq!(p.outcome(), Some(o));
            o
        }
        _ => panic!("expected a report"),
    }
}

fn weak_labels(o: ProbeOutcome) -> Vec<&'static str> {
    match o {
        ProbeOutcome::Finding(w) => w.methods().iter().map(|m| m.label()).collect(),
        _ => vec![],
    }
}

#[test]
fn scenario_public_key_only() {
    let mut p = connected_probe("root");
    let o = reply(&mut p, AuthResponse::Failure { remaining_methods: vec![AuthMethod::PublicKey] });
    assert_eq!(o, ProbeOutcome::Compliant);
    assert_eq!(exit_code(o), 0);
}

#[test]
fn scenario_password_offered() {
    let mut p = connected_probe("root");
    let o = reply(
        &mut p,
        AuthResponse::Failure { remaining_methods: vec![AuthMethod::PublicKey, AuthMethod::Password] },
    );
    assert_eq!(
        o,
        ProbeOutcome::Finding(WeakMethods {
            anonymous: false,
            password: true,
            host_based: false,
            keyboard_interactive: false
        })
    );
    assert_ne!(exit_code(o), 0);
    assert_eq!(weak_labels(o), vec!["Password"]);
}

#[test]
fn scenario_none_and_host_based_offered() {
    let mut p = connected_probe("admin");
    let o = reply(
        &mut p,
        AuthResponse::Failure { remaining_methods: vec![AuthMethod::Anonymous, AuthMethod::HostBased] },
    );
    assert_eq!(
        o,
        ProbeOutcome::Finding(WeakMethods {
            anonymous: true,
            password: false,
            host_based: true,
            keyboard_interactive: false
        })
    );
    assert_ne!(exit_code(o), 0);
    assert_eq!(weak_labels(o), vec!["None", "HostBased"]);
}

#[test]
fn scenario_granted_without_authentication() {
    for user in ["root", "nobody", ""] {
        let mut p = connected_probe(user);
        let o = reply(&mut p, AuthResponse::Success);
        assert_eq!(o, ProbeOutcome::UnexpectedGrant);
        assert_ne!(exit_code(o), 0);
        assert!(!p.expects(&ProbeEvent::AuthReply(AuthResponse::InfoRequest)));
    }
}

#[test]
fn scenario_transport_timeout() {
    let mut p = Probe::new("root".to_string());
    assert!(matches!(p.step(ProbeEvent::Start), ProbeAction::OpenTransport));
    assert_eq!(p.stage(), ProbeStage::Connecting);
    match p.step(ProbeEvent::TransportFailed) {
        ProbeAction::Report(o) => {
            assert_eq!(o, ProbeOutcome::ConnectionError);
            assert_ne!(exit_code(o), 0);
        }
        _ => panic!("expected a report"),
    }
    assert_eq!(p.outcome(), Some(ProbeOutcome::ConnectionError));
    assert_eq!(INACTIVITY_TIMEOUT_SECS, 25);
}

#[test]
fn challenge_is_fatal_and_ends_the_run() {
    let mut p = connected_probe("root");
    let o = reply(&mut p, AuthResponse::InfoRequest);
    assert_eq!(o, ProbeOutcome::ChallengeAccepted);
    assert_ne!(exit_code(o), 0);
    assert_eq!(p.stage(), ProbeStage::Finished(ProbeOutcome::ChallengeAccepted));
    assert!(!p.expects(&ProbeEvent::AuthReply(AuthResponse::InfoRequest)));
    assert!(!p.expects(&ProbeEvent::TransportUp));
}

#[test]
fn events_are_expected_only_in_their_stage() {
    let p = Probe::new("root".to_string());
    assert_eq!(p.stage(), ProbeStage::Idle);
    assert_eq!(p.outcome(), None);
    assert!(p.expects(&ProbeEvent::Start));
    assert!(!p.expects(&ProbeEvent::TransportUp));
    assert!(!p.expects(&ProbeEvent::AuthReply(AuthResponse::Success)));
}

#[test]
fn interpret_response_covers_each_answer() {
    assert_eq!(interpret_response(&AuthResponse::Success), ProbeOutcome::UnexpectedGrant);
    assert_eq!(interpret_response(&AuthResponse::InfoRequest), ProbeOutcome::ChallengeAccepted);
    assert_eq!(
        interpret_response(&AuthResponse::Failure { remaining_methods: vec![] }),
        ProbeOutcome::Compliant
    );
    assert_eq!(
        interpret_response(&AuthResponse::Failure {
            remaining_methods: vec![AuthMethod::KeyboardInteractive]
        }),
        ProbeOutcome::Finding(WeakMethods {
            anonymous: false,
            password: false,
            host_based: false,
            keyboard_interactive: true
        })
    );
}

#[test]
fn trust_all_accepts_every_key() {
    let policy = TrustAll;
    assert!(policy.check_server_key(&vec![1u8, 2, 3]));
    assert!(policy.check_server_key(&"any identity"));
    assert!(policy.check_server_key(&vec![1u8, 2, 3]));
}

#[test]
fn verbosity_maps_to_filters() {
    assert_eq!(log_filter(0, 0), "warn,ssh_keyonly=info");
    assert_eq!(log_filter(1, 0), "warn");
    assert_eq!(log_filter(2, 0), "error");
    assert_eq!(log_filter(5, 1), "info,ssh_keyonly=debug");
    assert_eq!(log_filter(0, 2), "debug");
    assert_eq!(log_filter(1, 3), "debug,ssh_keyonly=trace");
    assert_eq!(log_filter(0, 4), "trace");
    assert_eq!(log_filter(255, 255), "trace");
}

#[test]
fn transport_failure_while_awaiting_reply_is_a_connection_error() {
    let mut p = connected_probe("root");
    assert!(p.expects(&ProbeEvent::TransportFailed));
    match p.step(ProbeEvent::TransportFailed) {
        ProbeAction::Report(o) => assert_eq!(o, ProbeOutcome::ConnectionError),
        _ => panic!("expected a report"),
    }
    assert_eq!(p.outcome(), Some(ProbeOutcome::ConnectionError));
}
