use ec2_instance_connect::identity::HypervisorEvidence;
use ec2_instance_connect::pipeline::Action;
use ec2_instance_connect::pipeline::Event;
use ec2_instance_connect::pipeline::MetaResult;
use ec2_instance_connect::pipeline::Pipeline;
use ec2_instance_connect::pipeline::key_request_path;
use ec2_instance_connect::reason::Reason;

fn value(s: &str) -> Event {
    Event::Metadata(MetaResult::Value(s.to_string()))
}

fn clean_evidence() -> Event {
    Event::Evidence(HypervisorEvidence { uuid: None, board_asset_tag: None })
}

fn start(user: &str) -> (Pipeline, Action) {
    Pipeline::new(Some(user.to_string()))
}

#[test]
fn key_path_is_scoped_to_one_user() {
    assert_eq!(key_request_path("bob"), "/managed-ssh-keys/active-keys/bob/");
}

#[test]
fn full_run_authorizes_and_emits_the_keys() {
    let (p, a) = start("alice");
    assert_eq!(a, Action::FetchInstanceId);
    let (p, a) = p.step(value("i-0123456789abcdef"));
    assert_eq!(a, Action::ProbeEvidence);
    let (p, a) = p.step(clean_evidence());
    assert_eq!(a, Action::FetchZone);
    let (p, a) = p.step(value("us-east-1a"));
    assert_eq!(a, Action::FetchDomain);
    let (p, a) = p.step(value("amazonaws.com"));
    assert_eq!(
        a,
        Action::FetchKeys("/managed-ssh-keys/active-keys/alice/".to_string())
    );
    let (_p, a) = p.step(value("ssh-ed25519 AAAAC3Nza example-key"));
    match a {
        Action::Emit(k) => assert_eq!(k.text, "ssh-ed25519 AAAAC3Nza example-key"),
        other => panic!("expected keys to be emitted, got {other:?}"),
    }
}

#[test]
fn missing_user_denies_without_any_fetch() {
    let (_p, a) = Pipeline::new(None);
    assert_eq!(a, Action::Deny(Reason::UnknownUser));
}

#[test]
fn deadline_denies_with_timeout_at_every_stage() {
    let (p, _) = start("alice");
    let (_, a) = p.step(Event::DeadlineExpired);
    assert_eq!(a, Action::Deny(Reason::Timeout));

    let (p, _) = start("alice");
    let (p, _) = p.step(value("i-0123456789abcdef"));
    let (_, a) = p.step(Event::DeadlineExpired);
    assert_eq!(a, Action::Deny(Reason::Timeout));

    let (p, _) = start("alice");
    let (p, _) = p.step(value("i-0123456789abcdef"));
    let (p, _) = p.step(clean_evidence());
    let (_, a) = p.step(Event::DeadlineExpired);
    assert_eq!(a, Action::Deny(Reason::Timeout));

    let (p, _) = start("alice");
    let (p, _) = p.step(value("i-0123456789abcdef"));
    let (p, _) = p.step(clean_evidence());
    let (p, _) = p.step(value("us-east-1a"));
    let (_, a) = p.step(Event::DeadlineExpired);
    assert_eq!(a, Action::Deny(Reason::Timeout));

    let (p, _) = start("alice");
    let (p, _) = p.step(value("i-0123456789abcdef"));
    let (p, _) = p.step(clean_evidence());
    let (p, _) = p.step(value("us-east-1a"));
    let (p, _) = p.step(value("amazonaws.com"));
    let (_, a) = p.step(Event::DeadlineExpired);
    assert_eq!(a, Action::Deny(Reason::Timeout));
}

#[test]
fn deadline_after_completion_changes_nothing() {
    let (p, _) = start("alice");
    let (p, _) = p.step(Event::DeadlineExpired);
    let (_, a) = p.step(Event::DeadlineExpired);
    assert_eq!(a, Action::Finished);
}

#[test]
fn invalid_identity_denies() {
    let (p, _) = start("alice");
    let (_, a) = p.step(value("not-an-instance-id"));
    assert_eq!(a, Action::Deny(Reason::InvalidIdentity));
}

#[test]
fn untrusted_platform_denies() {
    let (p, _) = start("alice");
    let (p, _) = p.step(value("i-0123456789abcdef"));
    let (_, a) = p.step(Event::Evidence(HypervisorEvidence {
        uuid: Some("123e4567-e89b-12d3-a456-426614174000".to_string()),
        board_asset_tag: Some("i-ffffffffffffffff".to_string()),
    }));
    assert_eq!(a, Action::Deny(Reason::UntrustedPlatform));
}

#[test]
fn legacy_platform_is_accepted() {
    let (p, _) = start("alice");
    let (p, _) = p.step(value("i-0123456789abcdef"));
    let (_, a) = p.step(Event::Evidence(HypervisorEvidence {
        uuid: Some("ec2e1916-9099-7caf-fd21-012345abcdef".to_string()),
        board_asset_tag: None,
    }));
    assert_eq!(a, Action::FetchZone);
}

#[test]
fn invalid_zone_denies() {
    let (p, _) = start("alice");
    let (p, _) = p.step(value("i-0123456789abcdef"));
    let (p, _) = p.step(clean_evidence());
    let (_, a) = p.step(value("us-east-1"));
    assert_eq!(a, Action::Deny(Reason::InvalidZone));
}

#[test]
fn untrusted_domain_denies() {
    let (p, _) = start("alice");
    let (p, _) = p.step(value("i-0123456789abcdef"));
    let (p, _) = p.step(clean_evidence());
    let (p, _) = p.step(value("us-east-1a"));
    let (_, a) = p.step(value("evil-amazonaws.com"));
    assert_eq!(a, Action::Deny(Reason::UntrustedDomain));
}

#[test]
fn network_error_denies_at_first_fetch() {
    let (p, _) = start("alice");
    let (_, a) = p.step(Event::Metadata(MetaResult::NetworkError));
    assert_eq!(a, Action::Deny(Reason::NetworkError));
}

#[test]
fn missing_metadata_path_denies_at_key_fetch() {
    let (p, _) = start("alice");
    let (p, _) = p.step(value("i-0123456789abcdef"));
    let (p, _) = p.step(clean_evidence());
    let (p, _) = p.step(value("us-east-1a"));
    let (p, _) = p.step(value("amazonaws.com"));
    let (_, a) = p.step(Event::Metadata(MetaResult::NotFound));
    assert_eq!(a, Action::Deny(Reason::NotFound));
}

fn run_to_end(responses: &[&str]) -> Action {
    let (mut p, mut a) = start("carol");
    for r in responses {
        let ev = if *r == "<evidence>" { clean_evidence() } else { value(r) };
        let (next_p, next_a) = p.step(ev);
        p = next_p;
        a = next_a;
    }
    a
}

#[test]
fn identical_responses_give_identical_outcomes() {
    let responses = [
        "i-0123456789abcdef",
        "<evidence>",
        "us-east-1a",
        "amazonaws.com",
        "ssh-rsa AAAAB3Nza carol-key",
    ];
    let first = run_to_end(&responses);
    let second = run_to_end(&responses);
    assert_eq!(first, second);
    match first {
        Action::Emit(k) => assert_eq!(k.text, "ssh-rsa AAAAB3Nza carol-key"),
        other => panic!("expected keys to be emitted, got {other:?}"),
    }

    let denying = ["i-0123456789abcdef", "<evidence>", "bad zone"];
    let first = run_to_end(&denying);
    let second = run_to_end(&denying);
    assert_eq!(first, second);
    assert_eq!(first, Action::Deny(Reason::InvalidZone));
}
