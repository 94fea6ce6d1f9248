use ec2_instance_connect::domain::Domain;
use ec2_instance_connect::identity::HypervisorEvidence;
use ec2_instance_connect::identity::InstanceIdentity;
use ec2_instance_connect::identity::verify_platform;
use ec2_instance_connect::reason::Reason;
use ec2_instance_connect::signer::SignerIdentity;
use ec2_instance_connect::signer::extract_region;
use ec2_instance_connect::zone::AvailabilityZone;

fn id(s: &str) -> InstanceIdentity {
    InstanceIdentity::parse(s).expect("valid instance id")
}

#[test]
fn instance_id_accepts_hex_shapes() {
    assert!(InstanceIdentity::parse("i-abcdef01").is_ok());
    assert!(InstanceIdentity::parse("i-0123456789abcdef0").is_ok());
    assert!(InstanceIdentity::parse("i-0123456789abcdef0123456789abcdef").is_ok());
    assert_eq!(id("i-abcdef01").as_str(), "i-abcdef01");
}

#[test]
fn instance_id_rejects_wrong_shapes() {
    for s in [
        "",
        "i-",
        "i-abcdef0",
        "i-0123456789abcdef0123456789abcdef0",
        "i-ABCDEF01",
        "j-abcdef01",
        "iXabcdef01",
        "i-abcdefg1",
        "i-abcdef01 ",
        " i-abcdef01",
        "i-abcd-ef01",
    ] {
        assert_eq!(InstanceIdentity::parse(s).err(), Some(Reason::InvalidIdentity), "{s}");
    }
}

#[test]
fn zone_accepts_two_and_three_component_forms() {
    assert!(AvailabilityZone::parse("us-east-1a").is_ok());
    assert!(AvailabilityZone::parse("ap-southeast-2b").is_ok());
    assert!(AvailabilityZone::parse("us-isob-east-1a").is_ok());
    let z = AvailabilityZone::parse("us-east-1a").unwrap();
    assert_eq!(z.as_str(), "us-east-1a");
}

#[test]
fn zone_rejects_wrong_shapes() {
    for s in [
        "",
        "us-east-1",
        "useast-1a",
        "us-east1a",
        "us-east-11a",
        "us-east-a1",
        "US-EAST-1a",
        "us--east-1a",
        "-us-east-1a",
        "us-east-1a-",
        "us-east-1ab",
        "us-a-b-east-1a",
        "us-east-1a ",
    ] {
        assert_eq!(
            AvailabilityZone::parse(s).err(),
            Some(Reason::InvalidZone),
            "{s}"
        );
    }
}

#[test]
fn domain_accepts_exactly_the_four_partitions() {
    for s in ["amazonaws.com", "amazonaws.com.cn", "c2s.ic.gov", "sc2s.sgov.gov"] {
        let d = Domain::parse(s).expect("allowed domain");
        assert_eq!(d.as_str(), s);
    }
}

#[test]
fn domain_rejects_partial_matches() {
    for s in [
        "",
        "evil-amazonaws.com",
        "amazonaws.com.evil",
        "amazonaws",
        "mazonaws.com",
        "amazonaws.co",
        "s3.amazonaws.com",
        "AMAZONAWS.COM",
        "amazonaws.com ",
        " amazonaws.com",
        "c2s.ic.go",
        "sc2s.sgov.gov.x",
    ] {
        assert_eq!(Domain::parse(s).err(), Some(Reason::UntrustedDomain), "{s}");
    }
}

#[test]
fn platform_absent_uuid_accepts_any_board_tag() {
    let ident = id("i-abcdef01");
    let none = HypervisorEvidence { uuid: None, board_asset_tag: None };
    assert!(verify_platform(&none, &ident).is_ok());
    let garbage = HypervisorEvidence {
        uuid: None,
        board_asset_tag: Some("anything at all".to_string()),
    };
    assert!(verify_platform(&garbage, &ident).is_ok());
}

#[test]
fn platform_legacy_marker_accepts_without_board_tag() {
    let ident = id("i-abcdef01");
    let legacy = HypervisorEvidence {
        uuid: Some("ec21d3bc-09a8-7654-3210-fedcba987654".to_string()),
        board_asset_tag: None,
    };
    assert!(verify_platform(&legacy, &ident).is_ok());
    let legacy_mismatched_tag = HypervisorEvidence {
        uuid: Some("ec2something".to_string()),
        board_asset_tag: Some("not-the-instance-id".to_string()),
    };
    assert!(verify_platform(&legacy_mismatched_tag, &ident).is_ok());
}

#[test]
fn platform_modern_uuid_requires_exact_board_tag() {
    let ident = id("i-abcdef01");
    let matching = HypervisorEvidence {
        uuid: Some("123e4567-e89b-12d3-a456-426614174000".to_string()),
        board_asset_tag: Some("i-abcdef01".to_string()),
    };
    assert!(verify_platform(&matching, &ident).is_ok());
    for bad in [None, Some("i-ABCDEF01"), Some("i-abcdef01 "), Some(" i-abcdef01"), Some("")] {
        let e = HypervisorEvidence {
            uuid: Some("123e4567-e89b-12d3-a456-426614174000".to_string()),
            board_asset_tag: bad.map(|s: &str| s.to_string()),
        };
        assert_eq!(verify_platform(&e, &ident), Err(Reason::UntrustedPlatform));
    }
}

#[test]
fn platform_short_uuid_is_not_legacy() {
    let ident = id("i-abcdef01");
    let e = HypervisorEvidence { uuid: Some("ec".to_string()), board_asset_tag: None };
    assert_eq!(verify_platform(&e, &ident), Err(Reason::UntrustedPlatform));
}

#[test]
fn region_extraction_takes_leading_groups_and_digits() {
    assert_eq!(extract_region("us-east-1a").unwrap(), "us-east-1");
    assert_eq!(extract_region("ab-cd-12xyz").unwrap(), "ab-cd-12");
    assert_eq!(extract_region("ab-1").unwrap(), "ab-1");
    assert_eq!(extract_region("a-1b-2c").unwrap(), "a-1");
    assert_eq!(extract_region("us-gov-west-1a").unwrap(), "us-gov-west-1");
}

#[test]
fn region_extraction_rejects_strings_without_a_region() {
    for s in ["", "abc", "ab-", "ab-cd", "ab-cd3", "-ab-1", "1a", "ab--1"] {
        assert_eq!(extract_region(s).err(), Some(Reason::InvalidRegion), "{s}");
    }
}

#[test]
fn signer_joins_prefix_region_and_domain() {
    let zone = AvailabilityZone::parse("us-east-1a").unwrap();
    let domain = Domain::parse("amazonaws.com").unwrap();
    let signer = SignerIdentity::resolve(&zone, &domain);
    assert_eq!(signer.as_str(), "managed-ssh-signer.us-east-1.amazonaws.com");
}

#[test]
fn signer_for_isolated_partition() {
    let zone = AvailabilityZone::parse("us-isob-east-1a").unwrap();
    let domain = Domain::parse("sc2s.sgov.gov").unwrap();
    let signer = SignerIdentity::resolve(&zone, &domain);
    assert_eq!(signer.as_str(), "managed-ssh-signer.us-isob-east-1.sc2s.sgov.gov");
}
