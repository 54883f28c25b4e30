use federation_gate::gate::{decide, remote_host, TrustError};
use federation_gate::policy::{decide_host, is_normalized_host, DenialReason, PolicySnapshot, TrustDecision};

fn strings(items: &[&str]) -> Vec<String> {
    items.iter().map(|s| s.to_string()).collect()
}

fn snapshot(enabled: bool, allowed: &[&str], blocked: &[&str]) -> PolicySnapshot {
    PolicySnapshot::new(enabled, strings(allowed), strings(blocked))
}

#[test]
fn disabled_federation_denies_whatever_the_lists() {
    let cases = [
        snapshot(false, &[], &[]),
        snapshot(false, &["a.example"], &[]),
        snapshot(false, &[], &["a.example"]),
        snapshot(false, &["a.example"], &["a.example"]),
    ];
    for s in cases.iter() {
        assert_eq!(
            decide("https://a.example/u/1", s),
            Ok(TrustDecision::Denied(DenialReason::FederationDisabled))
        );
    }
}

#[test]
fn blocklist_wins_over_allowlist() {
    let s = snapshot(true, &["both.example", "x.example"], &["both.example"]);
    assert_eq!(
        decide("https://both.example/c/main", &s),
        Ok(TrustDecision::Denied(DenialReason::DomainBlocked))
    );
}

#[test]
fn empty_allowlist_allows_unblocked_hosts() {
    let s = snapshot(true, &[], &["evil.example"]);
    assert_eq!(decide("https://fine.example/u/2", &s), Ok(TrustDecision::Allowed));
}

#[test]
fn active_allowlist_refuses_unlisted_hosts() {
    let s = snapshot(true, &["trusted.example"], &[]);
    assert_eq!(
        decide("https://other.example/u/2", &s),
        Ok(TrustDecision::Denied(DenialReason::DomainNotAllowlisted))
    );
    assert_eq!(decide("https://trusted.example/u/2", &s), Ok(TrustDecision::Allowed));
}

#[test]
fn blocked_and_unblocked_scenario() {
    let s = snapshot(true, &[], &["evil.example"]);
    assert_eq!(
        decide("https://evil.example/actor/1", &s),
        Ok(TrustDecision::Denied(DenialReason::DomainBlocked))
    );
    assert_eq!(decide("https://good.example/actor/1", &s), Ok(TrustDecision::Allowed));
}

#[test]
fn host_is_extracted_and_normalised_by_url_parsing() {
    let s = snapshot(true, &[], &["evil.example"]);
    assert_eq!(
        decide("https://EVIL.example:8443/actor/1?x=1", &s),
        Ok(TrustDecision::Denied(DenialReason::DomainBlocked))
    );
    assert_eq!(remote_host("https://Peer.Example:443/a"), Ok("peer.example".to_string()));
}

#[test]
fn identifier_without_host_is_an_error() {
    let s = snapshot(true, &[], &[]);
    assert_eq!(decide("not a url", &s), Err(TrustError::MissingHost));
    assert_eq!(decide("mailto:someone@example.com", &s), Err(TrustError::MissingHost));
    assert_eq!(decide("", &s), Err(TrustError::MissingHost));
}

#[test]
fn decide_host_follows_the_order_of_rules() {
    let s = snapshot(true, &["a.example"], &["b.example"]);
    assert_eq!(decide_host(&"a.example".to_string(), &s), TrustDecision::Allowed);
    assert_eq!(
        decide_host(&"b.example".to_string(), &s),
        TrustDecision::Denied(DenialReason::DomainBlocked)
    );
    assert_eq!(
        decide_host(&"c.example".to_string(), &s),
        TrustDecision::Denied(DenialReason::DomainNotAllowlisted)
    );
}

#[test]
fn missing_site_record_means_enabled_and_unrestricted() {
    let s = PolicySnapshot::from_store(None, vec![], vec![]);
    assert!(s.is_federation_enabled());
    assert!(!s.has_allowlist());
    assert_eq!(decide("https://any.example/x", &s), Ok(TrustDecision::Allowed));
    let off = PolicySnapshot::from_store(Some(false), vec![], vec![]);
    assert!(!off.is_federation_enabled());
    let u = PolicySnapshot::unconfigured();
    assert!(u.is_federation_enabled());
    assert!(u.allowlist().is_empty() && u.blocklist().is_empty());
}

#[test]
fn duplicate_keeps_every_list() {
    let s = snapshot(false, &["a.example"], &["b.example", "c.example"]);
    let d = s.duplicate();
    assert_eq!(d.is_federation_enabled(), false);
    assert_eq!(d.allowlist(), &strings(&["a.example"]));
    assert_eq!(d.blocklist(), &strings(&["b.example", "c.example"]));
    assert!(d.is_blocked(&"c.example".to_string()));
    assert!(d.is_allowlisted(&"a.example".to_string()));
}

#[test]
fn each_denial_has_a_stable_message() {
    assert_eq!(DenialReason::FederationDisabled.message(), "Federation disabled");
    assert_eq!(DenialReason::DomainBlocked.message(), "Domain is blocked");
    assert_eq!(DenialReason::DomainNotAllowlisted.message(), "Domain is not in allowlist");
}

#[test]
fn host_names_must_be_lower_case_without_scheme_or_port() {
    assert!(is_normalized_host(&"peer.example".to_string()));
    assert!(is_normalized_host(&"".to_string()));
    assert!(!is_normalized_host(&"Peer.example".to_string()));
    assert!(!is_normalized_host(&"peer.example:8080".to_string()));
    assert!(!is_normalized_host(&"https://peer.example".to_string()));
}

#[test]
fn checked_snapshot_refuses_unnormalised_domains() {
    assert!(PolicySnapshot::try_new(true, strings(&["a.example"]), strings(&["b.example"])).is_some());
    assert!(PolicySnapshot::try_new(true, strings(&["A.example"]), vec![]).is_none());
    assert!(PolicySnapshot::try_new(true, vec![], strings(&["b.example:443"])).is_none());
    let s = PolicySnapshot::try_new(true, vec![], strings(&["b.example"])).unwrap();
    assert_eq!(
        decide("https://b.example/x", &s),
        Ok(TrustDecision::Denied(DenialReason::DomainBlocked))
    );
}
