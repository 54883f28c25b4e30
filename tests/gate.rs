use federation_gate::gate::{check, check_host, needs_policy, TrustError, TrustMode};
use federation_gate::policy::{DenialReason, PolicySnapshot, TrustDecision};

fn snapshot(enabled: bool, allowed: &[&str], blocked: &[&str]) -> PolicySnapshot {
    PolicySnapshot::new(
        enabled,
        allowed.iter().map(|s| s.to_string()).collect(),
        blocked.iter().map(|s| s.to_string()).collect(),
    )
}

#[test]
fn strict_scenario_with_allowlist() {
    let s = snapshot(true, &["trusted.example"], &[]);
    assert_eq!(
        check("https://other.example/obj", TrustMode::Strict, "home.example", &s),
        Ok(TrustDecision::Denied(DenialReason::DomainNotAllowlisted))
    );
    assert_eq!(
        check("https://home.example/obj", TrustMode::Strict, "home.example", &s),
        Ok(TrustDecision::Allowed)
    );
    assert_eq!(
        check("https://trusted.example/obj", TrustMode::Strict, "home.example", &s),
        Ok(TrustDecision::Allowed)
    );
}

#[test]
fn local_identifiers_are_always_trusted() {
    let lists = snapshot(true, &["trusted.example"], &["home.example"]);
    let off = snapshot(false, &[], &[]);
    for mode in [TrustMode::Lenient, TrustMode::Strict] {
        assert_eq!(check("https://home.example/u/me", mode, "home.example", &lists), Ok(TrustDecision::Allowed));
        assert_eq!(check("https://home.example/u/me", mode, "home.example", &off), Ok(TrustDecision::Allowed));
    }
}

#[test]
fn lenient_mode_is_the_policy_decision() {
    let s = snapshot(true, &[], &["evil.example"]);
    assert_eq!(
        check("https://evil.example/a", TrustMode::Lenient, "home.example", &s),
        Ok(TrustDecision::Denied(DenialReason::DomainBlocked))
    );
    assert_eq!(check("https://good.example/a", TrustMode::Lenient, "home.example", &s), Ok(TrustDecision::Allowed));
    let off = snapshot(false, &[], &[]);
    assert_eq!(
        check("https://good.example/a", TrustMode::Strict, "home.example", &off),
        Ok(TrustDecision::Denied(DenialReason::FederationDisabled))
    );
}

#[test]
fn gate_reports_a_missing_host() {
    let s = snapshot(true, &[], &[]);
    assert_eq!(check("relative/path", TrustMode::Strict, "home.example", &s), Err(TrustError::MissingHost));
    assert_eq!(needs_policy("relative/path", "home.example"), Err(TrustError::MissingHost));
}

#[test]
fn policy_is_needed_only_for_remote_hosts() {
    assert_eq!(needs_policy("https://home.example/x", "home.example"), Ok(false));
    assert_eq!(needs_policy("https://peer.example/x", "home.example"), Ok(true));
}

#[test]
fn check_host_in_strict_mode() {
    let s = snapshot(true, &["a.example"], &[]);
    let home = "home.example".to_string();
    assert_eq!(check_host(&home, TrustMode::Strict, &home, &s), TrustDecision::Allowed);
    assert_eq!(
        check_host(&"b.example".to_string(), TrustMode::Strict, &home, &s),
        TrustDecision::Denied(DenialReason::DomainNotAllowlisted)
    );
}
