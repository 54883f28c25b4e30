//! The trust gate: extracts the host of a remote identifier and applies the
//! policy to it, leniently or strictly, with local identifiers always trusted.

use vstd::prelude::*;
use crate::policy::{decide_host, decision_for, DenialReason, PolicySnapshot, PolicyView, TrustDecision};

verus! {

/// The host component of a URL string as the `url` crate parses it: `None`
/// where the string is no absolute URL or the URL has no host.
pub uninterp spec fn host_in(url: Seq<char>) -> Option<Seq<char>>;

pub open spec fn opt_string_view(o: Option<String>) -> Option<Seq<char>> {
    match o {
        Some(s) => Some(s@),
        None => None,
    }
}

/// Relies on `url::Url::parse` and `url::Url::host_str`: the host of the
/// parsed URL, a function of the input text alone.
#[verifier::external_body]
fn parse_host(remote_url: &str) -> (r: Option<String>)
    ensures
        opt_string_view(r) == host_in(remote_url@),
{
    url::Url::parse(remote_url).ok().and_then(|u| u.host_str().map(|h| h.to_string()))
}

/// A remote identifier that cannot be evaluated: distinct from any denial.
#[derive(Clone, Copy, Debug, PartialEq, Eq, Structural)]
pub enum TrustError {
    /// The identifier is no absolute URL with a host.
    MissingHost,
}

/// Which check an exchange asks for.
#[derive(Clone, Copy, Debug, PartialEq, Eq, Structural)]
pub enum TrustMode {
    /// General activity exchange: the policy decision alone.
    Lenient,
    /// Community-scoped exchange: an active allowlist must name the host,
    /// where the local host counts as always named.
    Strict,
}

/// The trust decision for a host, given the local host name.
pub open spec fn gate_decision(host: Seq<char>, mode: TrustMode, local: Seq<char>, p: PolicyView) -> TrustDecision {
    if host == local {
        TrustDecision::Allowed
    } else {
        let d = decision_for(host, p);
        if mode == TrustMode::Strict && d == TrustDecision::Allowed && p.allowed != Set::<Seq<char>>::empty()
            && !p.allowed.contains(host) && host != local {
            TrustDecision::Denied(DenialReason::DomainNotAllowlisted)
        } else {
            d
        }
    }
}

/// The host of a remote identifier, or the error that it has none.
pub fn remote_host(remote_url: &str) -> (r: Result<String, TrustError>)
    ensures
        match host_in(remote_url@) {
            Some(h) => r matches Ok(s) && s@ == h,
            None => r == Err::<String, TrustError>(TrustError::MissingHost),
        },
{
    match parse_host(remote_url) {
        Some(h) => Ok(h),
        None => Err(TrustError::MissingHost),
    }
}

/// The lenient decision for a remote identifier under a snapshot. No I/O.
pub fn decide(remote_url: &str, snapshot: &PolicySnapshot) -> (r: Result<TrustDecision, TrustError>)
    ensures
        r == match host_in(remote_url@) {
            Some(h) => Ok(decision_for(h, snapshot@)),
            None => Err(TrustError::MissingHost),
        },
{
    let host = remote_host(remote_url)?;
    Ok(decide_host(&host, snapshot))
}

/// The trust decision for a host already extracted from an identifier.
pub fn check_host(host: &String, mode: TrustMode, local_hostname: &String, snapshot: &PolicySnapshot) -> (r: TrustDecision)
    ensures
        r == gate_decision(host@, mode, local_hostname@, snapshot@),
{
    if *host == *local_hostname {
        return TrustDecision::Allowed;
    }
    let d = decide_host(host, snapshot);
    match mode {
        TrustMode::Strict => {
            if d == TrustDecision::Allowed && snapshot.has_allowlist() && !snapshot.is_allowlisted(host)
                && *host != *local_hostname {
                TrustDecision::Denied(DenialReason::DomainNotAllowlisted)
            } else {
                d
            }
        },
        TrustMode::Lenient => d,
    }
}

/// Whether the decision for `remote_url` needs the policy at all: an
/// identifier of the local host is trusted without reading it.
pub fn needs_policy(remote_url: &str, local_hostname: &str) -> (r: Result<bool, TrustError>)
    ensures
        r == match host_in(remote_url@) {
            Some(h) => Ok(h != local_hostname@),
            None => Err(TrustError::MissingHost),
        },
{
    let host = remote_host(remote_url)?;
    let local = String::from_str(local_hostname);
    Ok(host != local)
}

/// The trust decision for a remote identifier: local identifiers are
/// allowed outright, others are decided under `snapshot` in the given mode.
pub fn check(remote_url: &str, mode: TrustMode, local_hostname: &str, snapshot: &PolicySnapshot) -> (r: Result<TrustDecision, TrustError>)
    ensures
        r == match host_in(remote_url@) {
            Some(h) => Ok(gate_decision(h, mode, local_hostname@, snapshot@)),
            None => Err(TrustError::MissingHost),
        },
{
    let host = remote_host(remote_url)?;
    let local = String::from_str(local_hostname);
    Ok(check_host(&host, mode, &local, snapshot))
}

/// An identifier of the local host is allowed in either mode, even where an
/// active allowlist does not name the local host.
pub proof fn lemma_local_always_allowed(host: Seq<char>, mode: TrustMode, local: Seq<char>, p: PolicyView)
    requires
        host == local,
    ensures
        gate_decision(host, mode, local, p) == TrustDecision::Allowed,
{
}

/// The lenient gate, for a host other than the local one, is the policy
/// decision exactly.
pub proof fn lemma_lenient_is_policy(host: Seq<char>, local: Seq<char>, p: PolicyView)
    requires
        host != local,
    ensures
        gate_decision(host, TrustMode::Lenient, local, p) == decision_for(host, p),
{
}

} // verus!
