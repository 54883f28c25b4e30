//! The instance-wide federation policy and the pure decision made from it.

use vstd::prelude::*;

verus! {

/// Why a remote identifier was refused.
#[derive(Clone, Copy, Debug, PartialEq, Eq, Structural)]
pub enum DenialReason {
    FederationDisabled,
    DomainBlocked,
    DomainNotAllowlisted,
}

/// The stable message that names a denial reason to a peer.
pub open spec fn denial_message(reason: DenialReason) -> Seq<char> {
    match reason {
        DenialReason::FederationDisabled => "Federation disabled"@,
        DenialReason::DomainBlocked => "Domain is blocked"@,
        DenialReason::DomainNotAllowlisted => "Domain is not in allowlist"@,
    }
}

impl DenialReason {
    /// The stable message for this reason.
    pub fn message(&self) -> (r: &'static str)
        ensures
            r@ == denial_message(*self),
    {
        match self {
            DenialReason::FederationDisabled => "Federation disabled",
            DenialReason::DomainBlocked => "Domain is blocked",
            DenialReason::DomainNotAllowlisted => "Domain is not in allowlist",
        }
    }
}

/// Outcome of a policy check: a deliberate rejection is a value, not an error.
#[derive(Clone, Copy, Debug, PartialEq, Eq, Structural)]
pub enum TrustDecision {
    Allowed,
    Denied(DenialReason),
}

/// One consistent reading of the federation policy. Once built it is never
/// changed; a newer reading replaces it whole.
#[derive(Debug)]
pub struct PolicySnapshot {
    federation_enabled: bool,
    allowed_domains: Vec<String>,
    blocked_domains: Vec<String>,
}

/// The mathematical content of a snapshot: the flag and two sets of hosts.
pub struct PolicyView {
    pub federation_enabled: bool,
    pub allowed: Set<Seq<char>>,
    pub blocked: Set<Seq<char>>,
}

/// A host name as the policy keeps it: lower case, with no scheme or port
/// (no upper-case ASCII letter, no ':' and no '/').
pub open spec fn is_host_name(s: Seq<char>) -> bool {
    forall|i: int| 0 <= i < s.len() ==> !(('A' <= #[trigger] s[i] && s[i] <= 'Z') || s[i] == ':' || s[i] == '/')
}

/// Every entry of the list is a host name as the policy keeps it.
pub open spec fn all_host_names(list: Seq<String>) -> bool {
    forall|i: int| 0 <= i < list.len() ==> is_host_name(#[trigger] list[i]@)
}

/// Whether `s` is a host name as the policy keeps it.
pub fn is_normalized_host(s: &String) -> (r: bool)
    ensures
        r == is_host_name(s@),
{
    let text = s.as_str();
    let n = text.unicode_len();
    let mut i: usize = 0;
    while i < n
        invariant
            n == s@.len(),
            text@ == s@,
            i <= n,
            forall|j: int| 0 <= j < i ==> !(('A' <= #[trigger] s@[j] && s@[j] <= 'Z') || s@[j] == ':' || s@[j] == '/'),
        decreases n - i,
    {
        let c = text.get_char(i);
        if ('A' <= c && c <= 'Z') || c == ':' || c == '/' {
            assert(s@[i as int] == c);
            return false;
        }
        i = i + 1;
    }
    true
}

fn all_normalized(list: &Vec<String>) -> (r: bool)
    ensures
        r == all_host_names(list@),
{
    let mut i: usize = 0;
    while i < list.len()
        invariant
            i <= list@.len(),
            forall|j: int| 0 <= j < i ==> is_host_name(#[trigger] list@[j]@),
        decreases list@.len() - i,
    {
        if !is_normalized_host(&list[i]) {
            return false;
        }
        i = i + 1;
    }
    true
}

/// The set of hosts that a list of domain strings names.
pub open spec fn domain_set(list: Seq<String>) -> Set<Seq<char>> {
    Set::new(|d: Seq<char>| exists|i: int| 0 <= i < list.len() && list[i]@ == d)
}

impl View for PolicySnapshot {
    type V = PolicyView;

    closed spec fn view(&self) -> PolicyView {
        PolicyView {
            federation_enabled: self.federation_enabled,
            allowed: domain_set(self.allowed_domains@),
            blocked: domain_set(self.blocked_domains@),
        }
    }
}

/// The lenient decision for a host: disabled federation first, then the
/// blocklist, then a non-empty allowlist; whatever passes all three is allowed.
pub open spec fn decision_for(host: Seq<char>, p: PolicyView) -> TrustDecision {
    if !p.federation_enabled {
        TrustDecision::Denied(DenialReason::FederationDisabled)
    } else if p.blocked.contains(host) {
        TrustDecision::Denied(DenialReason::DomainBlocked)
    } else if p.allowed != Set::<Seq<char>>::empty() && !p.allowed.contains(host) {
        TrustDecision::Denied(DenialReason::DomainNotAllowlisted)
    } else {
        TrustDecision::Allowed
    }
}

proof fn lemma_domain_set_empty(list: Seq<String>)
    ensures
        (domain_set(list) == Set::<Seq<char>>::empty()) == (list.len() == 0),
{
    if list.len() == 0 {
        assert(domain_set(list) =~= Set::<Seq<char>>::empty());
    } else {
        assert(domain_set(list).contains(list[0]@));
    }
}

/// Whether `domain` occurs in `list`.
pub fn contains_domain(list: &Vec<String>, domain: &String) -> (r: bool)
    ensures
        r == domain_set(list@).contains(domain@),
{
    let mut i: usize = 0;
    while i < list.len()
        invariant
            i <= list.len(),
            forall|j: int| 0 <= j < i ==> list@[j]@ != domain@,
        decreases list.len() - i,
    {
        if list[i] == *domain {
            return true;
        }
        i = i + 1;
    }
    false
}

fn copy_domains(list: &Vec<String>) -> (r: Vec<String>)
    ensures
        r@ == list@,
{
    let mut r: Vec<String> = Vec::new();
    let mut i: usize = 0;
    while i < list.len()
        invariant
            i <= list.len(),
            r@ == list@.subrange(0, i as int),
        decreases list.len() - i,
    {
        r.push(list[i].clone());
        i = i + 1;
    }
    assert(r@ =~= list@);
    r
}

impl PolicySnapshot {
    /// A snapshot from the three readings of the policy store. The domain
    /// strings are expected to be lower-cased host names without scheme or
    /// port, as the store keeps them.
    pub fn new(federation_enabled: bool, allowed_domains: Vec<String>, blocked_domains: Vec<String>) -> (r: Self)
        requires
            all_host_names(allowed_domains@),
            all_host_names(blocked_domains@),
        ensures
            r.wf(),
            r.federation_enabled() == federation_enabled,
            r.allowed_domains()@ == allowed_domains@,
            r.blocked_domains()@ == blocked_domains@,
            r@.federation_enabled == federation_enabled,
            r@.allowed == domain_set(allowed_domains@),
            r@.blocked == domain_set(blocked_domains@),
    {
        PolicySnapshot { federation_enabled, allowed_domains, blocked_domains }
    }

    /// A snapshot from three readings that are not known to hold host names
    /// as the policy keeps them: `None` where an entry of either list is not
    /// one.
    pub fn try_new(federation_enabled: bool, allowed_domains: Vec<String>, blocked_domains: Vec<String>) -> (r: Option<Self>)
        ensures
            r is Some <==> all_host_names(allowed_domains@) && all_host_names(blocked_domains@),
            r matches Some(p) ==> p.wf() && p@.federation_enabled == federation_enabled && p@.allowed == domain_set(
                allowed_domains@,
            ) && p@.blocked == domain_set(blocked_domains@),
    {
        if all_normalized(&allowed_domains) && all_normalized(&blocked_domains) {
            Some(PolicySnapshot::new(federation_enabled, allowed_domains, blocked_domains))
        } else {
            None
        }
    }

    /// The policy that applies when the local site record does not exist:
    /// federation enabled and no list configured.
    pub fn unconfigured() -> (r: Self)
        ensures
            r.wf(),
            r@.federation_enabled,
            r@.allowed == Set::<Seq<char>>::empty(),
            r@.blocked == Set::<Seq<char>>::empty(),
    {
        let r = PolicySnapshot { federation_enabled: true, allowed_domains: Vec::new(), blocked_domains: Vec::new() };
        proof {
            lemma_domain_set_empty(r.allowed_domains@);
            lemma_domain_set_empty(r.blocked_domains@);
        }
        r
    }

    /// A snapshot from the three store readings, where the local site record
    /// may be missing (`None`), which means federation is enabled.
    pub fn from_store(federation_enabled: Option<bool>, allowed_domains: Vec<String>, blocked_domains: Vec<String>) -> (r: Self)
        requires
            all_host_names(allowed_domains@),
            all_host_names(blocked_domains@),
        ensures
            r.wf(),
            r@.federation_enabled == match federation_enabled {
                Some(e) => e,
                None => true,
            },
            r@.allowed == domain_set(allowed_domains@),
            r@.blocked == domain_set(blocked_domains@),
    {
        let enabled = match federation_enabled {
            Some(e) => e,
            None => true,
        };
        PolicySnapshot::new(enabled, allowed_domains, blocked_domains)
    }

    /// Every domain of both lists is a host name as the policy keeps it.
    pub closed spec fn wf(&self) -> bool {
        all_host_names(self.allowed_domains@) && all_host_names(self.blocked_domains@)
    }

    pub closed spec fn federation_enabled(&self) -> bool {
        self.federation_enabled
    }

    pub closed spec fn allowed_domains(&self) -> Vec<String> {
        self.allowed_domains
    }

    pub closed spec fn blocked_domains(&self) -> Vec<String> {
        self.blocked_domains
    }

    pub fn is_federation_enabled(&self) -> (r: bool)
        ensures
            r == self@.federation_enabled,
    {
        self.federation_enabled
    }

    pub fn allowlist(&self) -> (r: &Vec<String>)
        ensures
            domain_set(r@) == self@.allowed,
    {
        &self.allowed_domains
    }

    pub fn blocklist(&self) -> (r: &Vec<String>)
        ensures
            domain_set(r@) == self@.blocked,
    {
        &self.blocked_domains
    }

    /// Whether the allowlist is active, that is, names at least one host.
    pub fn has_allowlist(&self) -> (r: bool)
        ensures
            r == (self@.allowed != Set::<Seq<char>>::empty()),
    {
        proof {
            lemma_domain_set_empty(self.allowed_domains@);
        }
        self.allowed_domains.len() > 0
    }

    pub fn is_allowlisted(&self, host: &String) -> (r: bool)
        ensures
            r == self@.allowed.contains(host@),
    {
        contains_domain(&self.allowed_domains, host)
    }

    pub fn is_blocked(&self, host: &String) -> (r: bool)
        ensures
            r == self@.blocked.contains(host@),
    {
        contains_domain(&self.blocked_domains, host)
    }

    /// An equal copy, for handing a cached snapshot out to a reader.
    pub fn duplicate(&self) -> (r: Self)
        ensures
            r@ == self@,
            r.wf() == self.wf(),
            r.federation_enabled() == self.federation_enabled(),
            r.allowed_domains()@ == self.allowed_domains()@,
            r.blocked_domains()@ == self.blocked_domains()@,
    {
        PolicySnapshot {
            federation_enabled: self.federation_enabled,
            allowed_domains: copy_domains(&self.allowed_domains),
            blocked_domains: copy_domains(&self.blocked_domains),
        }
    }
}

/// The lenient decision for a host that has already been extracted from a
/// remote identifier.
pub fn decide_host(host: &String, snapshot: &PolicySnapshot) -> (r: TrustDecision)
    ensures
        r == decision_for(host@, snapshot@),
{
    if !snapshot.is_federation_enabled() {
        TrustDecision::Denied(DenialReason::FederationDisabled)
    } else if snapshot.is_blocked(host) {
        TrustDecision::Denied(DenialReason::DomainBlocked)
    } else if snapshot.has_allowlist() && !snapshot.is_allowlisted(host) {
        TrustDecision::Denied(DenialReason::DomainNotAllowlisted)
    } else {
        TrustDecision::Allowed
    }
}

/// With federation disabled every host is refused for that reason, whatever
/// the two lists hold.
pub proof fn lemma_disabled_denies_all(host: Seq<char>, p: PolicyView)
    requires
        !p.federation_enabled,
    ensures
        decision_for(host, p) == TrustDecision::Denied(DenialReason::FederationDisabled),
{
}

/// A host on both lists is refused as blocked: the blocklist takes precedence.
pub proof fn lemma_blocklist_precedence(host: Seq<char>, p: PolicyView)
    requires
        p.federation_enabled,
        p.blocked.contains(host),
        p.allowed.contains(host),
    ensures
        decision_for(host, p) == TrustDecision::Denied(DenialReason::DomainBlocked),
{
}

/// For a host that is not blocked (federation enabled): an empty allowlist
/// lets it through, and a non-empty allowlist that lacks it refuses it.
pub proof fn lemma_allowlist_rule(host: Seq<char>, p: PolicyView)
    requires
        p.federation_enabled,
        !p.blocked.contains(host),
    ensures
        p.allowed == Set::<Seq<char>>::empty() ==> decision_for(host, p) == TrustDecision::Allowed,
        p.allowed != Set::<Seq<char>>::empty() && !p.allowed.contains(host) ==> decision_for(host, p)
            == TrustDecision::Denied(DenialReason::DomainNotAllowlisted),
{
}

} // verus!
