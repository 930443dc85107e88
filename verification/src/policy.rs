//! Pinning and trust policy over dependency references.

use vstd::prelude::*;
use crate::refparse::ActionRef;
use crate::refparse::has_char;
use crate::refparse::is_commit_sha_seq;
use crate::refparse::is_container_ref;
use crate::refparse::is_container_str;
use crate::refparse::parse_applicable;
use crate::refparse::version_of;
use crate::strset::contains_string;
use crate::strset::seq_has_string;

verus! {

/// The policy configuration of one scan pass.  Both lists are matched
/// exactly, with no normalization; an empty list is the permissive default
/// used when no configuration could be loaded.
pub struct PolicyConfig {
    /// Raw reference strings that require the strictest pin discipline.
    pub critical_dependencies: Vec<String>,
    /// Owners exempt from the immutable-pin requirement.
    pub trusted_owners: Vec<String>,
}

impl PolicyConfig {
    /// `raw` is designated critical by exact string membership.
    pub open spec fn spec_is_critical(self, raw: Seq<char>) -> bool {
        seq_has_string(self.critical_dependencies@, raw)
    }

    /// `owner` is a trusted owner by exact, case-sensitive membership.
    pub open spec fn spec_is_trusted(self, owner: Seq<char>) -> bool {
        seq_has_string(self.trusted_owners@, owner)
    }

    /// The permissive default: nothing critical, nobody trusted.
    pub fn permissive() -> (c: PolicyConfig)
        ensures
            c.critical_dependencies@.len() == 0,
            c.trusted_owners@.len() == 0,
    {
        PolicyConfig { critical_dependencies: Vec::new(), trusted_owners: Vec::new() }
    }
}

impl Default for PolicyConfig {
    /// Same as `permissive`: absent configuration must never stop a scan.
    fn default() -> (c: PolicyConfig)
        ensures
            c.critical_dependencies@.len() == 0,
            c.trusted_owners@.len() == 0,
    {
        PolicyConfig::permissive()
    }
}

/// An owner is trusted when the policy configuration names it, exactly and
/// case-sensitively.
pub fn is_trusted_owner(owner: &str, config: &PolicyConfig) -> (b: bool)
    ensures
        b == config.spec_is_trusted(owner@),
{
    let o = owner.to_owned();
    contains_string(&config.trusted_owners, &o)
}

/// `s` ends with `suffix`.
pub open spec fn ends_with(s: Seq<char>, suffix: Seq<char>) -> bool {
    s.len() >= suffix.len() && s.subrange(s.len() - suffix.len(), s.len() as int) == suffix
}

/// Decides whether `s` ends with `suffix`.
pub fn has_suffix(s: &str, suffix: &str) -> (b: bool)
    ensures
        b == ends_with(s@, suffix@),
{
    let n = s.unicode_len();
    let m = suffix.unicode_len();
    if m > n {
        return false;
    }
    let mut i: usize = 0;
    while i < m
        invariant
            n == s@.len(),
            m == suffix@.len(),
            m <= n,
            i <= m,
            forall|j: int| 0 <= j < i ==> s@[n - m + j] == #[trigger] suffix@[j],
        decreases m - i,
    {
        if s.get_char(n - m + i) != suffix.get_char(i) {
            proof {
                if ends_with(s@, suffix@) {
                    assert(s@.subrange(n - m, n as int)[i as int] == suffix@[i as int]);
                }
            }
            return false;
        }
        i += 1;
    }
    proof {
        assert(s@.subrange(n - m, n as int) =~= suffix@);
    }
    true
}

/// The mutable-reference alias `main`, as an `@`-suffix.
pub open spec fn main_suffix() -> Seq<char> {
    seq!['@', 'm', 'a', 'i', 'n']
}

/// The mutable-reference alias `master`, as an `@`-suffix.
pub open spec fn master_suffix() -> Seq<char> {
    seq!['@', 'm', 'a', 's', 't', 'e', 'r']
}

/// The mutable-reference alias `latest`, as an `@`-suffix.
pub open spec fn latest_suffix() -> Seq<char> {
    seq!['@', 'l', 'a', 't', 'e', 's', 't']
}

/// `s` ends in one of the recognized mutable-reference aliases.
pub open spec fn has_unstable_suffix(s: Seq<char>) -> bool {
    ends_with(s, main_suffix()) || ends_with(s, master_suffix()) || ends_with(s, latest_suffix())
}

/// Decides whether `s` ends in `@main`, `@master`, or `@latest`.
pub fn has_unstable_ref_suffix(s: &str) -> (b: bool)
    ensures
        b == has_unstable_suffix(s@),
{
    let b1 = has_suffix(s, "@main");
    let b2 = has_suffix(s, "@master");
    let b3 = has_suffix(s, "@latest");
    proof {
        reveal_strlit("@main");
        reveal_strlit("@master");
        reveal_strlit("@latest");
        assert("@main"@ =~= main_suffix());
        assert("@master"@ =~= master_suffix());
        assert("@latest"@ =~= latest_suffix());
    }
    b1 || b2 || b3
}

/// Decides whether `c` occurs in `s`.
pub fn contains_char(s: &str, c: char) -> (b: bool)
    ensures
        b == has_char(s@, c),
{
    let n = s.unicode_len();
    let mut i: usize = 0;
    while i < n
        invariant
            n == s@.len(),
            i <= n,
            forall|j: int| 0 <= j < i ==> s@[j] != c,
        decreases n - i,
    {
        if s.get_char(i) == c {
            return true;
        }
        i += 1;
    }
    false
}

/// Why a pinning check failed.
#[derive(Clone, Copy, Debug, PartialEq, Eq, Structural)]
pub enum FailReason {
    /// A critical dependency carries no pin at all.
    UnpinnedCritical,
    /// A critical dependency uses a mutable-reference alias.
    UnstableCritical,
    /// Strict mode: a dependency carries no pin at all.
    UnpinnedStrict,
    /// Strict mode: a dependency uses a mutable-reference alias.
    UnstableStrict,
}

/// Why a pinning check warns without failing.
#[derive(Clone, Copy, Debug, PartialEq, Eq, Structural)]
pub enum WarnReason {
    /// A critical dependency is pinned to a tag, not an immutable commit.
    CriticalTagPin,
}

/// The outcome of the pinning check for one raw reference.
#[derive(Clone, Copy, Debug, PartialEq, Eq, Structural)]
pub enum PinningVerdict {
    Pass,
    Fail(FailReason),
    /// Advisory only; never causes overall scan failure.
    Warn(WarnReason),
}

/// The pinning policy: container references pass unconditionally; critical
/// dependencies must be pinned, must not use a mutable alias, and warn when
/// the pin is not an immutable commit; strict mode extends the two failure
/// checks (but not the warning) to every dependency.
pub open spec fn pinning_spec(raw: Seq<char>, config: PolicyConfig, strict: bool) -> PinningVerdict {
    if is_container_ref(raw) {
        PinningVerdict::Pass
    } else if config.spec_is_critical(raw) {
        if !has_char(raw, '@') {
            PinningVerdict::Fail(FailReason::UnpinnedCritical)
        } else if has_unstable_suffix(raw) {
            PinningVerdict::Fail(FailReason::UnstableCritical)
        } else if parse_applicable(raw) && !is_commit_sha_seq(version_of(raw)) {
            PinningVerdict::Warn(WarnReason::CriticalTagPin)
        } else {
            PinningVerdict::Pass
        }
    } else if strict {
        if !has_char(raw, '@') {
            PinningVerdict::Fail(FailReason::UnpinnedStrict)
        } else if has_unstable_suffix(raw) {
            PinningVerdict::Fail(FailReason::UnstableStrict)
        } else {
            PinningVerdict::Pass
        }
    } else {
        PinningVerdict::Pass
    }
}

/// Applies the pinning policy to one raw reference.
pub fn evaluate_pinning(raw: &String, config: &PolicyConfig, strict: bool) -> (v: PinningVerdict)
    ensures
        v == pinning_spec(raw@, *config, strict),
{
    if is_container_str(raw.as_str()) {
        return PinningVerdict::Pass;
    }
    let is_critical = contains_string(&config.critical_dependencies, raw);
    if is_critical {
        if !contains_char(raw.as_str(), '@') {
            PinningVerdict::Fail(FailReason::UnpinnedCritical)
        } else if has_unstable_ref_suffix(raw.as_str()) {
            PinningVerdict::Fail(FailReason::UnstableCritical)
        } else {
            match ActionRef::from_action_string(raw.as_str()) {
                Some(ar) => {
                    if !ar.is_commit_sha {
                        PinningVerdict::Warn(WarnReason::CriticalTagPin)
                    } else {
                        PinningVerdict::Pass
                    }
                },
                None => PinningVerdict::Pass,
            }
        }
    } else if strict {
        if !contains_char(raw.as_str(), '@') {
            PinningVerdict::Fail(FailReason::UnpinnedStrict)
        } else if has_unstable_ref_suffix(raw.as_str()) {
            PinningVerdict::Fail(FailReason::UnstableStrict)
        } else {
            PinningVerdict::Pass
        }
    } else {
        PinningVerdict::Pass
    }
}

/// The outcome of the trust check for one parsed reference.
#[derive(Clone, Copy, Debug, PartialEq, Eq, Structural)]
pub enum TrustVerdict {
    /// The owner is named in the trusted-owner list.
    Trusted,
    /// Untrusted owner, but the pin is an immutable commit; an observational
    /// warning only.
    UntrustedButImmutable,
    /// Untrusted owner with a mutable pin; a pinning-policy failure.
    UntrustedAndMutable,
}

/// The trust policy: a reference from an owner outside the trusted list is
/// acceptable only when pinned to an immutable commit identifier.
pub open spec fn trust_spec(r: ActionRef, config: PolicyConfig) -> TrustVerdict {
    if config.spec_is_trusted(r.owner@) {
        TrustVerdict::Trusted
    } else if r.is_commit_sha {
        TrustVerdict::UntrustedButImmutable
    } else {
        TrustVerdict::UntrustedAndMutable
    }
}

/// Applies the trust policy to one parsed reference.
pub fn evaluate_trust(r: &ActionRef, config: &PolicyConfig) -> (v: TrustVerdict)
    ensures
        v == trust_spec(*r, *config),
{
    if is_trusted_owner(r.owner.as_str(), config) {
        TrustVerdict::Trusted
    } else if r.is_commit_sha {
        TrustVerdict::UntrustedButImmutable
    } else {
        TrustVerdict::UntrustedAndMutable
    }
}

} // verus!
