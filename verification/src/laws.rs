//! Library-wide laws: statements that relate the parser and the policy
//! checks across all inputs, proved once and for all.

use vstd::prelude::*;
use crate::policy::FailReason;
use crate::policy::PinningVerdict;
use crate::policy::PolicyConfig;
use crate::policy::TrustVerdict;
use crate::policy::ends_with;
use crate::policy::has_unstable_suffix;
use crate::policy::latest_suffix;
use crate::policy::main_suffix;
use crate::policy::master_suffix;
use crate::policy::pinning_spec;
use crate::policy::trust_spec;
use crate::refparse::ActionRef;
use crate::refparse::exactly_once;
use crate::refparse::has_char;
use crate::refparse::is_commit_sha_seq;
use crate::refparse::is_container_ref;
use crate::refparse::parse_applicable;
use crate::refparse::pre_at;

verus! {

/// A container-image reference is out of scope on both sides: parsing it is
/// "not applicable", and the pinning check passes it unconditionally,
/// whatever the policy configuration and mode say.
pub proof fn law_container_refs_out_of_scope(raw: Seq<char>, config: PolicyConfig, strict: bool)
    requires
        is_container_ref(raw),
    ensures
        !parse_applicable(raw),
        pinning_spec(raw, config, strict) == PinningVerdict::Pass,
{
}

/// A raw string without exactly one `@`, or whose pre-`@` segment lacks
/// exactly one `/`, never parses: the result is "not applicable".
pub proof fn law_malformed_refs_not_applicable(raw: Seq<char>)
    requires
        !exactly_once(raw, '@') || !exactly_once(pre_at(raw), '/'),
    ensures
        !parse_applicable(raw),
{
}

/// A critical dependency that carries no pin at all fails the pinning
/// check, in every mode.  Container-image references are exempt: the
/// pinning check passes them before criticality is even considered.
pub proof fn law_unpinned_critical_fails(raw: Seq<char>, config: PolicyConfig, strict: bool)
    requires
        config.spec_is_critical(raw),
        !has_char(raw, '@'),
        !is_container_ref(raw),
    ensures
        pinning_spec(raw, config, strict) == PinningVerdict::Fail(FailReason::UnpinnedCritical),
{
}

/// A critical dependency that ends in `@main`, `@master`, or `@latest`
/// fails the pinning check, in every mode.  Container-image references are
/// exempt as above.
pub proof fn law_unstable_critical_fails(raw: Seq<char>, config: PolicyConfig, strict: bool)
    requires
        config.spec_is_critical(raw),
        has_unstable_suffix(raw),
        !is_container_ref(raw),
    ensures
        pinning_spec(raw, config, strict) == PinningVerdict::Fail(FailReason::UnstableCritical),
{
    if ends_with(raw, main_suffix()) {
        assert(raw.subrange(raw.len() - 5, raw.len() as int)[0] == '@');
        assert(raw[raw.len() - 5] == '@');
    } else if ends_with(raw, master_suffix()) {
        assert(raw.subrange(raw.len() - 7, raw.len() as int)[0] == '@');
        assert(raw[raw.len() - 7] == '@');
    } else {
        assert(raw.subrange(raw.len() - 7, raw.len() as int)[0] == '@');
        assert(raw[raw.len() - 7] == '@');
    }
}

/// A reference whose owner is not trusted and whose pin is not a
/// 40-character lowercase hexadecimal commit identifier is judged
/// `UntrustedAndMutable` — a pinning-policy failure.
pub proof fn law_untrusted_mutable_pin(r: ActionRef, config: PolicyConfig)
    requires
        r.wf(),
        !config.spec_is_trusted(r.owner@),
        !is_commit_sha_seq(r.version@),
    ensures
        trust_spec(r, config) == TrustVerdict::UntrustedAndMutable,
{
}

} // verus!
