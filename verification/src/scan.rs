//! Aggregation of one scan pass over a set of raw dependency references.
//!
//! The caller drives the pass: for each raw reference it first calls
//! [`ScanReport::record_policy`], which runs the pinning and trust checks
//! and tells it whether (and for which identity) an advisory lookup is due;
//! after performing the lookup it hands the outcome to
//! [`ScanReport::record_lookup`].  The report owns the two accumulating
//! result sets, and the scan as a whole fails exactly when either is
//! non-empty.

use vstd::prelude::*;
use crate::advisory::AdvisoryRecord;
use crate::advisory::LookupError;
use crate::policy::PinningVerdict;
use crate::policy::PolicyConfig;
use crate::policy::TrustVerdict;
use crate::policy::evaluate_pinning;
use crate::policy::evaluate_trust;
use crate::policy::pinning_spec;
use crate::policy::trust_spec;
use crate::refparse::ActionRef;
use crate::refparse::is_commit_sha_seq;
use crate::refparse::owner_of;
use crate::refparse::parse_applicable;
use crate::refparse::version_of;
use crate::strset::insert_unique;
use crate::strset::no_duplicates;
use crate::strset::seq_has_string;

verus! {

/// `raw` parses and its trust check comes out `UntrustedAndMutable`: an
/// untrusted owner with a pin that is not an immutable commit.
pub open spec fn untrusted_mutable(raw: Seq<char>, config: PolicyConfig) -> bool {
    &&& parse_applicable(raw)
    &&& !config.spec_is_trusted(owner_of(raw))
    &&& !is_commit_sha_seq(version_of(raw))
}

/// `raw` belongs in the insecurely-pinned result set: its pinning check
/// fails outright, or it is an untrusted owner's mutable reference.
pub open spec fn insecure_flag(raw: Seq<char>, config: PolicyConfig, strict: bool) -> bool {
    pinning_spec(raw, config, strict) is Fail || untrusted_mutable(raw, config)
}

/// `outcome` establishes a known vulnerability: a conclusive lookup that
/// returned at least one advisory.
pub open spec fn found_vulnerabilities(outcome: Result<Vec<AdvisoryRecord>, LookupError>) -> bool {
    match outcome {
        Ok(rs) => rs@.len() > 0,
        Err(_) => false,
    }
}

/// The accumulated outcome of one scan pass.  Both result sets are
/// duplicate-free lists of raw reference strings; one reference may appear
/// in both at once.
pub struct ScanReport {
    pub vulnerable_actions: Vec<String>,
    pub insecurely_pinned_actions: Vec<String>,
}

impl ScanReport {
    /// Both result sets are free of duplicates.
    pub open spec fn wf(self) -> bool {
        no_duplicates(self.vulnerable_actions@) && no_duplicates(self.insecurely_pinned_actions@)
    }

    /// `s` was recorded as vulnerable.
    pub open spec fn spec_vulnerable(self, s: Seq<char>) -> bool {
        seq_has_string(self.vulnerable_actions@, s)
    }

    /// `s` was recorded as insecurely pinned.
    pub open spec fn spec_insecure(self, s: Seq<char>) -> bool {
        seq_has_string(self.insecurely_pinned_actions@, s)
    }

    /// An empty report, to start a pass with.
    pub fn new() -> (r: ScanReport)
        ensures
            r.wf(),
            r.vulnerable_actions@.len() == 0,
            r.insecurely_pinned_actions@.len() == 0,
    {
        ScanReport { vulnerable_actions: Vec::new(), insecurely_pinned_actions: Vec::new() }
    }

    /// Runs the pinning and trust checks for one raw reference and records
    /// their findings.  Returns the pinning verdict, and the parsed
    /// reference with its trust verdict when the reference parses — the
    /// caller owes an advisory lookup exactly then.  A malformed reference
    /// is only recorded here (skipped thereafter); a failing pinning check
    /// and an untrusted-mutable trust check land the reference in the
    /// insecurely-pinned set, at most once.
    pub fn record_policy(&mut self, raw: &String, config: &PolicyConfig, strict: bool) -> (r: (
        PinningVerdict,
        Option<(ActionRef, TrustVerdict)>,
    ))
        requires
            old(self).wf(),
        ensures
            final(self).wf(),
            final(self).vulnerable_actions == old(self).vulnerable_actions,
            r.0 == pinning_spec(raw@, *config, strict),
            match r.1 {
                Some(p) => parse_applicable(raw@) && p.0.parsed_from(raw@) && p.0.wf() && p.1
                    == trust_spec(p.0, *config),
                None => !parse_applicable(raw@),
            },
            forall|t: Seq<char>|
                final(self).spec_insecure(t) <==> old(self).spec_insecure(t) || (t == raw@
                    && insecure_flag(raw@, *config, strict)),
    {
        let verdict = evaluate_pinning(raw, config, strict);
        let failed = match verdict {
            PinningVerdict::Fail(_) => true,
            _ => false,
        };
        if failed {
            insert_unique(&mut self.insecurely_pinned_actions, raw);
        }
        let parsed = ActionRef::from_action_string(raw.as_str());
        match parsed {
            Some(ar) => {
                let tv = evaluate_trust(&ar, config);
                let mutable_untrusted = match tv {
                    TrustVerdict::UntrustedAndMutable => true,
                    _ => false,
                };
                if mutable_untrusted {
                    insert_unique(&mut self.insecurely_pinned_actions, raw);
                }
                (verdict, Some((ar, tv)))
            },
            None => (verdict, None),
        }
    }

    /// Records the outcome of the advisory lookup for one raw reference: a
    /// conclusive lookup with at least one advisory lands it in the
    /// vulnerable set; an empty result or a terminal lookup error changes
    /// nothing (the error is the caller's to report, not a scan failure).
    pub fn record_lookup(
        &mut self,
        raw: &String,
        outcome: &Result<Vec<AdvisoryRecord>, LookupError>,
    )
        requires
            old(self).wf(),
        ensures
            final(self).wf(),
            final(self).insecurely_pinned_actions == old(self).insecurely_pinned_actions,
            forall|t: Seq<char>|
                final(self).spec_vulnerable(t) <==> old(self).spec_vulnerable(t) || (t == raw@
                    && found_vulnerabilities(*outcome)),
    {
        let hit = match outcome {
            Ok(rs) => rs.len() > 0,
            Err(_) => false,
        };
        if hit {
            insert_unique(&mut self.vulnerable_actions, raw);
        }
    }

    /// The scan fails overall exactly when either result set is non-empty.
    pub fn scan_failed(&self) -> (b: bool)
        ensures
            b == (self.vulnerable_actions@.len() > 0 || self.insecurely_pinned_actions@.len()
                > 0),
    {
        self.vulnerable_actions.len() > 0 || self.insecurely_pinned_actions.len() > 0
    }
}

} // verus!
