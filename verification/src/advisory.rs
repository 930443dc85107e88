//! The advisory lookup protocol: how one response from the external advisory
//! source is turned into a result, a terminal error, or a rate-limit retry.
//!
//! The caller owns the transport.  It performs one request, reduces the
//! response to a [`LookupEvent`] of plain values, and asks [`lookup_step`]
//! what to do: return the decoded records, wait the given number of
//! time-units and retry from the start, or give up on this one reference
//! with a terminal [`LookupError`].  Rate limiting is retried without a
//! ceiling; everything else is terminal.

use vstd::prelude::*;

verus! {

/// One vulnerability advisory as returned by the external source.  Nothing
/// beyond what the source sent is enforced; duplicates are kept.
pub struct AdvisoryRecord {
    pub id: String,
    pub number: i64,
    pub title: String,
    pub state: String,
    pub severity: Option<String>,
    pub labels: Vec<String>,
}

/// A terminal lookup failure for one reference.  It is reported as
/// inconclusive and never aborts the scan of the remaining references.
#[derive(Clone, Copy, Debug, PartialEq, Eq, Structural)]
pub enum LookupError {
    /// The request never produced a response.
    Transport,
    /// The response claimed success but its body did not decode as a list of
    /// advisory records.
    Decode,
    /// Any other non-success response status.
    UnexpectedStatus(u16),
}

/// What one attempt against the advisory endpoint came back with, reduced to
/// plain values by the caller.  `records` carries the decoded body of a
/// success response and is meaningful only then; a body that would not
/// decode is handed in as `None`.
pub enum LookupEvent {
    Response { status: u16, retry_after: Option<String>, records: Option<Vec<AdvisoryRecord>> },
    TransportFailure,
}

/// What the caller must do next with one reference.
pub enum LookupStep {
    /// The lookup is complete; these are the advisories (possibly none).
    Done(Vec<AdvisoryRecord>),
    /// Rate limited: wait this many time-units, then retry the same lookup
    /// from the start.
    RetryAfter(u64),
    /// Terminal failure for this reference.
    Failed(LookupError),
}

/// The response status that carries a decodable list of advisories.
pub const STATUS_OK: u16 = 200;

/// The response status that signals rate limiting.
pub const STATUS_RATE_LIMITED: u16 = 429;

/// The wait imposed when a rate-limit response names none, or names one that
/// does not read as an integer.
pub const DEFAULT_RETRY_WAIT: u64 = 60;

/// An ASCII decimal digit.
pub open spec fn is_digit(c: char) -> bool {
    ('0' as u32) <= (c as u32) && (c as u32) <= ('9' as u32)
}

/// The numeric value of a digit character.
pub open spec fn digit_val(c: char) -> nat {
    ((c as u32) - ('0' as u32)) as nat
}

/// Every character of `s` is an ASCII decimal digit.
pub open spec fn all_digits(s: Seq<char>) -> bool {
    forall|i: int| 0 <= i < s.len() ==> is_digit(#[trigger] s[i])
}

/// The value of `s` read as a decimal numeral.
pub open spec fn decimal_value(s: Seq<char>) -> nat
    decreases s.len(),
{
    if s.len() == 0 {
        0
    } else {
        decimal_value(s.drop_last()) * 10 + digit_val(s.last())
    }
}

/// `s` is a non-empty string of digits whose value fits in a `u64`.
pub open spec fn parses_as_u64(s: Seq<char>) -> bool {
    s.len() > 0 && all_digits(s) && decimal_value(s) <= u64::MAX as nat
}

/// A longer numeral is worth at least as much as any of its prefixes.
proof fn lemma_decimal_value_prefix(s: Seq<char>, k: int)
    requires
        0 <= k <= s.len(),
    ensures
        decimal_value(s) >= decimal_value(s.take(k)),
    decreases s.len() - k,
{
    if k < s.len() {
        assert(s.take(k + 1).drop_last() =~= s.take(k));
        assert(decimal_value(s.take(k + 1)) == decimal_value(s.take(k)) * 10 + digit_val(
            s.take(k + 1).last(),
        ));
        lemma_decimal_value_prefix(s, k + 1);
    } else {
        assert(s.take(k) =~= s);
    }
}

/// Reads `s` as a decimal `u64`, or `None` when `s` is empty, holds a
/// non-digit, or overflows.
pub fn parse_u64(s: &str) -> (r: Option<u64>)
    ensures
        match r {
            Some(v) => parses_as_u64(s@) && v as nat == decimal_value(s@),
            None => !parses_as_u64(s@),
        },
{
    let n = s.unicode_len();
    if n == 0 {
        return None;
    }
    let mut acc: u64 = 0;
    let mut i: usize = 0;
    while i < n
        invariant
            n == s@.len(),
            0 < n,
            i <= n,
            all_digits(s@.take(i as int)),
            acc as nat == decimal_value(s@.take(i as int)),
        decreases n - i,
    {
        let c = s.get_char(i);
        let u = c as u32;
        if !(('0' as u32) <= u && u <= ('9' as u32)) {
            proof {
                assert(!is_digit(s@[i as int]));
            }
            return None;
        }
        let d: u64 = (u - 48) as u64;
        proof {
            assert(s@.take(i + 1).drop_last() =~= s@.take(i as int));
            assert(s@.take(i + 1).last() == s@[i as int]);
        }
        let wide = match acc.checked_mul(10) {
            Some(x) => x,
            None => {
                proof {
                    lemma_decimal_value_prefix(s@, i + 1);
                }
                return None;
            },
        };
        let next = match wide.checked_add(d) {
            Some(x) => x,
            None => {
                proof {
                    lemma_decimal_value_prefix(s@, i + 1);
                }
                return None;
            },
        };
        acc = next;
        i += 1;
    }
    proof {
        assert(s@.take(n as int) =~= s@);
    }
    Some(acc)
}

/// The wait a rate-limit response imposes: the server-supplied duration when
/// it reads as an integer, else the default.
pub open spec fn retry_wait_spec(h: Option<String>) -> u64 {
    match h {
        Some(s) => if parses_as_u64(s@) {
            decimal_value(s@) as u64
        } else {
            DEFAULT_RETRY_WAIT
        },
        None => DEFAULT_RETRY_WAIT,
    }
}

/// Reads the server-supplied wait duration of a rate-limit response,
/// defaulting when it is absent or unparsable.
pub fn parse_retry_after(h: &Option<String>) -> (w: u64)
    ensures
        w == retry_wait_spec(*h),
{
    match h {
        Some(s) => match parse_u64(s.as_str()) {
            Some(v) => v,
            None => DEFAULT_RETRY_WAIT,
        },
        None => DEFAULT_RETRY_WAIT,
    }
}

/// The reaction the protocol owes to one response event.
pub open spec fn lookup_step_spec(event: LookupEvent) -> LookupStep {
    match event {
        LookupEvent::TransportFailure => LookupStep::Failed(LookupError::Transport),
        LookupEvent::Response { status, retry_after, records } => {
            if status == STATUS_OK {
                match records {
                    Some(rs) => LookupStep::Done(rs),
                    None => LookupStep::Failed(LookupError::Decode),
                }
            } else if status == STATUS_RATE_LIMITED {
                LookupStep::RetryAfter(retry_wait_spec(retry_after))
            } else {
                LookupStep::Failed(LookupError::UnexpectedStatus(status))
            }
        },
    }
}

/// Decides how to react to one response: success returns its records, rate
/// limiting asks for a wait and a fresh retry, anything else is terminal.
pub fn lookup_step(event: LookupEvent) -> (r: LookupStep)
    ensures
        r == lookup_step_spec(event),
{
    match event {
        LookupEvent::TransportFailure => LookupStep::Failed(LookupError::Transport),
        LookupEvent::Response { status, retry_after, records } => {
            if status == STATUS_OK {
                match records {
                    Some(rs) => LookupStep::Done(rs),
                    None => LookupStep::Failed(LookupError::Decode),
                }
            } else if status == STATUS_RATE_LIMITED {
                LookupStep::RetryAfter(parse_retry_after(&retry_after))
            } else {
                LookupStep::Failed(LookupError::UnexpectedStatus(status))
            }
        },
    }
}

} // verus!
