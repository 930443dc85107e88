//! Parsing of raw dependency references of the form `owner/repo@version`.
//!
//! A raw reference is applicable to parsing when it does not carry the
//! container-image scheme prefix, contains exactly one `@`, and the part
//! before the `@` contains exactly one `/`.  Anything else is "not
//! applicable": no reference, but no error either.

use vstd::prelude::*;

verus! {

/// A lowercase hexadecimal digit, as used in content-addressed commit
/// identifiers.
pub open spec fn is_lower_hex(c: char) -> bool {
    (('0' as u32) <= (c as u32) && (c as u32) <= ('9' as u32)) || (('a' as u32) <= (c as u32)
        && (c as u32) <= ('f' as u32))
}

/// A version pin is immutable exactly when it is 40 lowercase hexadecimal
/// characters: a content-addressed commit identifier.  Uppercase or mixed-case
/// hex is deliberately not accepted.
pub open spec fn is_commit_sha_seq(s: Seq<char>) -> bool {
    s.len() == 40 && (forall|i: int| 0 <= i < s.len() ==> is_lower_hex(#[trigger] s[i]))
}

/// Decides whether `v` is a 40-character lowercase hexadecimal commit
/// identifier.
pub fn check_commit_sha(v: &str) -> (b: bool)
    ensures
        b == is_commit_sha_seq(v@),
{
    let n = v.unicode_len();
    if n != 40 {
        return false;
    }
    let mut i: usize = 0;
    while i < n
        invariant
            n == v@.len(),
            i <= n,
            forall|j: int| 0 <= j < i ==> is_lower_hex(#[trigger] v@[j]),
        decreases n - i,
    {
        let c = v.get_char(i);
        let u = c as u32;
        let digit = ('0' as u32) <= u && u <= ('9' as u32);
        let lower = ('a' as u32) <= u && u <= ('f' as u32);
        if !(digit || lower) {
            return false;
        }
        i += 1;
    }
    true
}

/// `c` occurs somewhere in `s`.
pub open spec fn has_char(s: Seq<char>, c: char) -> bool {
    exists|i: int| 0 <= i < s.len() && s[i] == c
}

/// `c` occurs in `s` exactly once, namely at position `i`.
pub open spec fn exactly_once_at(s: Seq<char>, c: char, i: int) -> bool {
    &&& 0 <= i < s.len()
    &&& s[i] == c
    &&& forall|j: int| 0 <= j < s.len() && #[trigger] s[j] == c ==> j == i
}

/// `c` occurs in `s` exactly once.
pub open spec fn exactly_once(s: Seq<char>, c: char) -> bool {
    exists|i: int| exactly_once_at(s, c, i)
}

/// The position of the single occurrence of `c` in `s`; meaningful only when
/// `exactly_once(s, c)` holds.
pub open spec fn split_idx(s: Seq<char>, c: char) -> int {
    choose|i: int| exactly_once_at(s, c, i)
}

/// Returns the position of the single occurrence of `c` in `s`, or `None`
/// when `c` occurs zero times or more than once.
pub fn find_single(s: &str, c: char) -> (r: Option<usize>)
    ensures
        match r {
            Some(i) => exactly_once_at(s@, c, i as int) && i as int == split_idx(s@, c),
            None => !exactly_once(s@, c),
        },
{
    let n = s.unicode_len();
    let mut found: Option<usize> = None;
    let mut i: usize = 0;
    while i < n
        invariant
            n == s@.len(),
            i <= n,
            match found {
                Some(k) => 0 <= k < i && s@[k as int] == c && (forall|j: int|
                    0 <= j < i && #[trigger] s@[j] == c ==> j == k as int),
                None => forall|j: int| 0 <= j < i ==> #[trigger] s@[j] != c,
            },
        decreases n - i,
    {
        let ch = s.get_char(i);
        if ch == c {
            match found {
                None => {
                    found = Some(i);
                },
                Some(k) => {
                    proof {
                        assert forall|m: int| !exactly_once_at(s@, c, m) by {
                            if exactly_once_at(s@, c, m) {
                                assert(s@[k as int] == c);
                                assert(s@[i as int] == c);
                            }
                        }
                    }
                    return None;
                },
            }
        }
        i += 1;
    }
    match found {
        Some(k) => {
            proof {
                assert(exactly_once_at(s@, c, k as int));
                let m = split_idx(s@, c);
                assert(exactly_once_at(s@, c, m));
                assert(s@[m] == c);
            }
            Some(k)
        },
        None => {
            proof {
                assert forall|m: int| !exactly_once_at(s@, c, m) by {
                    if exactly_once_at(s@, c, m) {
                        assert(s@[m] == c);
                    }
                }
            }
            None
        },
    }
}

/// The container-image scheme prefix, which puts a reference outside the
/// `owner/repo@version` namespace.
pub open spec fn container_prefix() -> Seq<char> {
    seq!['d', 'o', 'c', 'k', 'e', 'r', ':', '/', '/']
}

/// `s` begins with the container-image scheme prefix.
pub open spec fn is_container_ref(s: Seq<char>) -> bool {
    s.len() >= 9 && s.subrange(0, 9) == container_prefix()
}

/// Decides whether `s` begins with the container-image scheme prefix.
pub fn is_container_str(s: &str) -> (b: bool)
    ensures
        b == is_container_ref(s@),
{
    let n = s.unicode_len();
    if n < 9 {
        return false;
    }
    let b = s.get_char(0) == 'd' && s.get_char(1) == 'o' && s.get_char(2) == 'c' && s.get_char(3)
        == 'k' && s.get_char(4) == 'e' && s.get_char(5) == 'r' && s.get_char(6) == ':'
        && s.get_char(7) == '/' && s.get_char(8) == '/';
    proof {
        if b {
            assert(s@.subrange(0, 9) =~= container_prefix());
        } else {
            if s@.subrange(0, 9) == container_prefix() {
                assert(s@.subrange(0, 9)[0] == 'd');
                assert(s@.subrange(0, 9)[1] == 'o');
                assert(s@.subrange(0, 9)[2] == 'c');
                assert(s@.subrange(0, 9)[3] == 'k');
                assert(s@.subrange(0, 9)[4] == 'e');
                assert(s@.subrange(0, 9)[5] == 'r');
                assert(s@.subrange(0, 9)[6] == ':');
                assert(s@.subrange(0, 9)[7] == '/');
                assert(s@.subrange(0, 9)[8] == '/');
            }
        }
    }
    b
}

/// The part of `s` before its single `@`; meaningful only when
/// `exactly_once(s, '@')` holds.
pub open spec fn pre_at(s: Seq<char>) -> Seq<char> {
    s.take(split_idx(s, '@'))
}

/// The part of `s` after its single `@`.
pub open spec fn version_of(s: Seq<char>) -> Seq<char> {
    s.subrange(split_idx(s, '@') + 1, s.len() as int)
}

/// The part of `s` before the single `/` of its pre-`@` segment.
pub open spec fn owner_of(s: Seq<char>) -> Seq<char> {
    pre_at(s).take(split_idx(pre_at(s), '/'))
}

/// The part of the pre-`@` segment of `s` after its single `/`.
pub open spec fn repo_of(s: Seq<char>) -> Seq<char> {
    pre_at(s).subrange(split_idx(pre_at(s), '/') + 1, pre_at(s).len() as int)
}

/// A raw reference yields a structured reference exactly when it is not a
/// container-image reference, has exactly one `@`, and its pre-`@` segment
/// has exactly one `/`.
pub open spec fn parse_applicable(s: Seq<char>) -> bool {
    &&& !is_container_ref(s)
    &&& exactly_once(s, '@')
    &&& exactly_once(pre_at(s), '/')
}

/// The parsed identity of one dependency reference: `owner/repo@version`,
/// with the pin classified as immutable or not.
pub struct ActionRef {
    pub owner: String,
    pub repo: String,
    pub version: String,
    pub is_commit_sha: bool,
}

impl ActionRef {
    /// The immutability flag agrees with the version text.
    pub open spec fn wf(self) -> bool {
        self.is_commit_sha == is_commit_sha_seq(self.version@)
    }

    /// `self` holds exactly the segments that parsing `s` yields.
    pub open spec fn parsed_from(self, s: Seq<char>) -> bool {
        &&& self.owner@ == owner_of(s)
        &&& self.repo@ == repo_of(s)
        &&& self.version@ == version_of(s)
        &&& self.is_commit_sha == is_commit_sha_seq(version_of(s))
    }

    /// Parses a raw reference.  Returns `None` ("not applicable") for
    /// container-image references and for strings without exactly one `@`
    /// or without exactly one `/` before the `@`; otherwise the segments are
    /// taken verbatim, with no normalization.
    pub fn from_action_string(action: &str) -> (r: Option<ActionRef>)
        ensures
            match r {
                Some(ar) => parse_applicable(action@) && ar.parsed_from(action@) && ar.wf(),
                None => !parse_applicable(action@),
            },
    {
        if is_container_str(action) {
            return None;
        }
        let n = action.unicode_len();
        let at = match find_single(action, '@') {
            None => { return None; },
            Some(i) => i,
        };
        let pre = action.substring_char(0, at);
        let ver = action.substring_char(at + 1, n);
        proof {
            assert(pre@ =~= pre_at(action@));
            assert(ver@ =~= version_of(action@));
        }
        let sl = match find_single(pre, '/') {
            None => { return None; },
            Some(i) => i,
        };
        let pn = pre.unicode_len();
        let owner = pre.substring_char(0, sl);
        let repo = pre.substring_char(sl + 1, pn);
        proof {
            assert(owner@ =~= owner_of(action@));
            assert(repo@ =~= repo_of(action@));
        }
        let is_sha = check_commit_sha(ver);
        Some(
            ActionRef {
                owner: owner.to_owned(),
                repo: repo.to_owned(),
                version: ver.to_owned(),
                is_commit_sha: is_sha,
            },
        )
    }

    /// The `owner/repo` identity of the reference.
    pub fn full_name(&self) -> (r: String)
        ensures
            r@ == self.owner@ + seq!['/'] + self.repo@,
    {
        let mut r = self.owner.clone();
        r.append("/");
        r.append(self.repo.as_str());
        proof {
            reveal_strlit("/");
            assert(r@ =~= self.owner@ + seq!['/'] + self.repo@);
        }
        r
    }
}

} // verus!
