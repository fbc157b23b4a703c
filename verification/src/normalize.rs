//! The version normalizer: maps catalog-supplied version identifiers, which
//! may carry a distribution-channel marker, to the canonical identifiers the
//! generation endpoint accepts.
//!
//! Exactly one transformation fires per call, the first of these whose
//! pattern matches: a trailing `.RELEASE` is removed; a trailing
//! `.BUILD-SNAPSHOT` becomes `-SNAPSHOT`; the first `.M<digit>` becomes
//! `-M<digit>`; the first `.RC<digit>` becomes `-RC<digit>`. An identifier
//! matching none of the patterns passes through unchanged.

use vstd::prelude::*;
use vstd::string::StrSliceExecFns;
use vstd::string::StringExecFns;
use crate::text::ends_with;
use crate::text::str_ends_with;

verus! {

/// An ASCII decimal digit.
pub open spec fn is_digit(c: char) -> bool {
    48 <= c as int && c as int <= 57
}

/// The trailing marker of a general-availability release.
pub open spec fn release_marker() -> Seq<char> {
    seq!['.', 'R', 'E', 'L', 'E', 'A', 'S', 'E']
}

/// The trailing marker of a snapshot build.
pub open spec fn snapshot_marker() -> Seq<char> {
    seq!['.', 'B', 'U', 'I', 'L', 'D', '-', 'S', 'N', 'A', 'P', 'S', 'H', 'O', 'T']
}

/// What a trailing snapshot marker is rewritten to.
pub open spec fn snapshot_replacement() -> Seq<char> {
    seq!['-', 'S', 'N', 'A', 'P', 'S', 'H', 'O', 'T']
}

/// A milestone marker `.M<digit>` starts at position `i` of `s`.
pub open spec fn m_marker_at(s: Seq<char>, i: int) -> bool {
    &&& 0 <= i
    &&& i + 2 < s.len()
    &&& s[i] == '.'
    &&& s[i + 1] == 'M'
    &&& is_digit(s[i + 2])
}

/// A release-candidate marker `.RC<digit>` starts at position `i` of `s`.
pub open spec fn rc_marker_at(s: Seq<char>, i: int) -> bool {
    &&& 0 <= i
    &&& i + 3 < s.len()
    &&& s[i] == '.'
    &&& s[i + 1] == 'R'
    &&& s[i + 2] == 'C'
    &&& is_digit(s[i + 3])
}

/// Position of the first milestone marker at or after `i`, if any.
pub open spec fn find_m_from(s: Seq<char>, i: int) -> Option<int>
    decreases s.len() - i,
{
    if i < 0 || i + 2 >= s.len() {
        None
    } else if m_marker_at(s, i) {
        Some(i)
    } else {
        find_m_from(s, i + 1)
    }
}

/// Position of the first milestone marker of `s`, if any.
pub open spec fn find_m(s: Seq<char>) -> Option<int> {
    find_m_from(s, 0)
}

/// Position of the first release-candidate marker at or after `i`, if any.
pub open spec fn find_rc_from(s: Seq<char>, i: int) -> Option<int>
    decreases s.len() - i,
{
    if i < 0 || i + 3 >= s.len() {
        None
    } else if rc_marker_at(s, i) {
        Some(i)
    } else {
        find_rc_from(s, i + 1)
    }
}

/// Position of the first release-candidate marker of `s`, if any.
pub open spec fn find_rc(s: Seq<char>) -> Option<int> {
    find_rc_from(s, 0)
}

/// What normalization returns: the first matching transformation, applied
/// once, or the input unchanged.
pub open spec fn normalize_spec(s: Seq<char>) -> Seq<char> {
    if ends_with(s, release_marker()) {
        s.take(s.len() - release_marker().len())
    } else if ends_with(s, snapshot_marker()) {
        s.take(s.len() - snapshot_marker().len()) + snapshot_replacement()
    } else if find_m(s) is Some {
        s.update(find_m(s)->Some_0, '-')
    } else if find_rc(s) is Some {
        s.update(find_rc(s)->Some_0, '-')
    } else {
        s
    }
}

proof fn lemma_find_m_from_hit(s: Seq<char>, i: int, k: int)
    requires
        0 <= i <= k,
        m_marker_at(s, k),
        forall|j: int| i <= j < k ==> !m_marker_at(s, j),
    ensures
        find_m_from(s, i) == Some(k),
    decreases k - i,
{
    if i < k {
        lemma_find_m_from_hit(s, i + 1, k);
    }
}

proof fn lemma_find_m_from_miss(s: Seq<char>, i: int)
    requires
        0 <= i,
        forall|j: int| i <= j ==> !m_marker_at(s, j),
    ensures
        find_m_from(s, i) == None::<int>,
    decreases s.len() - i,
{
    if !(i + 2 >= s.len()) {
        lemma_find_m_from_miss(s, i + 1);
    }
}

proof fn lemma_find_rc_from_hit(s: Seq<char>, i: int, k: int)
    requires
        0 <= i <= k,
        rc_marker_at(s, k),
        forall|j: int| i <= j < k ==> !rc_marker_at(s, j),
    ensures
        find_rc_from(s, i) == Some(k),
    decreases k - i,
{
    if i < k {
        lemma_find_rc_from_hit(s, i + 1, k);
    }
}

proof fn lemma_find_rc_from_miss(s: Seq<char>, i: int)
    requires
        0 <= i,
        forall|j: int| i <= j ==> !rc_marker_at(s, j),
    ensures
        find_rc_from(s, i) == None::<int>,
    decreases s.len() - i,
{
    if !(i + 3 >= s.len()) {
        lemma_find_rc_from_miss(s, i + 1);
    }
}

/// No transformation applies to `s`: normalization leaves it unchanged.
pub open spec fn fully_normalized(s: Seq<char>) -> bool {
    &&& !ends_with(s, release_marker())
    &&& !ends_with(s, snapshot_marker())
    &&& find_m(s) is None
    &&& find_rc(s) is None
}

/// A fully normalized identifier passes through unchanged.
pub proof fn lemma_normalize_unmatched(s: Seq<char>)
    requires
        fully_normalized(s),
    ensures
        normalize_spec(s) == s,
{
}

/// An identifier is a fixed point of normalization exactly when no pattern
/// applies to it: every transformation strictly changes its input.
pub proof fn lemma_normalize_fixed_point(s: Seq<char>)
    ensures
        normalize_spec(s) == s <==> fully_normalized(s),
{
    if ends_with(s, release_marker()) {
        assert(normalize_spec(s).len() < s.len());
    } else if ends_with(s, snapshot_marker()) {
        assert(normalize_spec(s).len() != s.len());
    } else if find_m(s) is Some {
        let i = find_m(s)->Some_0;
        lemma_find_m_is_marker(s, 0);
        assert(normalize_spec(s)[i] == '-' && s[i] == '.');
    } else if find_rc(s) is Some {
        let i = find_rc(s)->Some_0;
        lemma_find_rc_is_marker(s, 0);
        assert(normalize_spec(s)[i] == '-' && s[i] == '.');
    }
}

proof fn lemma_find_m_is_marker(s: Seq<char>, i: int)
    requires
        0 <= i,
        find_m_from(s, i) is Some,
    ensures
        m_marker_at(s, find_m_from(s, i)->Some_0),
    decreases s.len() - i,
{
    if !(i + 2 >= s.len()) && !m_marker_at(s, i) {
        lemma_find_m_is_marker(s, i + 1);
    }
}

proof fn lemma_find_rc_is_marker(s: Seq<char>, i: int)
    requires
        0 <= i,
        find_rc_from(s, i) is Some,
    ensures
        rc_marker_at(s, find_rc_from(s, i)->Some_0),
    decreases s.len() - i,
{
    if !(i + 3 >= s.len()) && !rc_marker_at(s, i) {
        lemma_find_rc_is_marker(s, i + 1);
    }
}

/// Normalization is idempotent whenever one pass reaches a fully normalized
/// identifier. (An identifier can carry a second marker that survives the
/// first pass; a second pass then still changes it.)
pub proof fn lemma_normalize_idempotent(s: Seq<char>)
    requires
        fully_normalized(normalize_spec(s)),
    ensures
        normalize_spec(normalize_spec(s)) == normalize_spec(s),
{
    lemma_normalize_unmatched(normalize_spec(s));
}

/// Rewrites a catalog version identifier into the canonical form the
/// generation endpoint expects.
pub fn normalize(raw: &str) -> (r: String)
    ensures
        r@ == normalize_spec(raw@),
{
    proof {
        reveal_strlit(".RELEASE");
        reveal_strlit(".BUILD-SNAPSHOT");
        reveal_strlit("-SNAPSHOT");
        reveal_strlit("-");
        assert(".RELEASE"@ =~= release_marker());
        assert(".BUILD-SNAPSHOT"@ =~= snapshot_marker());
        assert("-SNAPSHOT"@ =~= snapshot_replacement());
    }
    let n = raw.unicode_len();
    if str_ends_with(raw, ".RELEASE") {
        let r = raw.substring_char(0, n - 8).to_owned();
        proof {
            assert(r@ =~= normalize_spec(raw@));
        }
        return r;
    }
    if str_ends_with(raw, ".BUILD-SNAPSHOT") {
        let mut r = raw.substring_char(0, n - 15).to_owned();
        r.append("-SNAPSHOT");
        proof {
            assert(r@ =~= normalize_spec(raw@));
        }
        return r;
    }
    proof {
        assert(!ends_with(raw@, release_marker()));
        assert(!ends_with(raw@, snapshot_marker()));
    }
    if n >= 3 {
        let mut i: usize = 0;
        while i + 2 < n
            invariant
                n == raw@.len(),
                i + 2 <= n,
                forall|j: int| 0 <= j < i ==> !m_marker_at(raw@, j),
            decreases n - i,
        {
            if raw.get_char(i) == '.' && raw.get_char(i + 1) == 'M' {
                let d = raw.get_char(i + 2) as u32;
                if 48 <= d && d <= 57 {
                    proof {
                        lemma_find_m_from_hit(raw@, 0, i as int);
                    }
                    let mut r = raw.substring_char(0, i).to_owned();
                    r.append("-");
                    r.append(raw.substring_char(i + 1, n));
                    proof {
                        assert(r@ =~= raw@.update(i as int, '-'));
                    }
                    return r;
                }
            }
            i = i + 1;
        }
    }
    proof {
        lemma_find_m_from_miss(raw@, 0);
    }
    if n >= 4 {
        let mut i: usize = 0;
        while i + 3 < n
            invariant
                n == raw@.len(),
                i + 3 <= n,
                forall|j: int| 0 <= j < i ==> !rc_marker_at(raw@, j),
            decreases n - i,
        {
            if raw.get_char(i) == '.' && raw.get_char(i + 1) == 'R' && raw.get_char(i + 2) == 'C' {
                let d = raw.get_char(i + 3) as u32;
                if 48 <= d && d <= 57 {
                    proof {
                        lemma_find_rc_from_hit(raw@, 0, i as int);
                    }
                    let mut r = raw.substring_char(0, i).to_owned();
                    r.append("-");
                    r.append(raw.substring_char(i + 1, n));
                    proof {
                        assert(r@ =~= raw@.update(i as int, '-'));
                    }
                    return r;
                }
            }
            i = i + 1;
        }
    }
    proof {
        lemma_find_rc_from_miss(raw@, 0);
    }
    raw.to_owned()
}

} // verus!
