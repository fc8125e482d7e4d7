//! Byte-level text matching primitives: ASCII lower-casing, substring
//! containment and non-overlapping occurrence counting, the operations the
//! scoring rules are built on.

use vstd::prelude::*;

verus! {

/// Lower-case a single byte: ASCII upper-case letters are folded, every other
/// byte is unchanged.
pub open spec fn lower_byte(b: u8) -> u8 {
    if 65 <= b && b <= 90 {
        (b + 32) as u8
    } else {
        b
    }
}

/// ASCII lower-casing of a byte sequence.
pub open spec fn lower(s: Seq<u8>) -> Seq<u8> {
    s.map_values(|b: u8| lower_byte(b))
}

/// The pattern `p` occurs in `s` starting at position `i`.
pub open spec fn match_at(s: Seq<u8>, p: Seq<u8>, i: int) -> bool {
    0 <= i && i + p.len() <= s.len() && s.subrange(i, i + p.len() as int) == p
}

/// The pattern `p` occurs somewhere in `s`.
pub open spec fn contains_seq(s: Seq<u8>, p: Seq<u8>) -> bool {
    exists|i: int| match_at(s, p, i)
}

/// Number of non-overlapping occurrences of `p` in `s`, scanning left to
/// right, as `str::matches` counts them. An empty pattern counts as zero.
pub open spec fn count_matches(s: Seq<u8>, p: Seq<u8>) -> nat
    decreases s.len(),
{
    if p.len() == 0 || s.len() < p.len() {
        0
    } else if s.subrange(0, p.len() as int) == p {
        1 + count_matches(s.skip(p.len() as int), p)
    } else {
        count_matches(s.skip(1), p)
    }
}

/// Lower-case every byte of `s`.
pub fn lower_bytes(s: &[u8]) -> (r: Vec<u8>)
    ensures
        r@ == lower(s@),
{
    let mut r: Vec<u8> = Vec::new();
    let mut i: usize = 0;
    while i < s.len()
        invariant
            i <= s@.len(),
            r@ == lower(s@.subrange(0, i as int)),
        decreases s@.len() - i,
    {
        let b = s[i];
        let lb: u8 = if 65 <= b && b <= 90 {
            b + 32
        } else {
            b
        };
        r.push(lb);
        i = i + 1;
        proof {
            assert(lower(s@.subrange(0, i as int)) =~= lower(
                s@.subrange(0, i - 1),
            ).push(lower_byte(s@[i - 1])));
        }
    }
    proof {
        assert(s@.subrange(0, s@.len() as int) =~= s@);
    }
    r
}

/// Does `p` occur in `s` at position `i`?
fn match_at_exec(s: &[u8], p: &[u8], i: usize) -> (r: bool)
    requires
        i + p@.len() <= s@.len(),
    ensures
        r == match_at(s@, p@, i as int),
{
    let slen = s.len();
    let mut j: usize = 0;
    while j < p.len()
        invariant
            j <= p@.len(),
            i + p@.len() <= s@.len(),
            slen == s@.len(),
            forall|k: int| 0 <= k < j ==> s@[i + k] == p@[k],
        decreases p@.len() - j,
    {
        if s[i + j] != p[j] {
            proof {
                assert(s@.subrange(i as int, i + p@.len() as int) != p@) by {
                    assert(s@.subrange(i as int, i + p@.len() as int)[j as int] == s@[i + j]);
                }
            }
            return false;
        }
        j = j + 1;
    }
    proof {
        assert(s@.subrange(i as int, i + p@.len() as int) =~= p@);
    }
    true
}

/// Does `p` occur anywhere in `s`?
pub fn contains_bytes(s: &[u8], p: &[u8]) -> (r: bool)
    ensures
        r == contains_seq(s@, p@),
{
    if p.len() > s.len() {
        proof {
            assert(forall|i: int| !match_at(s@, p@, i));
        }
        return false;
    }
    if p.len() == 0 {
        proof {
            assert(s@.subrange(0, 0) =~= p@);
            assert(match_at(s@, p@, 0));
        }
        return true;
    }
    let last = s.len() - p.len();
    let mut i: usize = 0;
    while i <= last
        invariant
            0 < p@.len() <= s@.len(),
            s@.len() <= usize::MAX,
            last == s@.len() - p@.len(),
            i <= last + 1,
            forall|k: int| 0 <= k < i ==> !match_at(s@, p@, k),
        decreases last + 1 - i,
    {
        if match_at_exec(s, p, i) {
            proof {
                assert(match_at(s@, p@, i as int));
            }
            return true;
        }
        i = i + 1;
    }
    proof {
        assert(forall|k: int| k > last ==> !match_at(s@, p@, k));
        assert(forall|k: int| !match_at(s@, p@, k));
    }
    false
}

/// Unfolding step of `count_matches` at a matching position: the count over
/// the suffix at `i` is one more than the count past the match.
proof fn lemma_count_step_match(s: Seq<u8>, p: Seq<u8>, i: int)
    requires
        p.len() > 0,
        0 <= i,
        i + p.len() <= s.len(),
        s.subrange(i, i + p.len() as int) == p,
    ensures
        count_matches(s.skip(i), p) == 1 + count_matches(s.skip(i + p.len() as int), p),
{
    assert(s.skip(i).subrange(0, p.len() as int) =~= s.subrange(i, i + p.len() as int));
    assert(s.skip(i).skip(p.len() as int) =~= s.skip(i + p.len() as int));
}

/// Unfolding step of `count_matches` at a non-matching position.
proof fn lemma_count_step_miss(s: Seq<u8>, p: Seq<u8>, i: int)
    requires
        p.len() > 0,
        0 <= i,
        i + p.len() <= s.len(),
        s.subrange(i, i + p.len() as int) != p,
    ensures
        count_matches(s.skip(i), p) == count_matches(s.skip(i + 1), p),
{
    assert(s.skip(i).subrange(0, p.len() as int) =~= s.subrange(i, i + p.len() as int));
    assert(s.skip(i).skip(1) =~= s.skip(i + 1));
}

/// Number of non-overlapping occurrences of `p` in `s`.
pub fn count_occurrences(s: &[u8], p: &[u8]) -> (r: usize)
    ensures
        r as nat == count_matches(s@, p@),
{
    if p.len() == 0 || p.len() > s.len() {
        return 0;
    }
    let last = s.len() - p.len();
    let mut i: usize = 0;
    let mut c: usize = 0;
    proof {
        assert(s@.skip(0) =~= s@);
    }
    while i <= last
        invariant
            0 < p@.len() <= s@.len(),
            s@.len() <= usize::MAX,
            last == s@.len() - p@.len(),
            i <= last + p@.len(),
            c <= i,
            count_matches(s@, p@) == c + count_matches(s@.skip(i as int), p@),
        decreases s@.len() - i,
    {
        if match_at_exec(s, p, i) {
            proof {
                lemma_count_step_match(s@, p@, i as int);
            }
            c = c + 1;
            i = i + p.len();
        } else {
            proof {
                lemma_count_step_miss(s@, p@, i as int);
            }
            i = i + 1;
        }
    }
    proof {
        assert(s@.skip(i as int).len() < p@.len());
        assert(count_matches(s@.skip(i as int), p@) == 0);
    }
    c
}

/// Appending text cannot remove occurrences: every match found before the
/// extension is still found, at the same position.
pub proof fn lemma_count_append(s: Seq<u8>, x: Seq<u8>, p: Seq<u8>)
    ensures
        count_matches(s + x, p) >= count_matches(s, p),
    decreases s.len(),
{
    if p.len() == 0 || s.len() < p.len() {
    } else {
        assert((s + x).subrange(0, p.len() as int) =~= s.subrange(0, p.len() as int));
        if s.subrange(0, p.len() as int) == p {
            assert((s + x).skip(p.len() as int) =~= s.skip(p.len() as int) + x);
            lemma_count_append(s.skip(p.len() as int), x, p);
        } else {
            assert((s + x).skip(1) =~= s.skip(1) + x);
            lemma_count_append(s.skip(1), x, p);
        }
    }
}

/// Containment is preserved when more text is appended.
pub proof fn lemma_contains_append(s: Seq<u8>, t: Seq<u8>, p: Seq<u8>)
    requires
        contains_seq(s, p),
    ensures
        contains_seq(s + t, p),
{
    let i = choose|i: int| match_at(s, p, i);
    assert((s + t).subrange(i, i + p.len() as int) =~= s.subrange(i, i + p.len() as int));
    assert(match_at(s + t, p, i));
}

/// Lower-casing distributes over concatenation.
pub proof fn lemma_lower_append(s: Seq<u8>, t: Seq<u8>)
    ensures
        lower(s + t) == lower(s) + lower(t),
{
    assert(lower(s + t) =~= lower(s) + lower(t));
}

} // verus!
