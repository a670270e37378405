//! SQL-style wildcard matching: `%` matches any run of characters,
//! `_` matches exactly one character, everything else matches literally.
//! The match is anchored at both ends.

use vstd::prelude::*;

verus! {

/// Whether pattern `p` matches the whole of text `t`.
pub open spec fn spec_wild_match(p: Seq<char>, t: Seq<char>) -> bool
    decreases p.len(), t.len(),
{
    if p.len() == 0 {
        t.len() == 0
    } else if p[0] == '%' {
        spec_wild_match(p.skip(1), t) || (t.len() > 0 && spec_wild_match(p, t.skip(1)))
    } else if t.len() == 0 {
        false
    } else {
        (p[0] == '_' || p[0] == t[0]) && spec_wild_match(p.skip(1), t.skip(1))
    }
}

/// Matches pattern `p` against the whole of text `t`.
pub fn wild_match(p: &Vec<char>, t: &Vec<char>) -> (r: bool)
    ensures
        r == spec_wild_match(p@, t@),
{
    proof {
        assert(p@.skip(0) =~= p@);
        assert(t@.skip(0) =~= t@);
    }
    wild_match_at(p, t, 0, 0)
}

fn wild_match_at(p: &Vec<char>, t: &Vec<char>, i: usize, j: usize) -> (r: bool)
    requires
        i <= p.len(),
        j <= t.len(),
    ensures
        r == spec_wild_match(p@.skip(i as int), t@.skip(j as int)),
    decreases p.len() - i, t.len() - j,
{
    proof {
        assert(p@.skip(i as int).len() == p@.len() - i);
        assert(t@.skip(j as int).len() == t@.len() - j);
    }
    if i == p.len() {
        j == t.len()
    } else {
        proof {
            assert(p@.skip(i as int)[0] == p@[i as int]);
            assert(p@.skip(i as int).skip(1) =~= p@.skip(i + 1 as int));
        }
        if p[i] == '%' {
            if wild_match_at(p, t, i + 1, j) {
                true
            } else if j < t.len() {
                proof {
                    assert(t@.skip(j as int).skip(1) =~= t@.skip(j + 1 as int));
                }
                wild_match_at(p, t, i, j + 1)
            } else {
                false
            }
        } else if j == t.len() {
            false
        } else {
            proof {
                assert(t@.skip(j as int)[0] == t@[j as int]);
                assert(t@.skip(j as int).skip(1) =~= t@.skip(j + 1 as int));
            }
            if p[i] == '_' || p[i] == t[j] {
                wild_match_at(p, t, i + 1, j + 1)
            } else {
                false
            }
        }
    }
}

} // verus!
