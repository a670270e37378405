//! Character-level editing of tag text: inserting, replacing, removing and
//! truncating. All positions and lengths count characters, and the
//! case-insensitive variants work on what `str::to_lowercase` returns.

use vstd::prelude::*;

use crate::strings::{from_chars, lower_of, lowercase, to_chars};
use vstd::string::StrSliceExecFns;

verus! {

/// Appends `src[from..to]` to `dst`.
fn append_range(dst: &mut Vec<char>, src: &Vec<char>, from: usize, to: usize)
    requires
        from <= to <= src@.len(),
    ensures
        final(dst)@ == old(dst)@ + src@.subrange(from as int, to as int),
{
    let mut k = from;
    while k < to
        invariant
            from <= k <= to <= src@.len(),
            dst@ =~= old(dst)@ + src@.subrange(from as int, k as int),
        decreases to - k,
    {
        dst.push(src[k]);
        proof {
            assert(src@.subrange(from as int, k + 1 as int) =~= src@.subrange(
                from as int,
                k as int,
            ).push(src@[k as int]));
        }
        k = k + 1;
    }
}

/// Whether `pat` occurs in `s` at position `i`.
pub open spec fn spec_match_at(s: Seq<char>, pat: Seq<char>, i: int) -> bool {
    i + pat.len() <= s.len() && s.subrange(i, i + pat.len()) == pat
}

fn match_at(s: &Vec<char>, pat: &Vec<char>, i: usize) -> (r: bool)
    requires
        i + pat@.len() <= s@.len(),
    ensures
        r == spec_match_at(s@, pat@, i as int),
{
    let m = pat.len();
    let n = s.len();
    let mut k: usize = 0;
    while k < m
        invariant
            k <= m,
            i + m <= n,
            n == s@.len(),
            m == pat@.len(),
            forall|q: int| 0 <= q < k ==> s@[i + q] == pat@[q],
        decreases m - k,
    {
        if s[i + k] != pat[k] {
            proof {
                assert(s@.subrange(i as int, i + m as int)[k as int] != pat@[k as int]);
            }
            return false;
        }
        k = k + 1;
    }
    proof {
        assert(s@.subrange(i as int, i + m as int) =~= pat@);
    }
    true
}

/// The first position at or after `i` where `pat` occurs in `s`.
pub open spec fn spec_find_at(s: Seq<char>, pat: Seq<char>, i: int) -> Option<int>
    decreases s.len() - i,
{
    if i < 0 || i + pat.len() > s.len() {
        None
    } else if pat.len() == 0 {
        Some(i)
    } else if spec_match_at(s, pat, i) {
        Some(i)
    } else {
        spec_find_at(s, pat, i + 1)
    }
}

/// The first occurrence of `pat` in `s`.
pub open spec fn spec_find(s: Seq<char>, pat: Seq<char>) -> Option<int> {
    spec_find_at(s, pat, 0)
}

/// The start of the last occurrence of `pat` in `s`, searching down from `i`.
pub open spec fn spec_rfind_at(s: Seq<char>, pat: Seq<char>, i: int) -> Option<int>
    decreases i + 1,
{
    if i < 0 || i + pat.len() > s.len() {
        None
    } else if spec_match_at(s, pat, i) {
        Some(i)
    } else {
        spec_rfind_at(s, pat, i - 1)
    }
}

/// The last occurrence of `pat` in `s`.
pub open spec fn spec_rfind(s: Seq<char>, pat: Seq<char>) -> Option<int> {
    if pat.len() > s.len() {
        None
    } else {
        spec_rfind_at(s, pat, s.len() - pat.len())
    }
}

fn find_first(s: &Vec<char>, pat: &Vec<char>) -> (r: Option<usize>)
    ensures
        match r {
            Some(p) => spec_find(s@, pat@) == Some(p as int),
            None => spec_find(s@, pat@) is None,
        },
{
    if pat.len() > s.len() {
        return None;
    }
    if pat.len() == 0 {
        return Some(0);
    }
    let bound = s.len() - pat.len();
    let mut i: usize = 0;
    loop
        invariant
            0 <= i <= bound,
            bound == s@.len() - pat@.len(),
            0 < pat@.len() <= s@.len(),
            spec_find(s@, pat@) == spec_find_at(s@, pat@, i as int),
        decreases bound - i,
    {
        if match_at(s, pat, i) {
            return Some(i);
        }
        proof {
            assert(spec_find_at(s@, pat@, i as int) == spec_find_at(s@, pat@, i + 1 as int));
        }
        if i == bound {
            proof {
                assert(spec_find_at(s@, pat@, i + 1 as int) is None);
            }
            return None;
        }
        i = i + 1;
    }
}

fn find_last(s: &Vec<char>, pat: &Vec<char>) -> (r: Option<usize>)
    ensures
        match r {
            Some(p) => spec_rfind(s@, pat@) == Some(p as int),
            None => spec_rfind(s@, pat@) is None,
        },
{
    if pat.len() > s.len() {
        return None;
    }
    let mut i: usize = s.len() - pat.len();
    loop
        invariant
            0 <= i <= s@.len() - pat@.len(),
            pat@.len() <= s@.len(),
            spec_rfind(s@, pat@) == spec_rfind_at(s@, pat@, i as int),
        decreases i + 1,
    {
        if match_at(s, pat, i) {
            return Some(i);
        }
        proof {
            assert(spec_rfind_at(s@, pat@, i as int) == spec_rfind_at(s@, pat@, i - 1));
        }
        if i == 0 {
            return None;
        }
        i = i - 1;
    }
}


/// The result of inserting `addend` after `insert_pos` characters.
pub open spec fn spec_insert_res(orig: Seq<char>, pos: int, addend: Seq<char>) -> Option<
    Seq<char>,
> {
    if pos <= orig.len() {
        Some(orig.take(pos) + addend + orig.skip(pos))
    } else {
        None
    }
}

/// The result of inserting `addend` before the last `pos` characters.
pub open spec fn spec_append_res(orig: Seq<char>, pos: int, addend: Seq<char>) -> Option<
    Seq<char>,
> {
    if pos <= orig.len() {
        Some(orig.take(orig.len() - pos) + addend + orig.skip(orig.len() - pos))
    } else {
        None
    }
}

/// The result of replacing every occurrence of `from`. The case-insensitive
/// walk needs lowercasing to keep the character count; otherwise the text
/// comes back unchanged.
pub open spec fn spec_replaced_any_res(
    cur: Seq<char>,
    from: Seq<char>,
    to: Seq<char>,
    ignore_case: bool,
) -> Seq<char> {
    if !ignore_case {
        spec_replace_all(cur, from, to)
    } else if lower_of(cur).len() == cur.len() {
        spec_replace_all_ci(cur, lower_of(cur), lower_of(from), to)
    } else {
        cur
    }
}

/// The result of replacing a leading occurrence of `from`.
pub open spec fn spec_replaced_beginning_res(
    orig: Seq<char>,
    from: Seq<char>,
    to: Seq<char>,
    ignore_case: bool,
) -> Option<Seq<char>> {
    let found = if ignore_case {
        spec_match_at(lower_of(orig), lower_of(from), 0)
    } else {
        spec_match_at(orig, from, 0)
    };
    if from.len() <= orig.len() && found {
        Some(to + orig.skip(from.len() as int))
    } else {
        None
    }
}

/// The result of replacing a trailing occurrence of `from`.
pub open spec fn spec_replaced_end_res(
    orig: Seq<char>,
    from: Seq<char>,
    to: Seq<char>,
    ignore_case: bool,
) -> Option<Seq<char>> {
    let found = if ignore_case {
        lower_of(from).len() <= lower_of(orig).len() && spec_match_at(
            lower_of(orig),
            lower_of(from),
            lower_of(orig).len() - lower_of(from).len(),
        )
    } else {
        spec_match_at(orig, from, orig.len() - from.len())
    };
    if from.len() <= orig.len() && found {
        Some(orig.take(orig.len() - from.len()) + to)
    } else {
        None
    }
}

/// The result of replacing the first occurrence of `from`: the occurrence
/// is located in the lowercased text when `ignore_case` is set, and the
/// replacement spans `from`'s character count in the original.
pub open spec fn spec_replaced_first_res(
    orig: Seq<char>,
    from: Seq<char>,
    to: Seq<char>,
    ignore_case: bool,
) -> Option<Seq<char>> {
    let found = if ignore_case {
        spec_find(lower_of(orig), lower_of(from))
    } else {
        spec_find(orig, from)
    };
    match found {
        Some(p) => if p + from.len() <= orig.len() {
            Some(spec_replaced_one(orig, p, from.len() as int, to))
        } else {
            None
        },
        None => None,
    }
}

/// The result of replacing the last occurrence of `from`, under the same
/// rules as the first-occurrence replacement.
pub open spec fn spec_replaced_last_res(
    orig: Seq<char>,
    from: Seq<char>,
    to: Seq<char>,
    ignore_case: bool,
) -> Option<Seq<char>> {
    let found = if ignore_case {
        spec_rfind(lower_of(orig), lower_of(from))
    } else {
        spec_rfind(orig, from)
    };
    match found {
        Some(p) => if p + from.len() <= orig.len() {
            Some(spec_replaced_one(orig, p, from.len() as int, to))
        } else {
            None
        },
        None => None,
    }
}

/// The result of removing between two offsets counted from the beginning.
pub open spec fn spec_remove_beginning_res(orig: Seq<char>, begin: int, end: Option<int>) -> Option<
    Seq<char>,
> {
    if begin <= orig.len() {
        match end {
            Some(e) => if e < orig.len() {
                if begin <= e {
                    Some(orig.take(begin) + orig.skip(e))
                } else {
                    None
                }
            } else {
                Some(orig.take(begin))
            },
            None => Some(orig.take(begin)),
        }
    } else {
        None
    }
}

/// The result of removing between two offsets counted from the end.
pub open spec fn spec_remove_end_res(orig: Seq<char>, begin: int, end: Option<int>) -> Option<
    Seq<char>,
> {
    if begin <= orig.len() {
        match end {
            Some(e) => if e < orig.len() {
                if begin <= e {
                    Some(orig.take(orig.len() - e) + orig.skip(orig.len() - begin))
                } else {
                    None
                }
            } else {
                Some(orig.skip(orig.len() - begin))
            },
            None => Some(orig.skip(orig.len() - begin)),
        }
    } else {
        None
    }
}

/// Inserts `addend` after the first `insert_pos` characters, or nothing
/// when the position lies past the end.
pub fn get_insert_from_beginning(original: &str, insert_pos: usize, addend: &str) -> (r: Option<
    String,
>)
    ensures
        match r {
            Some(s) => spec_insert_res(original@, insert_pos as int, addend@) == Some(s@),
            None => spec_insert_res(original@, insert_pos as int, addend@) is None,
        },
{
    let chars = to_chars(original);
    if insert_pos <= chars.len() {
        let add = to_chars(addend);
        let mut v: Vec<char> = Vec::new();
        append_range(&mut v, &chars, 0, insert_pos);
        append_range(&mut v, &add, 0, add.len());
        append_range(&mut v, &chars, insert_pos, chars.len());
        proof {
            assert(add@.subrange(0, add@.len() as int) =~= add@);
            assert(chars@.subrange(0, insert_pos as int) =~= original@.take(insert_pos as int));
            assert(chars@.subrange(insert_pos as int, chars@.len() as int) =~= original@.skip(
                insert_pos as int,
            ));
        }
        Some(from_chars(&v))
    } else {
        None
    }
}

/// Inserts `addend` before the last `append_pos` characters, or nothing
/// when the position lies past the beginning.
pub fn get_append_from_end(original: &str, append_pos: usize, addend: &str) -> (r: Option<String>)
    ensures
        match r {
            Some(s) => spec_append_res(original@, append_pos as int, addend@) == Some(s@),
            None => spec_append_res(original@, append_pos as int, addend@) is None,
        },
{
    let chars = to_chars(original);
    let len = chars.len();
    if append_pos <= len {
        let begin = len - append_pos;
        let add = to_chars(addend);
        let mut v: Vec<char> = Vec::new();
        append_range(&mut v, &chars, 0, begin);
        append_range(&mut v, &add, 0, add.len());
        append_range(&mut v, &chars, begin, len);
        proof {
            assert(add@.subrange(0, add@.len() as int) =~= add@);
            assert(chars@.subrange(0, begin as int) =~= original@.take(begin as int));
            assert(chars@.subrange(begin as int, chars@.len() as int) =~= original@.skip(
                begin as int,
            ));
        }
        Some(from_chars(&v))
    } else {
        None
    }
}

/// Every non-overlapping occurrence of `from` in `s` replaced by `to`, left
/// to right. An empty `from` matches at every position, as `str::replace`
/// has it.
pub open spec fn spec_replace_all(s: Seq<char>, from: Seq<char>, to: Seq<char>) -> Seq<char>
    decreases s.len(),
{
    if from.len() == 0 {
        if s.len() == 0 {
            to
        } else {
            to + seq![s[0]] + spec_replace_all(s.skip(1), from, to)
        }
    } else if s.len() < from.len() {
        s
    } else if s.take(from.len() as int) == from {
        to + spec_replace_all(s.skip(from.len() as int), from, to)
    } else {
        seq![s[0]] + spec_replace_all(s.skip(1), from, to)
    }
}

/// Case-insensitive replacement: `ls` is the lowercased form of `s`,
/// character for character, and `lf` the lowercased query. Occurrences are
/// located in `ls`; the replacement output takes its untouched characters
/// from `s`.
pub open spec fn spec_replace_all_ci(
    s: Seq<char>,
    ls: Seq<char>,
    lf: Seq<char>,
    to: Seq<char>,
) -> Seq<char>
    decreases s.len(),
{
    if lf.len() == 0 {
        if s.len() == 0 {
            to
        } else {
            to + seq![s[0]] + spec_replace_all_ci(s.skip(1), ls.skip(1), lf, to)
        }
    } else if s.len() < lf.len() {
        s
    } else if ls.take(lf.len() as int) == lf {
        to + spec_replace_all_ci(
            s.skip(lf.len() as int),
            ls.skip(lf.len() as int),
            lf,
            to,
        )
    } else {
        seq![s[0]] + spec_replace_all_ci(s.skip(1), ls.skip(1), lf, to)
    }
}

fn replace_all_chars(s: &Vec<char>, ls: &Vec<char>, lf: &Vec<char>, to: &Vec<char>, ci: bool) -> (r:
    Vec<char>)
    requires
        s@.len() == ls@.len(),
    ensures
        ci ==> r@ == spec_replace_all_ci(s@, ls@, lf@, to@),
        !ci && s@ == ls@ ==> r@ == spec_replace_all(s@, lf@, to@),
    decreases s@.len(),
{
    proof {
        if s@ == ls@ {
            lemma_replace_ci_plain(s@, ls@, lf@, to@);
        }
    }
    let mut v: Vec<char> = Vec::new();
    if lf.len() == 0 {
        append_range(&mut v, to, 0, to.len());
        if s.len() > 0 {
            v.push(s[0]);
            let s1 = tail_of(s);
            let ls1 = tail_of(ls);
            let rest = replace_all_chars(&s1, &ls1, lf, to, ci);
            append_range(&mut v, &rest, 0, rest.len());
            proof {
                assert(to@.subrange(0, to@.len() as int) =~= to@);
                assert(rest@.subrange(0, rest@.len() as int) =~= rest@);
                assert(v@ =~= to@ + seq![s@[0]] + rest@);
            }
        } else {
            proof {
                assert(to@.subrange(0, to@.len() as int) =~= to@);
                assert(v@ =~= to@);
            }
        }
        v
    } else if s.len() < lf.len() {
        append_range(&mut v, s, 0, s.len());
        proof {
            assert(s@.subrange(0, s@.len() as int) =~= s@);
            assert(v@ =~= s@);
        }
        v
    } else if match_at(ls, lf, 0) {
        let m = lf.len();
        let s1 = skip_of(s, m);
        let ls1 = skip_of(ls, m);
        let rest = replace_all_chars(&s1, &ls1, lf, to, ci);
        append_range(&mut v, to, 0, to.len());
        append_range(&mut v, &rest, 0, rest.len());
        proof {
            assert(ls@.subrange(0, m as int) =~= ls@.take(m as int));
            assert(to@.subrange(0, to@.len() as int) =~= to@);
            assert(rest@.subrange(0, rest@.len() as int) =~= rest@);
            assert(v@ =~= to@ + rest@);
            assert(to@ + rest@ =~= (to@ + rest@));
            if ci {
                assert(spec_replace_all_ci(s@, ls@, lf@, to@) == to@ + spec_replace_all_ci(
                    s@.skip(m as int),
                    ls@.skip(m as int),
                    lf@,
                    to@,
                ));
                assert(v@ =~= spec_replace_all_ci(s@, ls@, lf@, to@));
            }
            if !ci && s@ == ls@ {
                assert(v@ =~= spec_replace_all(s@, lf@, to@));
            }
        }
        v
    } else {
        v.push(s[0]);
        let s1 = tail_of(s);
        let ls1 = tail_of(ls);
        let rest = replace_all_chars(&s1, &ls1, lf, to, ci);
        append_range(&mut v, &rest, 0, rest.len());
        proof {
            assert(ls@.subrange(0, lf@.len() as int) =~= ls@.take(lf@.len() as int));
            assert(rest@.subrange(0, rest@.len() as int) =~= rest@);
            assert(v@ =~= seq![s@[0]] + rest@);
        }
        v
    }
}

/// With `s == ls`, the case-insensitive walk computes the plain replacement.
proof fn lemma_replace_ci_plain(s: Seq<char>, ls: Seq<char>, lf: Seq<char>, to: Seq<char>)
    requires
        s == ls,
    ensures
        spec_replace_all_ci(s, ls, lf, to) == spec_replace_all(s, lf, to),
    decreases s.len(),
{
    if lf.len() == 0 {
        if s.len() > 0 {
            lemma_replace_ci_plain(s.skip(1), ls.skip(1), lf, to);
        }
    } else if s.len() < lf.len() {
    } else if ls.take(lf.len() as int) == lf {
        lemma_replace_ci_plain(s.skip(lf.len() as int), ls.skip(lf.len() as int), lf, to);
    } else {
        lemma_replace_ci_plain(s.skip(1), ls.skip(1), lf, to);
    }
}

fn tail_of(s: &Vec<char>) -> (r: Vec<char>)
    requires
        s@.len() > 0,
    ensures
        r@ == s@.skip(1),
{
    let mut r: Vec<char> = Vec::new();
    append_range(&mut r, s, 1, s.len());
    proof {
        assert(s@.subrange(1, s@.len() as int) =~= s@.skip(1));
    }
    r
}

fn skip_of(s: &Vec<char>, k: usize) -> (r: Vec<char>)
    requires
        k <= s@.len(),
    ensures
        r@ == s@.skip(k as int),
{
    let mut r: Vec<char> = Vec::new();
    append_range(&mut r, s, k, s.len());
    proof {
        assert(s@.subrange(k as int, s@.len() as int) =~= s@.skip(k as int));
    }
    r
}

/// Replaces every occurrence of `from`, matching case-insensitively when
/// `ignore_case` is set. The case-insensitive walk requires lowercasing to
/// keep the character count; when it does not, the text is returned
/// unchanged.
pub fn get_replaced_any(current: &str, from: &str, to: &str, ignore_case: bool) -> (r: Option<
    String,
>)
    ensures
        match r {
            Some(s) => s@ == spec_replaced_any_res(current@, from@, to@, ignore_case),
            None => false,
        },
{
    let cur = to_chars(current);
    let tov = to_chars(to);
    if !ignore_case {
        let f = to_chars(from);
        let v = replace_all_chars(&cur, &cur, &f, &tov, false);
        Some(from_chars(&v))
    } else {
        let lc = lowercase(current);
        let lcv = to_chars(lc.as_str());
        if lcv.len() == cur.len() {
            let lf = lowercase(from);
            let lfv = to_chars(lf.as_str());
            let v = replace_all_chars(&cur, &lcv, &lfv, &tov, true);
            Some(from_chars(&v))
        } else {
            Some(from_chars(&cur))
        }
    }
}

/// Replaces a leading occurrence of `from` by `to`. `None` when `original`
/// does not start with `from` (under the requested case-sensitivity), or
/// when `from` is longer than `original`.
pub fn get_replaced_beginning(original: &str, from: &str, to: &str, ignore_case: bool) -> (r:
    Option<String>)
    ensures
        match r {
            Some(s) => spec_replaced_beginning_res(original@, from@, to@, ignore_case) == Some(
                s@,
            ),
            None => spec_replaced_beginning_res(original@, from@, to@, ignore_case) is None,
        },
{
    let orig = to_chars(original);
    let fv = to_chars(from);
    let found: bool = if ignore_case {
        let lo = lowercase(original);
        let lf = lowercase(from);
        let lov = to_chars(lo.as_str());
        let lfv = to_chars(lf.as_str());
        if lfv.len() <= lov.len() {
            match_at(&lov, &lfv, 0)
        } else {
            false
        }
    } else {
        if fv.len() <= orig.len() {
            match_at(&orig, &fv, 0)
        } else {
            false
        }
    };
    if found && fv.len() <= orig.len() {
        let tov = to_chars(to);
        let mut v: Vec<char> = Vec::new();
        append_range(&mut v, &tov, 0, tov.len());
        append_range(&mut v, &orig, fv.len(), orig.len());
        proof {
            assert(tov@.subrange(0, tov@.len() as int) =~= tov@);
            assert(orig@.subrange(fv@.len() as int, orig@.len() as int) =~= original@.skip(
                fv@.len() as int,
            ));
        }
        Some(from_chars(&v))
    } else {
        None
    }
}

/// Replaces a trailing occurrence of `from` by `to`. `None` when `original`
/// does not end with `from` (under the requested case-sensitivity), or when
/// `from` is longer than `original`.
pub fn get_replaced_end(original: &str, from: &str, to: &str, ignore_case: bool) -> (r: Option<
    String,
>)
    ensures
        match r {
            Some(s) => spec_replaced_end_res(original@, from@, to@, ignore_case) == Some(s@),
            None => spec_replaced_end_res(original@, from@, to@, ignore_case) is None,
        },
{
    let orig = to_chars(original);
    let fv = to_chars(from);
    let found: bool = if ignore_case {
        let lo = lowercase(original);
        let lf = lowercase(from);
        let lov = to_chars(lo.as_str());
        let lfv = to_chars(lf.as_str());
        if lfv.len() <= lov.len() {
            match_at(&lov, &lfv, lov.len() - lfv.len())
        } else {
            false
        }
    } else {
        if fv.len() <= orig.len() {
            match_at(&orig, &fv, orig.len() - fv.len())
        } else {
            false
        }
    };
    if found && fv.len() <= orig.len() {
        let tov = to_chars(to);
        let cut = orig.len() - fv.len();
        let mut v: Vec<char> = Vec::new();
        append_range(&mut v, &orig, 0, cut);
        append_range(&mut v, &tov, 0, tov.len());
        proof {
            assert(tov@.subrange(0, tov@.len() as int) =~= tov@);
            assert(orig@.subrange(0, cut as int) =~= original@.take(cut as int));
        }
        Some(from_chars(&v))
    } else {
        None
    }
}

/// The replacement `original[..pos] + to + original[pos + from_len..]`, the
/// shared step of the first/last replacements.
pub open spec fn spec_replaced_one(
    original: Seq<char>,
    pos: int,
    from_len: int,
    to: Seq<char>,
) -> Seq<char> {
    original.take(pos) + to + original.skip(pos + from_len)
}

fn replaced_one(orig: &Vec<char>, pos: usize, from_len: usize, tov: &Vec<char>) -> (r: Vec<char>)
    requires
        pos + from_len <= orig@.len(),
    ensures
        r@ == spec_replaced_one(orig@, pos as int, from_len as int, tov@),
{
    let n = orig.len();
    let mut v: Vec<char> = Vec::new();
    append_range(&mut v, orig, 0, pos);
    append_range(&mut v, tov, 0, tov.len());
    let cut = pos + from_len;
    append_range(&mut v, orig, cut, n);
    proof {
        assert(orig@.subrange(0, pos as int) =~= orig@.take(pos as int));
        assert(tov@.subrange(0, tov@.len() as int) =~= tov@);
        assert(orig@.subrange(pos + from_len as int, orig@.len() as int) =~= orig@.skip(
            pos + from_len,
        ));
    }
    v
}

/// Replaces the first occurrence of `from`. The occurrence is located in
/// the lowercased text when `ignore_case` is set, and the replacement spans
/// `from`'s character count in the original; `None` when there is no
/// occurrence or the span would not fit.
pub fn get_replaced_first(original: &str, from: &str, to: &str, ignore_case: bool) -> (r: Option<
    String,
>)
    ensures
        match r {
            Some(s) => spec_replaced_first_res(original@, from@, to@, ignore_case) == Some(s@),
            None => spec_replaced_first_res(original@, from@, to@, ignore_case) is None,
        },
{
    let orig = to_chars(original);
    let fv = to_chars(from);
    let pos: Option<usize> = if ignore_case {
        let lo = lowercase(original);
        let lf = lowercase(from);
        let lov = to_chars(lo.as_str());
        let lfv = to_chars(lf.as_str());
        find_first(&lov, &lfv)
    } else {
        find_first(&orig, &fv)
    };
    match pos {
        Some(p) => {
            if p <= orig.len() && fv.len() <= orig.len() - p {
                let tov = to_chars(to);
                let v = replaced_one(&orig, p, fv.len(), &tov);
                Some(from_chars(&v))
            } else {
                None
            }
        },
        None => None,
    }
}

/// Replaces the last occurrence of `from`, under the same rules as the
/// first-occurrence replacement.
pub fn get_replaced_last(original: &str, from: &str, to: &str, ignore_case: bool) -> (r: Option<
    String,
>)
    ensures
        match r {
            Some(s) => spec_replaced_last_res(original@, from@, to@, ignore_case) == Some(s@),
            None => spec_replaced_last_res(original@, from@, to@, ignore_case) is None,
        },
{
    let orig = to_chars(original);
    let fv = to_chars(from);
    let pos: Option<usize> = if ignore_case {
        let lo = lowercase(original);
        let lf = lowercase(from);
        let lov = to_chars(lo.as_str());
        let lfv = to_chars(lf.as_str());
        find_last(&lov, &lfv)
    } else {
        find_last(&orig, &fv)
    };
    match pos {
        Some(p) => {
            if p <= orig.len() && fv.len() <= orig.len() - p {
                let tov = to_chars(to);
                let v = replaced_one(&orig, p, fv.len(), &tov);
                Some(from_chars(&v))
            } else {
                None
            }
        },
        None => None,
    }
}

/// Removes the characters between the offsets, both counted from the
/// beginning; an absent or past-the-end second offset removes to the end.
/// Equal offsets remove nothing; crossed offsets or a first offset past the
/// end yield `None`.
pub fn get_remove_from_beginning(original: &str, begin: usize, end: &Option<usize>) -> (r: Option<
    String,
>)
    ensures
        match (r, end) {
            (Some(s), Some(e)) => spec_remove_beginning_res(original@, begin as int, Some(*e as int))
                == Some(s@),
            (Some(s), None) => spec_remove_beginning_res(original@, begin as int, None) == Some(
                s@,
            ),
            (None, Some(e)) => spec_remove_beginning_res(
                original@,
                begin as int,
                Some(*e as int),
            ) is None,
            (None, None) => spec_remove_beginning_res(original@, begin as int, None) is None,
        },
{
    let chars = to_chars(original);
    let len = chars.len();
    if begin <= len {
        match end {
            Some(e) => {
                if *e < len {
                    if begin < *e {
                        let mut v: Vec<char> = Vec::new();
                        append_range(&mut v, &chars, 0, begin);
                        append_range(&mut v, &chars, *e, len);
                        proof {
                            assert(chars@.subrange(0, begin as int) =~= original@.take(
                                begin as int,
                            ));
                            assert(chars@.subrange(*e as int, len as int) =~= original@.skip(
                                *e as int,
                            ));
                        }
                        Some(from_chars(&v))
                    } else if begin == *e {
                        proof {
                            assert(original@.take(begin as int) + original@.skip(*e as int)
                                =~= original@);
                        }
                        let v = to_chars(original);
                        Some(from_chars(&v))
                    } else {
                        None
                    }
                } else {
                    let mut v: Vec<char> = Vec::new();
                    append_range(&mut v, &chars, 0, begin);
                    proof {
                        assert(chars@.subrange(0, begin as int) =~= original@.take(begin as int));
                    }
                    Some(from_chars(&v))
                }
            },
            None => {
                let mut v: Vec<char> = Vec::new();
                append_range(&mut v, &chars, 0, begin);
                proof {
                    assert(chars@.subrange(0, begin as int) =~= original@.take(begin as int));
                }
                Some(from_chars(&v))
            },
        }
    } else {
        None
    }
}

/// Removes the characters between the offsets, both counted from the end;
/// an absent or past-the-end second offset removes to the beginning.
pub fn get_remove_from_end(original: &str, begin: usize, end: &Option<usize>) -> (r: Option<
    String,
>)
    ensures
        match (r, end) {
            (Some(s), Some(e)) => spec_remove_end_res(original@, begin as int, Some(*e as int))
                == Some(s@),
            (Some(s), None) => spec_remove_end_res(original@, begin as int, None) == Some(s@),
            (None, Some(e)) => spec_remove_end_res(original@, begin as int, Some(*e as int)) is None,
            (None, None) => spec_remove_end_res(original@, begin as int, None) is None,
        },
{
    let chars = to_chars(original);
    let len = chars.len();
    if begin <= len {
        let end_index = len - begin;
        match end {
            Some(e) => {
                if *e < len {
                    let begin_index = len - *e;
                    if begin_index < end_index {
                        let mut v: Vec<char> = Vec::new();
                        append_range(&mut v, &chars, 0, begin_index);
                        append_range(&mut v, &chars, end_index, len);
                        proof {
                            assert(chars@.subrange(0, begin_index as int) =~= original@.take(
                                begin_index as int,
                            ));
                            assert(chars@.subrange(end_index as int, len as int) =~= original@.skip(
                                end_index as int,
                            ));
                        }
                        Some(from_chars(&v))
                    } else if begin_index == end_index {
                        proof {
                            assert(original@.take(begin_index as int) + original@.skip(
                                end_index as int,
                            ) =~= original@);
                        }
                        let v = to_chars(original);
                        Some(from_chars(&v))
                    } else {
                        None
                    }
                } else {
                    let mut v: Vec<char> = Vec::new();
                    append_range(&mut v, &chars, end_index, len);
                    proof {
                        assert(chars@.subrange(end_index as int, len as int) =~= original@.skip(
                            end_index as int,
                        ));
                    }
                    Some(from_chars(&v))
                }
            },
            None => {
                let mut v: Vec<char> = Vec::new();
                append_range(&mut v, &chars, end_index, len);
                proof {
                    assert(chars@.subrange(end_index as int, len as int) =~= original@.skip(
                        end_index as int,
                    ));
                }
                Some(from_chars(&v))
            },
        }
    } else {
        None
    }
}

/// The first `max_chars` characters of `s`; `s` itself when it is shorter.
pub fn truncate(s: &str, max_chars: usize) -> (r: &str)
    ensures
        r@ == if max_chars >= s@.len() {
            s@
        } else {
            s@.take(max_chars as int)
        },
{
    let len = s.unicode_len();
    if max_chars >= len {
        proof {
            assert(s@.take(len as int) =~= s@);
        }
        s
    } else {
        let r = s.substring_char(0, max_chars);
        proof {
            assert(s@.subrange(0, max_chars as int) =~= s@.take(max_chars as int));
        }
        r
    }
}

/// The last `max_chars` characters of `s`; `s` itself when it is shorter.
pub fn rtruncate(s: &str, max_chars: usize) -> (r: &str)
    ensures
        r@ == if max_chars >= s@.len() {
            s@
        } else {
            s@.skip(s@.len() - max_chars)
        },
{
    let len = s.unicode_len();
    if max_chars >= len {
        s
    } else {
        let r = s.substring_char(len - max_chars, len);
        proof {
            assert(s@.subrange(len - max_chars, len as int) =~= s@.skip(s@.len() - max_chars));
        }
        r
    }
}

} // verus!
