//! Decimal formatting and parsing over character sequences.

use vstd::prelude::*;

use crate::strings::from_chars;

verus! {

/// The character for one decimal digit.
pub open spec fn spec_digit_char(d: int) -> char {
    if d == 0 {
        '0'
    } else if d == 1 {
        '1'
    } else if d == 2 {
        '2'
    } else if d == 3 {
        '3'
    } else if d == 4 {
        '4'
    } else if d == 5 {
        '5'
    } else if d == 6 {
        '6'
    } else if d == 7 {
        '7'
    } else if d == 8 {
        '8'
    } else {
        '9'
    }
}

/// The decimal digits of a non-negative number, most significant first.
pub open spec fn spec_dec_digits(n: int) -> Seq<char>
    decreases n,
{
    if n < 10 {
        seq![spec_digit_char(n)]
    } else {
        spec_dec_digits(n / 10).push(spec_digit_char(n % 10))
    }
}

/// A run of `k` zero characters.
pub open spec fn spec_zeros(k: int) -> Seq<char>
    decreases k,
{
    if k <= 0 {
        Seq::empty()
    } else {
        seq!['0'] + spec_zeros(k - 1)
    }
}

/// The decimal digits of `n`, left-padded with zeros to width `w`.
pub open spec fn spec_padded_dec(n: int, w: int) -> Seq<char> {
    let d = spec_dec_digits(n);
    if d.len() >= w {
        d
    } else {
        spec_zeros(w - d.len()) + d
    }
}

fn digit_char(d: u64) -> (c: char)
    requires
        d < 10,
    ensures
        c == spec_digit_char(d as int),
{
    if d == 0 {
        '0'
    } else if d == 1 {
        '1'
    } else if d == 2 {
        '2'
    } else if d == 3 {
        '3'
    } else if d == 4 {
        '4'
    } else if d == 5 {
        '5'
    } else if d == 6 {
        '6'
    } else if d == 7 {
        '7'
    } else if d == 8 {
        '8'
    } else {
        '9'
    }
}

/// The decimal digits of `n` as characters.
pub fn dec_digit_chars(n: u64) -> (r: Vec<char>)
    ensures
        r@ == spec_dec_digits(n as int),
    decreases n,
{
    if n < 10 {
        let mut r: Vec<char> = Vec::new();
        r.push(digit_char(n));
        proof {
            assert(r@ =~= spec_dec_digits(n as int));
        }
        r
    } else {
        let mut r = dec_digit_chars(n / 10);
        r.push(digit_char(n % 10));
        r
    }
}

/// Formats `decimal` in base ten, left-padded with zeros to `padding` characters,
/// as `format!("{:0width$}")` does.
pub fn decimal_to_padding_string(decimal: u32, padding: usize) -> (r: String)
    ensures
        r@ == spec_padded_dec(decimal as int, padding as int),
{
    let digits = dec_digit_chars(decimal as u64);
    let mut v: Vec<char> = Vec::new();
    if digits.len() < padding {
        let k = padding - digits.len();
        let mut i: usize = 0;
        while i < k
            invariant
                i <= k,
                v@ =~= spec_zeros(i as int),
            decreases k - i,
        {
            v.push('0');
            proof {
                lemma_zeros_push(i as int);
            }
            i = i + 1;
        }
    }
    let mut j: usize = 0;
    let ghost pad = v@;
    while j < digits.len()
        invariant
            j <= digits.len(),
            v@ =~= pad + digits@.take(j as int),
        decreases digits.len() - j,
    {
        v.push(digits[j]);
        proof {
            assert(digits@.take(j + 1 as int) =~= digits@.take(j as int).push(digits@[j as int]));
        }
        j = j + 1;
    }
    proof {
        assert(digits@.take(digits@.len() as int) =~= digits@);
        assert(v@ =~= spec_padded_dec(decimal as int, padding as int));
    }
    from_chars(&v)
}

proof fn lemma_zeros_push(i: int)
    requires
        0 <= i,
    ensures
        spec_zeros(i).push('0') =~= spec_zeros(i + 1),
    decreases i,
{
    if i == 0 {
        assert(spec_zeros(0).push('0') =~= spec_zeros(1));
    } else {
        lemma_zeros_push(i - 1);
        assert(spec_zeros(i) == seq!['0'] + spec_zeros(i - 1));
        assert(spec_zeros(i + 1) == seq!['0'] + spec_zeros(i));
        assert(spec_zeros(i).push('0') =~= spec_zeros(i + 1));
    }
}

/// Whether a character is a decimal digit.
pub open spec fn spec_is_digit(c: char) -> bool {
    48 <= (c as u32) && (c as u32) <= 57
}

/// The numeric value of a digit character.
pub open spec fn spec_digit_val(c: char) -> int {
    (c as u32) - 48
}

/// The value of a run of digit characters, most significant first.
pub open spec fn spec_dec_val(s: Seq<char>) -> int
    decreases s.len(),
{
    if s.len() == 0 {
        0
    } else {
        spec_dec_val(s.drop_last()) * 10 + spec_digit_val(s.last())
    }
}

pub proof fn lemma_dec_val_nonneg(s: Seq<char>)
    requires
        forall|k: int| 0 <= k < s.len() ==> spec_is_digit(s[k]),
    ensures
        spec_dec_val(s) >= 0,
    decreases s.len(),
{
    if s.len() > 0 {
        lemma_dec_val_nonneg(s.drop_last());
    }
}

/// Parses the digit characters `s[start..end]` as a `u32`.
/// Fails exactly when the value does not fit.
pub fn parse_u32_range(s: &Vec<char>, start: usize, end: usize) -> (r: Option<u32>)
    requires
        start <= end,
        end <= s@.len(),
        start < end,
        forall|k: int| start <= k < end ==> spec_is_digit(s@[k]),
    ensures
        match r {
            Some(v) => v as int == spec_dec_val(s@.subrange(start as int, end as int)) && v as int
                <= u32::MAX,
            None => spec_dec_val(s@.subrange(start as int, end as int)) > u32::MAX,
        },
{
    let ghost whole = s@.subrange(start as int, end as int);
    let mut acc: u64 = 0;
    let mut i: usize = start;
    while i < end
        invariant
            start <= i <= end,
            end <= s@.len(),
            forall|k: int| start <= k < end ==> spec_is_digit(s@[k]),
            whole == s@.subrange(start as int, end as int),
            acc as int == spec_dec_val(s@.subrange(start as int, i as int)),
            acc <= u32::MAX,
        decreases end - i,
    {
        let c = s[i];
        let d = (c as u32) - 48;
        let next: u64 = acc * 10 + (d as u64);
        proof {
            assert(s@.subrange(start as int, i + 1 as int).drop_last() =~= s@.subrange(
                start as int,
                i as int,
            ));
            assert(s@.subrange(start as int, i + 1 as int).last() == s@[i as int]);
        }
        if next > 0xffff_ffff {
            proof {
                lemma_dec_val_prefix_le(s@, start as int, i + 1 as int, end as int);
            }
            return None;
        }
        acc = next;
        i = i + 1;
    }
    proof {
        assert(s@.subrange(start as int, end as int) == whole);
    }
    Some(acc as u32)
}

/// Extending a digit run only increases its value.
proof fn lemma_dec_val_prefix_le(s: Seq<char>, start: int, mid: int, end: int)
    requires
        0 <= start <= mid <= end <= s.len(),
        forall|k: int| start <= k < end ==> spec_is_digit(s[k]),
    ensures
        spec_dec_val(s.subrange(start, mid)) <= spec_dec_val(s.subrange(start, end)),
    decreases end - mid,
{
    if mid < end {
        lemma_dec_val_prefix_le(s, start, mid + 1, end);
        let p = s.subrange(start, mid);
        let q = s.subrange(start, mid + 1);
        assert(q.drop_last() =~= p);
        assert(q.last() == s[mid]);
        assert(forall|k: int| 0 <= k < p.len() ==> spec_is_digit(p[k]));
        lemma_dec_val_nonneg(p);
        assert(spec_dec_val(q) == spec_dec_val(p) * 10 + spec_digit_val(s[mid]));
        assert(spec_dec_val(p) * 10 >= spec_dec_val(p)) by (nonlinear_arith)
            requires
                spec_dec_val(p) >= 0,
        ;
    }
}

} // verus!
