//! The lexer of the WHERE-clause language.
//!
//! It turns the input characters into a token stream: words (keywords are
//! recognized case-insensitively, tag names stay as written), single-quoted
//! string literals with `''` as the only escape, unsigned decimal integers,
//! comparison operators and parentheses. Every token carries its character
//! span `(start, end)` in the input for diagnostics.

use vstd::prelude::*;

use crate::numeric::{parse_u32_range, spec_dec_val, spec_is_digit};
use crate::strings::{chars_eq, to_chars};

verus! {

/// A compilation failure, with the character span of the offending input.
#[derive(Debug, Clone, Copy, PartialEq, Eq, Structural)]
pub enum CompileErrorKind {
    /// A character no token can start with.
    UnexpectedChar,
    /// A string literal without a closing quote.
    UnterminatedText,
    /// An integer literal that does not fit in `u32`.
    NumberOverflow,
    /// A token out of place.
    UnexpectedToken,
    /// Input ended where a token was required.
    UnexpectedEnd,
    /// Well-formed expression followed by more input.
    TrailingInput,
    /// A word that names no tag of the schema.
    UnknownTag,
    /// A literal whose kind does not fit the tag's data class.
    TypeMismatch,
}

#[derive(Debug, Clone, Copy, PartialEq, Eq, Structural)]
pub struct CompileError {
    pub kind: CompileErrorKind,
    pub start: usize,
    pub end: usize,
}

/// Builds an error from spec-level positions.
pub open spec fn spec_err(kind: CompileErrorKind, start: int, end: int) -> CompileError {
    CompileError { kind, start: start as usize, end: end as usize }
}

#[derive(Debug)]
pub enum TokenKind {
    Ident(Vec<char>),
    Text(Vec<char>),
    Num(u32),
    KwAnd,
    KwOr,
    KwNot,
    KwLike,
    KwIlike,
    LParen,
    RParen,
    OpEq,
    OpNe,
    OpLt,
    OpLe,
    OpGt,
    OpGe,
}

#[derive(Debug)]
pub struct Token {
    pub kind: TokenKind,
    pub start: usize,
    pub end: usize,
}

pub enum TokenKindV {
    Ident(Seq<char>),
    Text(Seq<char>),
    Num(u32),
    KwAnd,
    KwOr,
    KwNot,
    KwLike,
    KwIlike,
    LParen,
    RParen,
    OpEq,
    OpNe,
    OpLt,
    OpLe,
    OpGt,
    OpGe,
}

pub struct TokenV {
    pub kind: TokenKindV,
    pub start: int,
    pub end: int,
}

impl View for TokenKind {
    type V = TokenKindV;

    open spec fn view(&self) -> TokenKindV {
        match self {
            TokenKind::Ident(w) => TokenKindV::Ident(w@),
            TokenKind::Text(t) => TokenKindV::Text(t@),
            TokenKind::Num(n) => TokenKindV::Num(*n),
            TokenKind::KwAnd => TokenKindV::KwAnd,
            TokenKind::KwOr => TokenKindV::KwOr,
            TokenKind::KwNot => TokenKindV::KwNot,
            TokenKind::KwLike => TokenKindV::KwLike,
            TokenKind::KwIlike => TokenKindV::KwIlike,
            TokenKind::LParen => TokenKindV::LParen,
            TokenKind::RParen => TokenKindV::RParen,
            TokenKind::OpEq => TokenKindV::OpEq,
            TokenKind::OpNe => TokenKindV::OpNe,
            TokenKind::OpLt => TokenKindV::OpLt,
            TokenKind::OpLe => TokenKindV::OpLe,
            TokenKind::OpGt => TokenKindV::OpGt,
            TokenKind::OpGe => TokenKindV::OpGe,
        }
    }
}

impl View for Token {
    type V = TokenV;

    open spec fn view(&self) -> TokenV {
        TokenV { kind: self.kind@, start: self.start as int, end: self.end as int }
    }
}

/// The views of a token sequence.
pub open spec fn toks_view(ts: Seq<Token>) -> Seq<TokenV> {
    ts.map_values(|t: Token| t@)
}

/// Whitespace separating tokens.
pub open spec fn is_ws_char(c: char) -> bool {
    c == ' ' || c == '\t' || c == '\n' || c == '\r'
}

/// ASCII letters.
pub open spec fn is_alpha_char(c: char) -> bool {
    (97 <= (c as u32) && (c as u32) <= 122) || (65 <= (c as u32) && (c as u32) <= 90)
}

/// Characters a word may continue with: letters, digits, `-` and `_`.
pub open spec fn is_word_char(c: char) -> bool {
    is_alpha_char(c) || spec_is_digit(c) || c == '-' || c == '_'
}

fn is_ws(c: char) -> (r: bool)
    ensures
        r == is_ws_char(c),
{
    c == ' ' || c == '\t' || c == '\n' || c == '\r'
}

fn is_alpha(c: char) -> (r: bool)
    ensures
        r == is_alpha_char(c),
{
    let u = c as u32;
    (97 <= u && u <= 122) || (65 <= u && u <= 90)
}

fn is_digit(c: char) -> (r: bool)
    ensures
        r == spec_is_digit(c),
{
    let u = c as u32;
    48 <= u && u <= 57
}

pub fn is_word(c: char) -> (r: bool)
    ensures
        r == is_word_char(c),
{
    let u = c as u32;
    is_alpha(c) || (48 <= u && u <= 57) || c == '-' || c == '_'
}

/// Lowercases one ASCII letter; anything else is unchanged.
pub open spec fn spec_ascii_lower(c: char) -> char {
    if c == 'A' {
        'a'
    } else if c == 'B' {
        'b'
    } else if c == 'C' {
        'c'
    } else if c == 'D' {
        'd'
    } else if c == 'E' {
        'e'
    } else if c == 'F' {
        'f'
    } else if c == 'G' {
        'g'
    } else if c == 'H' {
        'h'
    } else if c == 'I' {
        'i'
    } else if c == 'J' {
        'j'
    } else if c == 'K' {
        'k'
    } else if c == 'L' {
        'l'
    } else if c == 'M' {
        'm'
    } else if c == 'N' {
        'n'
    } else if c == 'O' {
        'o'
    } else if c == 'P' {
        'p'
    } else if c == 'Q' {
        'q'
    } else if c == 'R' {
        'r'
    } else if c == 'S' {
        's'
    } else if c == 'T' {
        't'
    } else if c == 'U' {
        'u'
    } else if c == 'V' {
        'v'
    } else if c == 'W' {
        'w'
    } else if c == 'X' {
        'x'
    } else if c == 'Y' {
        'y'
    } else if c == 'Z' {
        'z'
    } else {
        c
    }
}

fn ascii_lower(c: char) -> (r: char)
    ensures
        r == spec_ascii_lower(c),
{
    if c == 'A' {
        'a'
    } else if c == 'B' {
        'b'
    } else if c == 'C' {
        'c'
    } else if c == 'D' {
        'd'
    } else if c == 'E' {
        'e'
    } else if c == 'F' {
        'f'
    } else if c == 'G' {
        'g'
    } else if c == 'H' {
        'h'
    } else if c == 'I' {
        'i'
    } else if c == 'J' {
        'j'
    } else if c == 'K' {
        'k'
    } else if c == 'L' {
        'l'
    } else if c == 'M' {
        'm'
    } else if c == 'N' {
        'n'
    } else if c == 'O' {
        'o'
    } else if c == 'P' {
        'p'
    } else if c == 'Q' {
        'q'
    } else if c == 'R' {
        'r'
    } else if c == 'S' {
        's'
    } else if c == 'T' {
        't'
    } else if c == 'U' {
        'u'
    } else if c == 'V' {
        'v'
    } else if c == 'W' {
        'w'
    } else if c == 'X' {
        'x'
    } else if c == 'Y' {
        'y'
    } else if c == 'Z' {
        'z'
    } else {
        c
    }
}

/// A word lowercased letter by letter, for keyword recognition.
pub open spec fn lower_word(w: Seq<char>) -> Seq<char> {
    w.map_values(|c: char| spec_ascii_lower(c))
}

fn word_lower(w: &Vec<char>) -> (r: Vec<char>)
    ensures
        r@ == lower_word(w@),
{
    let mut r: Vec<char> = Vec::new();
    let mut i: usize = 0;
    while i < w.len()
        invariant
            i <= w.len(),
            r@ =~= lower_word(w@.take(i as int)),
        decreases w.len() - i,
    {
        r.push(ascii_lower(w[i]));
        proof {
            assert(r@ =~= lower_word(w@.take(i + 1 as int)));
        }
        i = i + 1;
    }
    proof {
        assert(w@.take(w@.len() as int) =~= w@);
        assert(r@ =~= lower_word(w@));
    }
    r
}

/// Classifies a word: one of the five keywords, case-insensitively,
/// or a bare identifier.
pub open spec fn spec_word_kind(w: Seq<char>) -> TokenKindV {
    let l = lower_word(w);
    if l == "and"@ {
        TokenKindV::KwAnd
    } else if l == "or"@ {
        TokenKindV::KwOr
    } else if l == "not"@ {
        TokenKindV::KwNot
    } else if l == "like"@ {
        TokenKindV::KwLike
    } else if l == "ilike"@ {
        TokenKindV::KwIlike
    } else {
        TokenKindV::Ident(w)
    }
}

fn word_kind(w: Vec<char>) -> (k: TokenKind)
    ensures
        k@ == spec_word_kind(w@),
{
    let l = word_lower(&w);
    if chars_eq(&l, &to_chars("and")) {
        TokenKind::KwAnd
    } else if chars_eq(&l, &to_chars("or")) {
        TokenKind::KwOr
    } else if chars_eq(&l, &to_chars("not")) {
        TokenKind::KwNot
    } else if chars_eq(&l, &to_chars("like")) {
        TokenKind::KwLike
    } else if chars_eq(&l, &to_chars("ilike")) {
        TokenKind::KwIlike
    } else {
        TokenKind::Ident(w)
    }
}

/// The first position at or after `i` that does not continue a word.
pub open spec fn word_end(s: Seq<char>, i: int) -> int
    decreases s.len() - i,
{
    if 0 <= i < s.len() && is_word_char(s[i]) {
        word_end(s, i + 1)
    } else {
        i
    }
}

/// The first position at or after `i` that is not a digit.
pub open spec fn digits_end(s: Seq<char>, i: int) -> int
    decreases s.len() - i,
{
    if 0 <= i < s.len() && spec_is_digit(s[i]) {
        digits_end(s, i + 1)
    } else {
        i
    }
}

/// Scans a string literal body from `i` (just after the opening quote).
/// Yields the decoded content (each `''` becomes one `'`) and the position
/// just after the closing quote, or `None` if the literal never closes.
pub open spec fn scan_text(s: Seq<char>, i: int) -> Option<(Seq<char>, int)>
    decreases s.len() - i,
{
    if i < 0 || i >= s.len() {
        None
    } else if s[i] == '\'' {
        if i + 1 < s.len() && s[i + 1] == '\'' {
            match scan_text(s, i + 2) {
                None => None,
                Some((c, e)) => Some((seq!['\''] + c, e)),
            }
        } else {
            Some((Seq::empty(), i + 1))
        }
    } else {
        match scan_text(s, i + 1) {
            None => None,
            Some((c, e)) => Some((seq![s[i]] + c, e)),
        }
    }
}

/// The token starting at `i`, which must hold a non-whitespace character,
/// and the position just after it.
pub open spec fn spec_next_token(s: Seq<char>, i: int) -> Result<(TokenV, int), CompileError> {
    let c = s[i];
    if is_alpha_char(c) {
        let e = word_end(s, i);
        Ok((TokenV { kind: spec_word_kind(s.subrange(i, e)), start: i, end: e }, e))
    } else if spec_is_digit(c) {
        let e = digits_end(s, i);
        let v = spec_dec_val(s.subrange(i, e));
        if v > u32::MAX {
            Err(spec_err(CompileErrorKind::NumberOverflow, i, e))
        } else {
            Ok((TokenV { kind: TokenKindV::Num(v as u32), start: i, end: e }, e))
        }
    } else if c == '\'' {
        match scan_text(s, i + 1) {
            None => Err(spec_err(CompileErrorKind::UnterminatedText, i, s.len() as int)),
            Some((content, e)) => Ok(
                (TokenV { kind: TokenKindV::Text(content), start: i, end: e }, e),
            ),
        }
    } else if c == '(' {
        Ok((TokenV { kind: TokenKindV::LParen, start: i, end: i + 1 }, i + 1))
    } else if c == ')' {
        Ok((TokenV { kind: TokenKindV::RParen, start: i, end: i + 1 }, i + 1))
    } else if c == '=' {
        Ok((TokenV { kind: TokenKindV::OpEq, start: i, end: i + 1 }, i + 1))
    } else if c == '!' {
        if i + 1 < s.len() && s[i + 1] == '=' {
            Ok((TokenV { kind: TokenKindV::OpNe, start: i, end: i + 2 }, i + 2))
        } else {
            Err(spec_err(CompileErrorKind::UnexpectedChar, i, i + 1))
        }
    } else if c == '<' {
        if i + 1 < s.len() && s[i + 1] == '=' {
            Ok((TokenV { kind: TokenKindV::OpLe, start: i, end: i + 2 }, i + 2))
        } else if i + 1 < s.len() && s[i + 1] == '>' {
            Ok((TokenV { kind: TokenKindV::OpNe, start: i, end: i + 2 }, i + 2))
        } else {
            Ok((TokenV { kind: TokenKindV::OpLt, start: i, end: i + 1 }, i + 1))
        }
    } else if c == '>' {
        if i + 1 < s.len() && s[i + 1] == '=' {
            Ok((TokenV { kind: TokenKindV::OpGe, start: i, end: i + 2 }, i + 2))
        } else {
            Ok((TokenV { kind: TokenKindV::OpGt, start: i, end: i + 1 }, i + 1))
        }
    } else {
        Err(spec_err(CompileErrorKind::UnexpectedChar, i, i + 1))
    }
}

/// The token stream from position `i` on, whitespace skipped.
pub open spec fn spec_tokenize_from(s: Seq<char>, i: int) -> Result<Seq<TokenV>, CompileError>
    decreases s.len() - i,
{
    if i < 0 || i >= s.len() {
        Ok(Seq::empty())
    } else if is_ws_char(s[i]) {
        spec_tokenize_from(s, i + 1)
    } else {
        match spec_next_token(s, i) {
            Err(e) => Err(e),
            Ok((t, j)) => if i < j <= s.len() {
                match spec_tokenize_from(s, j) {
                    Err(e) => Err(e),
                    Ok(rest) => Ok(seq![t] + rest),
                }
            } else {
                // the scanner always advances; this arm only keeps the
                // recursion well-founded
                Err(spec_err(CompileErrorKind::UnexpectedChar, i, i + 1))
            },
        }
    }
}

/// The token stream of the whole input.
pub open spec fn spec_tokenize(s: Seq<char>) -> Result<Seq<TokenV>, CompileError> {
    spec_tokenize_from(s, 0)
}

fn collect_range(s: &Vec<char>, from: usize, to: usize) -> (r: Vec<char>)
    requires
        from <= to <= s@.len(),
    ensures
        r@ == s@.subrange(from as int, to as int),
{
    let mut r: Vec<char> = Vec::new();
    let mut k = from;
    while k < to
        invariant
            from <= k <= to <= s@.len(),
            r@ =~= s@.subrange(from as int, k as int),
        decreases to - k,
    {
        r.push(s[k]);
        proof {
            assert(s@.subrange(from as int, k + 1 as int) =~= s@.subrange(
                from as int,
                k as int,
            ).push(s@[k as int]));
        }
        k = k + 1;
    }
    r
}

/// Scans the token starting at `i`.
fn next_token(s: &Vec<char>, i: usize) -> (r: Result<(Token, usize), CompileError>)
    requires
        i < s@.len(),
        !is_ws_char(s@[i as int]),
    ensures
        match (r, spec_next_token(s@, i as int)) {
            (Ok((t, j)), Ok((tv, jv))) => t@ == tv && j as int == jv && i < j <= s@.len(),
            (Err(e), Err(ev)) => e == ev,
            _ => false,
        },
{
    let n = s.len();
    let c = s[i];
    if is_alpha(c) {
        let mut e = i + 1;
        proof {
            assert(word_end(s@, i as int) == word_end(s@, i + 1 as int));
        }
        while e < n && is_word(s[e])
            invariant
                i < e <= n,
                n == s@.len(),
                word_end(s@, i as int) == word_end(s@, e as int),
            decreases n - e,
        {
            proof {
                assert(word_end(s@, e as int) == word_end(s@, e + 1 as int));
            }
            e = e + 1;
        }
        proof {
            assert(word_end(s@, e as int) == e as int);
        }
        let w = collect_range(s, i, e);
        let k = word_kind(w);
        Ok((Token { kind: k, start: i, end: e }, e))
    } else {
        let u = c as u32;
        if 48 <= u && u <= 57 {
            let mut e = i + 1;
            proof {
                assert(digits_end(s@, i as int) == digits_end(s@, i + 1 as int));
            }
            while e < n && is_digit(s[e])
                invariant
                    i < e <= n,
                    n == s@.len(),
                    digits_end(s@, i as int) == digits_end(s@, e as int),
                decreases n - e,
            {
                proof {
                    assert(digits_end(s@, e as int) == digits_end(s@, e + 1 as int));
                }
                e = e + 1;
            }
            proof {
                assert(digits_end(s@, e as int) == e as int);
                assert(forall|k: int|
                    i <= k < e ==> spec_is_digit(
                        s@[k],
                    )) by {
                    assert(forall|k: int|
                        i <= k < e && digits_end(s@, k) != k ==> spec_is_digit(s@[k]));
                    assert forall|k: int| i <= k < e implies spec_is_digit(s@[k]) by {
                        lemma_digits_end_range(s@, i as int, k);
                    }
                }
            }
            match parse_u32_range(s, i, e) {
                Some(v) => Ok((Token { kind: TokenKind::Num(v), start: i, end: e }, e)),
                None => Err(
                    CompileError { kind: CompileErrorKind::NumberOverflow, start: i, end: e },
                ),
            }
        } else if c == '\'' {
            let mut k = i + 1;
            let mut content: Vec<char> = Vec::new();
            loop
                invariant
                    i + 1 <= k <= n,
                    n == s@.len(),
                    i < s@.len(),
                    s@[i as int] == '\'',
                    match scan_text(s@, k as int) {
                        None => scan_text(s@, i + 1 as int) is None,
                        Some((c2, e2)) => scan_text(s@, i + 1 as int) == Some(
                            (content@ + c2, e2),
                        ),
                    },
                decreases n - k,
            {
                if k >= n {
                    return Err(
                        CompileError { kind: CompileErrorKind::UnterminatedText, start: i, end: n },
                    );
                }
                let c2 = s[k];
                if c2 == '\'' {
                    if k + 1 < n && s[k + 1] == '\'' {
                        content.push('\'');
                        proof {
                            let ghost prev = content@.drop_last();
                            assert(content@ =~= prev.push('\''));
                            if let Some((c3, e3)) = scan_text(s@, k + 2 as int) {
                                assert(scan_text(s@, k as int) == Some(
                                    (seq!['\''] + c3, e3),
                                ));
                                assert(prev + (seq!['\''] + c3) =~= content@ + c3);
                            }
                        }
                        k = k + 2;
                    } else {
                        proof {
                            assert(scan_text(s@, k as int) == Some(
                                (Seq::<char>::empty(), k + 1 as int),
                            ));
                            assert(content@ + Seq::<char>::empty() =~= content@);
                        }
                        return Ok(
                            (Token { kind: TokenKind::Text(content), start: i, end: k + 1 }, k + 1),
                        );
                    }
                } else {
                    content.push(c2);
                    proof {
                        let ghost prev = content@.drop_last();
                        assert(content@ =~= prev.push(c2));
                        if let Some((c3, e3)) = scan_text(s@, k + 1 as int) {
                            assert(scan_text(s@, k as int) == Some((seq![c2] + c3, e3)));
                            assert(prev + (seq![c2] + c3) =~= content@ + c3);
                        }
                    }
                    k = k + 1;
                }
            }
        } else if c == '(' {
            Ok((Token { kind: TokenKind::LParen, start: i, end: i + 1 }, i + 1))
        } else if c == ')' {
            Ok((Token { kind: TokenKind::RParen, start: i, end: i + 1 }, i + 1))
        } else if c == '=' {
            Ok((Token { kind: TokenKind::OpEq, start: i, end: i + 1 }, i + 1))
        } else if c == '!' {
            if i + 1 < n && s[i + 1] == '=' {
                Ok((Token { kind: TokenKind::OpNe, start: i, end: i + 2 }, i + 2))
            } else {
                Err(CompileError { kind: CompileErrorKind::UnexpectedChar, start: i, end: i + 1 })
            }
        } else if c == '<' {
            if i + 1 < n && s[i + 1] == '=' {
                Ok((Token { kind: TokenKind::OpLe, start: i, end: i + 2 }, i + 2))
            } else if i + 1 < n && s[i + 1] == '>' {
                Ok((Token { kind: TokenKind::OpNe, start: i, end: i + 2 }, i + 2))
            } else {
                Ok((Token { kind: TokenKind::OpLt, start: i, end: i + 1 }, i + 1))
            }
        } else if c == '>' {
            if i + 1 < n && s[i + 1] == '=' {
                Ok((Token { kind: TokenKind::OpGe, start: i, end: i + 2 }, i + 2))
            } else {
                Ok((Token { kind: TokenKind::OpGt, start: i, end: i + 1 }, i + 1))
            }
        } else {
            Err(CompileError { kind: CompileErrorKind::UnexpectedChar, start: i, end: i + 1 })
        }
    }
}

/// Positions strictly inside a digit run hold digits.
proof fn lemma_digits_end_range(s: Seq<char>, i: int, k: int)
    requires
        0 <= i <= k,
        k < digits_end(s, i),
    ensures
        spec_is_digit(s[k]),
    decreases k - i,
{
    if i < s.len() && spec_is_digit(s[i]) {
        if k > i {
            lemma_digits_end_range(s, i + 1, k);
        }
    }
}

/// Tokenizes the whole input.
pub fn tokenize_chars(s: &Vec<char>) -> (r: Result<Vec<Token>, CompileError>)
    ensures
        match (r, spec_tokenize(s@)) {
            (Ok(ts), Ok(tvs)) => toks_view(ts@) == tvs,
            (Err(e), Err(ev)) => e == ev,
            _ => false,
        },
{
    let n = s.len();
    let mut toks: Vec<Token> = Vec::new();
    let mut i: usize = 0;
    while i < n
        invariant
            i <= n,
            n == s@.len(),
            spec_tokenize(s@) == match spec_tokenize_from(s@, i as int) {
                Err(e) => Err::<Seq<TokenV>, CompileError>(e),
                Ok(rest) => Ok::<Seq<TokenV>, CompileError>(toks_view(toks@) + rest),
            },
        decreases n - i,
    {
        if is_ws(s[i]) {
            proof {
                assert(spec_tokenize_from(s@, i as int) == spec_tokenize_from(s@, i + 1 as int));
            }
            i = i + 1;
        } else {
            match next_token(s, i) {
                Err(e) => {
                    return Err(e);
                },
                Ok((t, j)) => {
                    proof {
                        let ghost prev = toks@;
                        assert(toks_view(prev.push(t)) =~= toks_view(prev) + seq![t@]);
                        if let Ok(rest) = spec_tokenize_from(s@, j as int) {
                            assert((toks_view(prev) + seq![t@]) + rest =~= toks_view(prev) + (seq![
                                t@,
                            ] + rest));
                        }
                    }
                    toks.push(t);
                    i = j;
                },
            }
        }
    }
    proof {
        assert(spec_tokenize_from(s@, i as int) == Ok::<Seq<TokenV>, CompileError>(Seq::empty()));
        if let Ok(tvs) = spec_tokenize(s@) {
            assert(toks_view(toks@) + Seq::<TokenV>::empty() =~= toks_view(toks@));
        }
    }
    Ok(toks)
}

} // verus!
