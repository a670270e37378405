//! The predicate engine: compiling a SQL-`WHERE`-like expression over tag
//! names into a typed, reusable filter, and evaluating it against one
//! record's tag values.
//!
//! Grammar, lowest to highest precedence (`OR` and `AND` associate left):
//!
//! ```text
//! Expr    := OrExpr
//! OrExpr  := AndExpr ( 'OR' AndExpr )*
//! AndExpr := NotExpr ( 'AND' NotExpr )*
//! NotExpr := 'NOT' NotExpr | Comparison | '(' Expr ')'
//! Comparison := Ident CompOp ( StringLit | IntLit )
//! CompOp  := '=' | '!=' | '<>' | '<' | '<=' | '>' | '>=' | 'LIKE' | 'ILIKE'
//! ```
//!
//! Each comparison is bound at compile time: the identifier must name a tag
//! of the schema, and the literal's kind must fit the tag's data class
//! (`LIKE`/`ILIKE` only apply to text and date tags). Evaluation yields
//! `Some(bool)` or `None` for "indeterminate": both operands of `AND`/`OR`
//! are evaluated, and `None` on either side taints the result.

use vstd::prelude::*;

use crate::lexer::{
    spec_err, spec_tokenize, tokenize_chars, toks_view, CompileError, CompileErrorKind, Token,
    TokenKind, TokenKindV, TokenV,
};
use crate::model::MyTag;
use crate::numeric::dec_digit_chars;
use crate::record::ReadTag;
use crate::strings::{chars_lt, from_chars, lex_lt, lower_of, lowercase, to_chars};
use crate::wildcard::{spec_wild_match, wild_match};

verus! {

/// A comparison operator of the language.
#[derive(Debug, Clone, Copy, PartialEq, Eq, Structural)]
pub enum CompOp {
    Eq,
    Ne,
    Lt,
    Le,
    Gt,
    Ge,
    Like,
    Ilike,
}

/// Whether a logic node conjoins or disjoins its operands.
#[derive(Debug, Clone, Copy, PartialEq, Eq, Structural)]
pub enum LogicKind {
    And,
    Or,
}

/// A compiled, type-checked predicate over one record's tags.
#[derive(Debug, PartialEq)]
pub enum WhereClause {
    LogicOp(LogicOp),
    NotOp(NotOp),
    TextComp(TextComp),
    NumComp(NumComp),
}

/// A binary `AND`/`OR` node.
#[derive(Debug, PartialEq)]
pub struct LogicOp {
    pub op: LogicKind,
    pub lhs: Box<WhereClause>,
    pub rhs: Box<WhereClause>,
}

/// A unary `NOT` node.
#[derive(Debug, PartialEq)]
pub struct NotOp {
    pub inner: Box<WhereClause>,
}

/// A comparison of a text or date tag against a text literal.
#[derive(Debug, PartialEq)]
pub struct TextComp {
    pub op: CompOp,
    pub tag: MyTag,
    pub value: String,
}

/// A comparison of a numeric tag against an integer literal.
#[derive(Debug, PartialEq)]
pub struct NumComp {
    pub op: CompOp,
    pub tag: MyTag,
    pub value: u32,
}

/// The mathematical form of a compiled predicate.
pub enum ClauseV {
    Logic { op: LogicKind, lhs: Box<ClauseV>, rhs: Box<ClauseV> },
    Not { inner: Box<ClauseV> },
    TextCmp { op: CompOp, tag: MyTag, value: Seq<char> },
    NumCmp { op: CompOp, tag: MyTag, value: u32 },
}

/// The view of a predicate tree.
pub open spec fn clause_view(c: WhereClause) -> ClauseV
    decreases c,
{
    match c {
        WhereClause::LogicOp(l) => ClauseV::Logic {
            op: l.op,
            lhs: Box::new(clause_view(*l.lhs)),
            rhs: Box::new(clause_view(*l.rhs)),
        },
        WhereClause::NotOp(n) => ClauseV::Not { inner: Box::new(clause_view(*n.inner)) },
        WhereClause::TextComp(t) => ClauseV::TextCmp { op: t.op, tag: t.tag, value: t.value@ },
        WhereClause::NumComp(n) => ClauseV::NumCmp { op: n.op, tag: n.tag, value: n.value },
    }
}

impl View for WhereClause {
    type V = ClauseV;

    open spec fn view(&self) -> ClauseV {
        clause_view(*self)
    }
}

// ---------------------------------------------------------------------------
// Evaluation
// ---------------------------------------------------------------------------
/// A text or date comparison against a present or absent value.
/// An absent value is "not equal" to anything: `!=`/`<>` yield true,
/// every other operator yields false.
pub open spec fn spec_check_text_op(op: CompOp, lit: Seq<char>, v: Option<Seq<char>>) -> Option<
    bool,
> {
    match v {
        None => if op == CompOp::Ne {
            Some(true)
        } else {
            Some(false)
        },
        Some(v) => match op {
            CompOp::Eq => Some(v == lit),
            CompOp::Ne => Some(v != lit),
            CompOp::Lt => Some(lex_lt(v, lit)),
            CompOp::Gt => Some(lex_lt(lit, v)),
            CompOp::Le => Some(!lex_lt(lit, v)),
            CompOp::Ge => Some(!lex_lt(v, lit)),
            CompOp::Like => Some(spec_wild_match(lit, v)),
            CompOp::Ilike => Some(spec_wild_match(lower_of(lit), lower_of(v))),
        },
    }
}

/// A numeric comparison against a present or absent value. `LIKE`/`ILIKE`
/// on a present numeric value is indeterminate (the binder rejects it at
/// compile time).
pub open spec fn spec_check_num_op(op: CompOp, lit: u32, v: Option<u32>) -> Option<bool> {
    match v {
        None => if op == CompOp::Ne {
            Some(true)
        } else {
            Some(false)
        },
        Some(v) => match op {
            CompOp::Eq => Some(v == lit),
            CompOp::Ne => Some(v != lit),
            CompOp::Lt => Some(v < lit),
            CompOp::Gt => Some(v > lit),
            CompOp::Le => Some(v <= lit),
            CompOp::Ge => Some(v >= lit),
            CompOp::Like => None,
            CompOp::Ilike => None,
        },
    }
}

/// The value of a predicate on one record: `Some(bool)` or `None` for
/// indeterminate. Both operands of a logic node count; `None` on either
/// side taints the node.
pub open spec fn spec_check<T: ReadTag>(c: ClauseV, t: &T) -> Option<bool>
    decreases c,
{
    match c {
        ClauseV::Logic { op, lhs, rhs } => match (spec_check(*lhs, t), spec_check(*rhs, t)) {
            (Some(a), Some(b)) => Some(
                if op == LogicKind::And {
                    a && b
                } else {
                    a || b
                },
            ),
            _ => None,
        },
        ClauseV::Not { inner } => match spec_check(*inner, t) {
            Some(v) => Some(!v),
            None => None,
        },
        ClauseV::TextCmp { op, tag, value } => if tag.spec_is_text() || tag.spec_is_date() {
            spec_check_text_op(op, value, t.spec_text_tag(tag))
        } else {
            None
        },
        ClauseV::NumCmp { op, tag, value } => if tag.spec_is_numeric() {
            spec_check_num_op(op, value, t.spec_numeric_tag(tag))
        } else {
            None
        },
    }
}

fn check_text_op(op: CompOp, lit: &String, v: Option<String>) -> (r: Option<bool>)
    ensures
        r == spec_check_text_op(
            op,
            lit@,
            match v {
                Some(s) => Some(s@),
                None => None,
            },
        ),
{
    match v {
        None => if op == CompOp::Ne {
            Some(true)
        } else {
            Some(false)
        },
        Some(value) => match op {
            CompOp::Eq => Some(value.eq(lit)),
            CompOp::Ne => Some(!value.eq(lit)),
            CompOp::Lt => {
                let a = to_chars(value.as_str());
                let b = to_chars(lit.as_str());
                Some(chars_lt(&a, &b))
            },
            CompOp::Gt => {
                let a = to_chars(value.as_str());
                let b = to_chars(lit.as_str());
                Some(chars_lt(&b, &a))
            },
            CompOp::Le => {
                let a = to_chars(value.as_str());
                let b = to_chars(lit.as_str());
                Some(!chars_lt(&b, &a))
            },
            CompOp::Ge => {
                let a = to_chars(value.as_str());
                let b = to_chars(lit.as_str());
                Some(!chars_lt(&a, &b))
            },
            CompOp::Like => {
                let p = to_chars(lit.as_str());
                let t = to_chars(value.as_str());
                Some(wild_match(&p, &t))
            },
            CompOp::Ilike => {
                let lp = lowercase(lit.as_str());
                let lv = lowercase(value.as_str());
                let p = to_chars(lp.as_str());
                let t = to_chars(lv.as_str());
                Some(wild_match(&p, &t))
            },
        },
    }
}

impl WhereClause {
    /// Evaluates the predicate against one record. Both operands of a logic
    /// node are weighed; `None` on either side makes the node indeterminate.
    pub fn check<T: ReadTag>(&self, t: &T) -> (r: Option<bool>)
        ensures
            r == spec_check(self@, t),
        decreases *self,
    {
        match self {
            WhereClause::LogicOp(op) => {
                let l = op.lhs.check(t);
                let rh = op.rhs.check(t);
                match (l, rh) {
                    (Some(a), Some(b)) => Some(
                        match op.op {
                            LogicKind::And => a && b,
                            LogicKind::Or => a || b,
                        },
                    ),
                    _ => None,
                }
            },
            WhereClause::NotOp(op) => {
                match op.inner.check(t) {
                    Some(v) => Some(!v),
                    None => None,
                }
            },
            WhereClause::TextComp(comp) => {
                if comp.tag.is_text() || comp.tag.is_date() {
                    let v = t.get_text_tag(&comp.tag);
                    check_text_op(comp.op, &comp.value, v)
                } else {
                    None
                }
            },
            WhereClause::NumComp(comp) => {
                if comp.tag.is_numeric() {
                    match t.get_numeric_tag(&comp.tag) {
                        None => if comp.op == CompOp::Ne {
                            Some(true)
                        } else {
                            Some(false)
                        },
                        Some(value) => match comp.op {
                            CompOp::Eq => Some(value == comp.value),
                            CompOp::Ne => Some(value != comp.value),
                            CompOp::Lt => Some(value < comp.value),
                            CompOp::Gt => Some(value > comp.value),
                            CompOp::Le => Some(value <= comp.value),
                            CompOp::Ge => Some(value >= comp.value),
                            CompOp::Like => None,
                            CompOp::Ilike => None,
                        },
                    }
                } else {
                    None
                }
            },
        }
    }
}

// ---------------------------------------------------------------------------
// Parsing and binding
// ---------------------------------------------------------------------------
/// The comparison operator a token denotes, if any.
pub open spec fn spec_comp_op(k: TokenKindV) -> Option<CompOp> {
    match k {
        TokenKindV::OpEq => Some(CompOp::Eq),
        TokenKindV::OpNe => Some(CompOp::Ne),
        TokenKindV::OpLt => Some(CompOp::Lt),
        TokenKindV::OpLe => Some(CompOp::Le),
        TokenKindV::OpGt => Some(CompOp::Gt),
        TokenKindV::OpGe => Some(CompOp::Ge),
        TokenKindV::KwLike => Some(CompOp::Like),
        TokenKindV::KwIlike => Some(CompOp::Ilike),
        _ => None,
    }
}

/// Parses one bound comparison at `i`: a tag name, an operator, and a
/// literal of the tag's data class. `n` is the input length, for spans of
/// end-of-input errors.
pub open spec fn spec_parse_cmp(toks: Seq<TokenV>, n: int, i: int) -> Result<
    (ClauseV, int),
    CompileError,
> {
    if i < 0 || i >= toks.len() {
        Err(spec_err(CompileErrorKind::UnexpectedEnd, n, n))
    } else {
        match toks[i].kind {
            TokenKindV::Ident(w) => {
                if i + 1 >= toks.len() {
                    Err(spec_err(CompileErrorKind::UnexpectedEnd, n, n))
                } else {
                    match spec_comp_op(toks[i + 1].kind) {
                        None => Err(
                            spec_err(
                                CompileErrorKind::UnexpectedToken,
                                toks[i + 1].start,
                                toks[i + 1].end,
                            ),
                        ),
                        Some(op) => match MyTag::spec_tag_of(w) {
                            None => Err(
                                spec_err(CompileErrorKind::UnknownTag, toks[i].start, toks[i].end),
                            ),
                            Some(tag) => {
                                if i + 2 >= toks.len() {
                                    Err(spec_err(CompileErrorKind::UnexpectedEnd, n, n))
                                } else if tag.spec_is_text() || tag.spec_is_date() {
                                    match toks[i + 2].kind {
                                        TokenKindV::Text(v) => Ok(
                                            (ClauseV::TextCmp { op, tag, value: v }, i + 3),
                                        ),
                                        TokenKindV::Num(_) => Err(
                                            spec_err(
                                                CompileErrorKind::TypeMismatch,
                                                toks[i + 2].start,
                                                toks[i + 2].end,
                                            ),
                                        ),
                                        _ => Err(
                                            spec_err(
                                                CompileErrorKind::UnexpectedToken,
                                                toks[i + 2].start,
                                                toks[i + 2].end,
                                            ),
                                        ),
                                    }
                                } else {
                                    match toks[i + 2].kind {
                                        TokenKindV::Num(v) => if op == CompOp::Like || op
                                            == CompOp::Ilike {
                                            Err(
                                                spec_err(
                                                    CompileErrorKind::TypeMismatch,
                                                    toks[i + 1].start,
                                                    toks[i + 1].end,
                                                ),
                                            )
                                        } else {
                                            Ok((ClauseV::NumCmp { op, tag, value: v }, i + 3))
                                        },
                                        TokenKindV::Text(_) => Err(
                                            spec_err(
                                                CompileErrorKind::TypeMismatch,
                                                toks[i + 2].start,
                                                toks[i + 2].end,
                                            ),
                                        ),
                                        _ => Err(
                                            spec_err(
                                                CompileErrorKind::UnexpectedToken,
                                                toks[i + 2].start,
                                                toks[i + 2].end,
                                            ),
                                        ),
                                    }
                                }
                            },
                        },
                    }
                }
            },
            _ => Err(spec_err(CompileErrorKind::UnexpectedToken, toks[i].start, toks[i].end)),
        }
    }
}

/// Parses a `NotExpr` at `i`.
pub open spec fn spec_parse_not(toks: Seq<TokenV>, n: int, i: int) -> Result<
    (ClauseV, int),
    CompileError,
>
    decreases toks.len() - i, 1int,
{
    if i < 0 || i >= toks.len() {
        Err(spec_err(CompileErrorKind::UnexpectedEnd, n, n))
    } else {
        match toks[i].kind {
            TokenKindV::KwNot => match spec_parse_not(toks, n, i + 1) {
                Ok((c, j)) => Ok((ClauseV::Not { inner: Box::new(c) }, j)),
                Err(e) => Err(e),
            },
            TokenKindV::LParen => match spec_parse_or(toks, n, i + 1) {
                Ok((c, j)) => if 0 <= j < toks.len() && toks[j].kind is RParen {
                    Ok((c, j + 1))
                } else if 0 <= j < toks.len() {
                    Err(spec_err(CompileErrorKind::UnexpectedToken, toks[j].start, toks[j].end))
                } else {
                    Err(spec_err(CompileErrorKind::UnexpectedEnd, n, n))
                },
                Err(e) => Err(e),
            },
            _ => spec_parse_cmp(toks, n, i),
        }
    }
}

/// Parses an `AndExpr` at `i`, folding `AND` chains to the left.
pub open spec fn spec_parse_and(toks: Seq<TokenV>, n: int, i: int) -> Result<
    (ClauseV, int),
    CompileError,
>
    decreases toks.len() - i, 2int,
{
    match spec_parse_not(toks, n, i) {
        Err(e) => Err(e),
        Ok((c, j)) => if i < j <= toks.len() {
            spec_parse_and_rest(toks, n, j, c)
        } else {
            // a parse step always advances; this arm only keeps the
            // recursion well-founded
            Err(spec_err(CompileErrorKind::UnexpectedEnd, n, n))
        },
    }
}

pub open spec fn spec_parse_and_rest(toks: Seq<TokenV>, n: int, i: int, acc: ClauseV) -> Result<
    (ClauseV, int),
    CompileError,
>
    decreases toks.len() - i, 3int,
{
    if i < 0 || i >= toks.len() {
        Ok((acc, i))
    } else if toks[i].kind is KwAnd {
        match spec_parse_not(toks, n, i + 1) {
            Err(e) => Err(e),
            Ok((rhs, j)) => if i < j <= toks.len() {
                spec_parse_and_rest(
                    toks,
                    n,
                    j,
                    ClauseV::Logic { op: LogicKind::And, lhs: Box::new(acc), rhs: Box::new(rhs) },
                )
            } else {
                Err(spec_err(CompileErrorKind::UnexpectedEnd, n, n))
            },
        }
    } else {
        Ok((acc, i))
    }
}

/// Parses an `OrExpr` at `i`, folding `OR` chains to the left.
pub open spec fn spec_parse_or(toks: Seq<TokenV>, n: int, i: int) -> Result<
    (ClauseV, int),
    CompileError,
>
    decreases toks.len() - i, 4int,
{
    match spec_parse_and(toks, n, i) {
        Err(e) => Err(e),
        Ok((c, j)) => if i < j <= toks.len() {
            spec_parse_or_rest(toks, n, j, c)
        } else {
            Err(spec_err(CompileErrorKind::UnexpectedEnd, n, n))
        },
    }
}

pub open spec fn spec_parse_or_rest(toks: Seq<TokenV>, n: int, i: int, acc: ClauseV) -> Result<
    (ClauseV, int),
    CompileError,
>
    decreases toks.len() - i, 5int,
{
    if i < 0 || i >= toks.len() {
        Ok((acc, i))
    } else if toks[i].kind is KwOr {
        match spec_parse_and(toks, n, i + 1) {
            Err(e) => Err(e),
            Ok((rhs, j)) => if i < j <= toks.len() {
                spec_parse_or_rest(
                    toks,
                    n,
                    j,
                    ClauseV::Logic { op: LogicKind::Or, lhs: Box::new(acc), rhs: Box::new(rhs) },
                )
            } else {
                Err(spec_err(CompileErrorKind::UnexpectedEnd, n, n))
            },
        }
    } else {
        Ok((acc, i))
    }
}

/// Compiles a whole input: tokenize, parse, bind. The result is pinned:
/// compiling equal inputs gives equal predicates.
pub open spec fn spec_compile(s: Seq<char>) -> Result<ClauseV, CompileError> {
    match spec_tokenize(s) {
        Err(e) => Err(e),
        Ok(toks) => match spec_parse_or(toks, s.len() as int, 0) {
            Err(e) => Err(e),
            Ok((c, j)) => if j == toks.len() {
                Ok(c)
            } else if 0 <= j < toks.len() {
                Err(spec_err(CompileErrorKind::TrailingInput, toks[j].start, toks[j].end))
            } else {
                Err(spec_err(CompileErrorKind::TrailingInput, s.len() as int, s.len() as int))
            },
        },
    }
}

fn comp_op_of(k: &TokenKind) -> (r: Option<CompOp>)
    ensures
        r == spec_comp_op(k@),
{
    match k {
        TokenKind::OpEq => Some(CompOp::Eq),
        TokenKind::OpNe => Some(CompOp::Ne),
        TokenKind::OpLt => Some(CompOp::Lt),
        TokenKind::OpLe => Some(CompOp::Le),
        TokenKind::OpGt => Some(CompOp::Gt),
        TokenKind::OpGe => Some(CompOp::Ge),
        TokenKind::KwLike => Some(CompOp::Like),
        TokenKind::KwIlike => Some(CompOp::Ilike),
        _ => None,
    }
}

fn parse_cmp(toks: &Vec<Token>, n: usize, i: usize) -> (r: Result<
    (WhereClause, usize),
    CompileError,
>)
    ensures
        match (r, spec_parse_cmp(toks_view(toks@), n as int, i as int)) {
            (Ok((c, j)), Ok((cv, jv))) => c@ == cv && j as int == jv && j <= toks.len(),
            (Err(e), Err(ev)) => e == ev,
            _ => false,
        },
{
    if i >= toks.len() {
        return Err(CompileError { kind: CompileErrorKind::UnexpectedEnd, start: n, end: n });
    }
    let tk = &toks[i];
    match &tk.kind {
        TokenKind::Ident(w) => {
            if i + 1 >= toks.len() {
                return Err(
                    CompileError { kind: CompileErrorKind::UnexpectedEnd, start: n, end: n },
                );
            }
            let op = match comp_op_of(&toks[i + 1].kind) {
                None => {
                    return Err(
                        CompileError {
                            kind: CompileErrorKind::UnexpectedToken,
                            start: toks[i + 1].start,
                            end: toks[i + 1].end,
                        },
                    );
                },
                Some(op) => op,
            };
            let name = from_chars(w);
            let tag = match MyTag::from_str(name.as_str()) {
                None => {
                    return Err(
                        CompileError {
                            kind: CompileErrorKind::UnknownTag,
                            start: tk.start,
                            end: tk.end,
                        },
                    );
                },
                Some(tag) => tag,
            };
            if i + 2 >= toks.len() {
                return Err(
                    CompileError { kind: CompileErrorKind::UnexpectedEnd, start: n, end: n },
                );
            }
            let lit = &toks[i + 2];
            if tag.is_text() || tag.is_date() {
                match &lit.kind {
                    TokenKind::Text(v) => {
                        let value = from_chars(v);
                        Ok((WhereClause::TextComp(TextComp { op, tag, value }), i + 3))
                    },
                    TokenKind::Num(_) => Err(
                        CompileError {
                            kind: CompileErrorKind::TypeMismatch,
                            start: lit.start,
                            end: lit.end,
                        },
                    ),
                    _ => Err(
                        CompileError {
                            kind: CompileErrorKind::UnexpectedToken,
                            start: lit.start,
                            end: lit.end,
                        },
                    ),
                }
            } else {
                match &lit.kind {
                    TokenKind::Num(v) => {
                        if op == CompOp::Like || op == CompOp::Ilike {
                            Err(
                                CompileError {
                                    kind: CompileErrorKind::TypeMismatch,
                                    start: toks[i + 1].start,
                                    end: toks[i + 1].end,
                                },
                            )
                        } else {
                            Ok((WhereClause::NumComp(NumComp { op, tag, value: *v }), i + 3))
                        }
                    },
                    TokenKind::Text(_) => Err(
                        CompileError {
                            kind: CompileErrorKind::TypeMismatch,
                            start: lit.start,
                            end: lit.end,
                        },
                    ),
                    _ => Err(
                        CompileError {
                            kind: CompileErrorKind::UnexpectedToken,
                            start: lit.start,
                            end: lit.end,
                        },
                    ),
                }
            }
        },
        _ => Err(
            CompileError { kind: CompileErrorKind::UnexpectedToken, start: tk.start, end: tk.end },
        ),
    }
}

fn parse_not(toks: &Vec<Token>, n: usize, i: usize) -> (r: Result<
    (WhereClause, usize),
    CompileError,
>)
    ensures
        match (r, spec_parse_not(toks_view(toks@), n as int, i as int)) {
            (Ok((c, j)), Ok((cv, jv))) => c@ == cv && j as int == jv && j <= toks.len(),
            (Err(e), Err(ev)) => e == ev,
            _ => false,
        },
    decreases toks.len() - i, 1int,
{
    if i >= toks.len() {
        return Err(CompileError { kind: CompileErrorKind::UnexpectedEnd, start: n, end: n });
    }
    let tk = &toks[i];
    match &tk.kind {
        TokenKind::KwNot => match parse_not(toks, n, i + 1) {
            Ok((c, j)) => Ok((WhereClause::NotOp(NotOp { inner: Box::new(c) }), j)),
            Err(e) => Err(e),
        },
        TokenKind::LParen => match parse_or(toks, n, i + 1) {
            Ok((c, j)) => {
                if j < toks.len() {
                    match &toks[j].kind {
                        TokenKind::RParen => Ok((c, j + 1)),
                        _ => Err(
                            CompileError {
                                kind: CompileErrorKind::UnexpectedToken,
                                start: toks[j].start,
                                end: toks[j].end,
                            },
                        ),
                    }
                } else {
                    Err(CompileError { kind: CompileErrorKind::UnexpectedEnd, start: n, end: n })
                }
            },
            Err(e) => Err(e),
        },
        _ => parse_cmp(toks, n, i),
    }
}

fn parse_and(toks: &Vec<Token>, n: usize, i: usize) -> (r: Result<
    (WhereClause, usize),
    CompileError,
>)
    ensures
        match (r, spec_parse_and(toks_view(toks@), n as int, i as int)) {
            (Ok((c, j)), Ok((cv, jv))) => c@ == cv && j as int == jv && j <= toks.len(),
            (Err(e), Err(ev)) => e == ev,
            _ => false,
        },
    decreases toks.len() - i, 2int,
{
    match parse_not(toks, n, i) {
        Err(e) => Err(e),
        Ok((c, j)) => {
            if i < j && j <= toks.len() {
                parse_and_rest(toks, n, j, c)
            } else {
                // a parse step always advances; this branch mirrors the
                // guard that keeps the specification well-founded
                Err(CompileError { kind: CompileErrorKind::UnexpectedEnd, start: n, end: n })
            }
        },
    }
}

fn parse_and_rest(toks: &Vec<Token>, n: usize, i: usize, acc: WhereClause) -> (r: Result<
    (WhereClause, usize),
    CompileError,
>)
    requires
        i <= toks.len(),
    ensures
        match (r, spec_parse_and_rest(toks_view(toks@), n as int, i as int, acc@)) {
            (Ok((c, j)), Ok((cv, jv))) => c@ == cv && j as int == jv && j <= toks.len(),
            (Err(e), Err(ev)) => e == ev,
            _ => false,
        },
    decreases toks.len() - i, 3int,
{
    if i >= toks.len() {
        return Ok((acc, i));
    }
    match &toks[i].kind {
        TokenKind::KwAnd => match parse_not(toks, n, i + 1) {
            Err(e) => Err(e),
            Ok((rhs, j)) => {
                if i < j && j <= toks.len() {
                    parse_and_rest(
                        toks,
                        n,
                        j,
                        WhereClause::LogicOp(
                            LogicOp {
                                op: LogicKind::And,
                                lhs: Box::new(acc),
                                rhs: Box::new(rhs),
                            },
                        ),
                    )
                } else {
                    Err(CompileError { kind: CompileErrorKind::UnexpectedEnd, start: n, end: n })
                }
            },
        },
        _ => Ok((acc, i)),
    }
}

fn parse_or(toks: &Vec<Token>, n: usize, i: usize) -> (r: Result<
    (WhereClause, usize),
    CompileError,
>)
    ensures
        match (r, spec_parse_or(toks_view(toks@), n as int, i as int)) {
            (Ok((c, j)), Ok((cv, jv))) => c@ == cv && j as int == jv && j <= toks.len(),
            (Err(e), Err(ev)) => e == ev,
            _ => false,
        },
    decreases toks.len() - i, 4int,
{
    match parse_and(toks, n, i) {
        Err(e) => Err(e),
        Ok((c, j)) => {
            if i < j && j <= toks.len() {
                parse_or_rest(toks, n, j, c)
            } else {
                Err(CompileError { kind: CompileErrorKind::UnexpectedEnd, start: n, end: n })
            }
        },
    }
}

fn parse_or_rest(toks: &Vec<Token>, n: usize, i: usize, acc: WhereClause) -> (r: Result<
    (WhereClause, usize),
    CompileError,
>)
    requires
        i <= toks.len(),
    ensures
        match (r, spec_parse_or_rest(toks_view(toks@), n as int, i as int, acc@)) {
            (Ok((c, j)), Ok((cv, jv))) => c@ == cv && j as int == jv && j <= toks.len(),
            (Err(e), Err(ev)) => e == ev,
            _ => false,
        },
    decreases toks.len() - i, 5int,
{
    if i >= toks.len() {
        return Ok((acc, i));
    }
    match &toks[i].kind {
        TokenKind::KwOr => match parse_and(toks, n, i + 1) {
            Err(e) => Err(e),
            Ok((rhs, j)) => {
                if i < j && j <= toks.len() {
                    parse_or_rest(
                        toks,
                        n,
                        j,
                        WhereClause::LogicOp(
                            LogicOp { op: LogicKind::Or, lhs: Box::new(acc), rhs: Box::new(rhs) },
                        ),
                    )
                } else {
                    Err(CompileError { kind: CompileErrorKind::UnexpectedEnd, start: n, end: n })
                }
            },
        },
        _ => Ok((acc, i)),
    }
}

impl WhereClause {
    /// Compiles a WHERE-clause expression. The result is a function of the
    /// input characters alone: equal inputs compile to equal predicates.
    /// Every failure carries the character span of the offending input.
    pub fn new(input: &str) -> (r: Result<WhereClause, CompileError>)
        ensures
            match (r, spec_compile(input@)) {
                (Ok(c), Ok(cv)) => c@ == cv,
                (Err(e), Err(ev)) => e == ev,
                _ => false,
            },
    {
        let s = to_chars(input);
        let n = s.len();
        let toks = match tokenize_chars(&s) {
            Ok(t) => t,
            Err(e) => {
                return Err(e);
            },
        };
        match parse_or(&toks, n, 0) {
            Err(e) => Err(e),
            Ok((c, j)) => {
                if j == toks.len() {
                    Ok(c)
                } else {
                    Err(
                        CompileError {
                            kind: CompileErrorKind::TrailingInput,
                            start: toks[j].start,
                            end: toks[j].end,
                        },
                    )
                }
            },
        }
    }
}

/// Compilation is deterministic: two predicates compiled from the same
/// input evaluate identically on every record.
pub proof fn lemma_compile_deterministic<T: ReadTag>(c1: ClauseV, c2: ClauseV, s: Seq<char>, t: &T)
    requires
        spec_compile(s) == Ok::<ClauseV, CompileError>(c1),
        spec_compile(s) == Ok::<ClauseV, CompileError>(c2),
    ensures
        spec_check(c1, t) == spec_check(c2, t),
{
}

impl CompileError {
    /// A human-readable description, with the character span of the
    /// offending input.
    pub fn message(&self) -> (r: String)
        ensures
            r@ == spec_message(*self),
    {
        let phrase: &str = match self.kind {
            CompileErrorKind::UnexpectedChar => "unexpected character",
            CompileErrorKind::UnterminatedText => "unterminated string literal",
            CompileErrorKind::NumberOverflow => "number cannot be represented as a u32",
            CompileErrorKind::UnexpectedToken => "unexpected token",
            CompileErrorKind::UnexpectedEnd => "unexpected end of input",
            CompileErrorKind::TrailingInput => "unexpected input after expression",
            CompileErrorKind::UnknownTag => "unknown tag",
            CompileErrorKind::TypeMismatch => "literal type does not match tag type",
        };
        let mut v = to_chars(phrase);
        let at = to_chars(" at ");
        let dots = to_chars("..");
        let ghost before = v@;
        let mut k: usize = 0;
        while k < at.len()
            invariant
                k <= at@.len(),
                v@ =~= before + at@.take(k as int),
            decreases at.len() - k,
        {
            v.push(at[k]);
            proof {
                assert(at@.take(k + 1 as int) =~= at@.take(k as int).push(at@[k as int]));
            }
            k = k + 1;
        }
        proof {
            assert(at@.take(at@.len() as int) =~= at@);
        }
        let start_digits = dec_digit_chars(self.start as u64);
        let ghost before2 = v@;
        let mut k2: usize = 0;
        while k2 < start_digits.len()
            invariant
                k2 <= start_digits@.len(),
                v@ =~= before2 + start_digits@.take(k2 as int),
            decreases start_digits.len() - k2,
        {
            v.push(start_digits[k2]);
            proof {
                assert(start_digits@.take(k2 + 1 as int) =~= start_digits@.take(k2 as int).push(
                    start_digits@[k2 as int],
                ));
            }
            k2 = k2 + 1;
        }
        proof {
            assert(start_digits@.take(start_digits@.len() as int) =~= start_digits@);
        }
        let ghost before3 = v@;
        let mut k3: usize = 0;
        while k3 < dots.len()
            invariant
                k3 <= dots@.len(),
                v@ =~= before3 + dots@.take(k3 as int),
            decreases dots.len() - k3,
        {
            v.push(dots[k3]);
            proof {
                assert(dots@.take(k3 + 1 as int) =~= dots@.take(k3 as int).push(dots@[k3 as int]));
            }
            k3 = k3 + 1;
        }
        proof {
            assert(dots@.take(dots@.len() as int) =~= dots@);
        }
        let end_digits = dec_digit_chars(self.end as u64);
        let ghost before4 = v@;
        let mut k4: usize = 0;
        while k4 < end_digits.len()
            invariant
                k4 <= end_digits@.len(),
                v@ =~= before4 + end_digits@.take(k4 as int),
            decreases end_digits.len() - k4,
        {
            v.push(end_digits[k4]);
            proof {
                assert(end_digits@.take(k4 + 1 as int) =~= end_digits@.take(k4 as int).push(
                    end_digits@[k4 as int],
                ));
            }
            k4 = k4 + 1;
        }
        proof {
            assert(end_digits@.take(end_digits@.len() as int) =~= end_digits@);
            assert(v@ =~= spec_message(*self));
        }
        from_chars(&v)
    }
}

/// The text of a diagnostic: a phrase naming the failure and the character
/// span where it occurred.
pub open spec fn spec_message(e: CompileError) -> Seq<char> {
    spec_kind_phrase(e.kind) + " at "@ + crate::numeric::spec_dec_digits(e.start as int) + ".."@
        + crate::numeric::spec_dec_digits(e.end as int)
}

pub open spec fn spec_kind_phrase(k: CompileErrorKind) -> Seq<char> {
    match k {
        CompileErrorKind::UnexpectedChar => "unexpected character"@,
        CompileErrorKind::UnterminatedText => "unterminated string literal"@,
        CompileErrorKind::NumberOverflow => "number cannot be represented as a u32"@,
        CompileErrorKind::UnexpectedToken => "unexpected token"@,
        CompileErrorKind::UnexpectedEnd => "unexpected end of input"@,
        CompileErrorKind::TrailingInput => "unexpected input after expression"@,
        CompileErrorKind::UnknownTag => "unknown tag"@,
        CompileErrorKind::TypeMismatch => "literal type does not match tag type"@,
    }
}

} // verus!
