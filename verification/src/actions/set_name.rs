//! Parsing filename templates like `${track-number} - ${title}` and turning
//! them into the tag list and the regular-expression text the filename
//! matcher uses.

use vstd::prelude::*;

use crate::lexer::word_end;
use crate::model::MyTag;
use crate::ops::{lemma_dedup_no_dup, spec_dedup};
use crate::strings::{from_chars, to_chars};
use crate::text_edit::spec_replace_all;

verus! {

/// A piece of a template: literal text between placeholders, or the name
/// inside one `${...}` placeholder.
#[derive(Debug, PartialEq)]
pub enum Token {
    Chars(String),
    Tags(String),
}

/// The mathematical form of a template piece.
pub enum TokenV {
    Chars(Seq<char>),
    Tags(Seq<char>),
}

impl View for Token {
    type V = TokenV;

    open spec fn view(&self) -> TokenV {
        match self {
            Token::Chars(s) => TokenV::Chars(s@),
            Token::Tags(s) => TokenV::Tags(s@),
        }
    }
}

impl Token {
    /// The tag a placeholder names, if it names one.
    pub fn to_tag(&self) -> (r: Option<MyTag>)
        ensures
            r == match self@ {
                TokenV::Tags(value) => MyTag::spec_tag_of(value),
                TokenV::Chars(_) => None::<MyTag>,
            },
    {
        match self {
            Token::Tags(value) => MyTag::from_str(value.as_str()),
            _ => None,
        }
    }
}

/// Where a `${word}` placeholder starting at `j` ends (one past `}`), if
/// one starts there: `$`, `{`, at least one word character, `}`.
pub open spec fn spec_placeholder_end(s: Seq<char>, j: int) -> Option<int> {
    if j + 2 <= s.len() && s[j] == '$' && s[j + 1] == '{' {
        let e = word_end(s, j + 2);
        if e > j + 2 && e < s.len() && s[e] == '}' {
            Some(e + 1)
        } else {
            None
        }
    } else {
        None
    }
}

/// The template pieces from position `j` on; `g` marks where the pending
/// literal segment began. Literal text after the last placeholder is
/// dropped. A placeholder that names no tag fails with that name.
pub open spec fn spec_scan_template(s: Seq<char>, g: int, j: int) -> Result<
    Seq<TokenV>,
    Seq<char>,
>
    decreases s.len() - j,
{
    if j < 0 || j >= s.len() {
        Ok(Seq::empty())
    } else {
        match spec_placeholder_end(s, j) {
            Some(e) => {
                let word = s.subrange(j + 2, e - 1);
                if MyTag::spec_tag_of(word) is None {
                    Err(word)
                } else if j < e <= s.len() {
                    match spec_scan_template(s, e, e) {
                        Err(w) => Err(w),
                        Ok(rest) => Ok(
                            (if g < j {
                                seq![TokenV::Chars(s.subrange(g, j))]
                            } else {
                                Seq::empty()
                            }) + seq![TokenV::Tags(word)] + rest,
                        ),
                    }
                } else {
                    // a placeholder always ends past its start; this arm
                    // only keeps the recursion well-founded
                    Err(Seq::empty())
                }
            },
            None => spec_scan_template(s, g, j + 1),
        }
    }
}

/// The views of a template token list.
pub open spec fn template_toks_view(ts: Seq<Token>) -> Seq<TokenV> {
    ts.map_values(|t: Token| t@)
}

/// Splits a template into literal pieces and placeholders. Fails with a
/// message naming the first placeholder that is no tag.
pub fn get_tokens(input: &str) -> (r: Result<Vec<Token>, String>)
    ensures
        match (r, spec_scan_template(input@, 0, 0)) {
            (Ok(ts), Ok(tvs)) => template_toks_view(ts@) == tvs,
            (Err(m), Err(w)) => m@ == w + " is NOT a tag."@,
            _ => false,
        },
{
    let s = to_chars(input);
    let n = s.len();
    let mut toks: Vec<Token> = Vec::new();
    let mut g: usize = 0;
    let mut j: usize = 0;
    while j < n
        invariant
            g <= j,
            j <= n,
            n == s@.len(),
            s@ == input@,
            spec_scan_template(input@, 0, 0) == match spec_scan_template(
                input@,
                g as int,
                j as int,
            ) {
                Err(w) => Err::<Seq<TokenV>, Seq<char>>(w),
                Ok(rest) => Ok::<Seq<TokenV>, Seq<char>>(template_toks_view(toks@) + rest),
            },
        decreases n - j,
    {
        let mut matched_end: usize = 0;
        let mut is_match = false;
        if j + 1 < n && s[j] == '$' && s[j + 1] == '{' {
            let mut e = j + 2;
            while e < n && crate::lexer::is_word(s[e])
                invariant
                    j + 2 <= e <= n,
                    n == s@.len(),
                    word_end(s@, j + 2 as int) == word_end(s@, e as int),
                decreases n - e,
            {
                proof {
                    assert(word_end(s@, e as int) == word_end(s@, e + 1 as int));
                }
                e = e + 1;
            }
            proof {
                assert(word_end(s@, e as int) == e as int);
            }
            if e > j + 2 && e < n && s[e] == '}' {
                matched_end = e;
                is_match = true;
            }
        }
        if is_match {
            let e = matched_end;
            let mut wv: Vec<char> = Vec::new();
            let mut k = j + 2;
            while k < e
                invariant
                    j + 2 <= k <= e,
                    e < n,
                    n == s@.len(),
                    wv@ =~= s@.subrange(j + 2 as int, k as int),
                decreases e - k,
            {
                wv.push(s[k]);
                proof {
                    assert(s@.subrange(j + 2 as int, k + 1 as int) =~= s@.subrange(
                        j + 2 as int,
                        k as int,
                    ).push(s@[k as int]));
                }
                k = k + 1;
            }
            let word = from_chars(&wv);
            match MyTag::from_str(word.as_str()) {
                None => {
                    return Err(word.concat(" is NOT a tag."));
                },
                Some(_) => {
                    if g < j {
                        let mut cv: Vec<char> = Vec::new();
                        let mut k2 = g;
                        while k2 < j
                            invariant
                                g <= k2 <= j,
                                j <= n,
                                n == s@.len(),
                                cv@ =~= s@.subrange(g as int, k2 as int),
                            decreases j - k2,
                        {
                            cv.push(s[k2]);
                            proof {
                                assert(s@.subrange(g as int, k2 + 1 as int) =~= s@.subrange(
                                    g as int,
                                    k2 as int,
                                ).push(s@[k2 as int]));
                            }
                            k2 = k2 + 1;
                        }
                        let seg = from_chars(&cv);
                        proof {
                            let ghost prev = toks@;
                            assert(template_toks_view(
                                prev.push(Token::Chars(seg)).push(Token::Tags(word)),
                            ) =~= template_toks_view(prev) + seq![
                                TokenV::Chars(seg@),
                                TokenV::Tags(word@),
                            ]);
                            if let Ok(rest) = spec_scan_template(
                                input@,
                                e + 1 as int,
                                e + 1 as int,
                            ) {
                                assert((template_toks_view(prev) + seq![
                                    TokenV::Chars(seg@),
                                    TokenV::Tags(word@),
                                ]) + rest =~= template_toks_view(prev) + ((seq![
                                    TokenV::Chars(s@.subrange(g as int, j as int)),
                                ] + seq![TokenV::Tags(word@)]) + rest));
                            }
                        }
                        toks.push(Token::Chars(seg));
                        toks.push(Token::Tags(word));
                    } else {
                        proof {
                            let ghost prev = toks@;
                            assert(template_toks_view(prev.push(Token::Tags(word)))
                                =~= template_toks_view(prev) + seq![TokenV::Tags(word@)]);
                            if let Ok(rest) = spec_scan_template(
                                input@,
                                e + 1 as int,
                                e + 1 as int,
                            ) {
                                assert((template_toks_view(prev) + seq![TokenV::Tags(word@)])
                                    + rest =~= template_toks_view(prev) + ((Seq::empty() + seq![
                                    TokenV::Tags(word@),
                                ]) + rest));
                            }
                        }
                        toks.push(Token::Tags(word));
                    }
                    g = e + 1;
                    j = e + 1;
                },
            }
        } else {
            proof {
                assert(spec_scan_template(input@, g as int, j as int) == spec_scan_template(
                    input@,
                    g as int,
                    j + 1 as int,
                ));
            }
            j = j + 1;
        }
    }
    proof {
        assert(spec_scan_template(input@, g as int, j as int) == Ok::<Seq<TokenV>, Seq<char>>(
            Seq::empty(),
        ));
        if let Ok(tvs) = spec_scan_template(input@, 0, 0) {
            assert(template_toks_view(toks@) + Seq::<TokenV>::empty() =~= template_toks_view(
                toks@,
            ));
        }
    }
    Ok(toks)
}

/// The tags the template's placeholders name, in order of appearance.
pub open spec fn spec_template_tags(toks: Seq<TokenV>) -> Seq<MyTag>
    decreases toks.len(),
{
    if toks.len() == 0 {
        Seq::empty()
    } else {
        let rest = spec_template_tags(toks.drop_last());
        match toks.last() {
            TokenV::Tags(w) => match MyTag::spec_tag_of(w) {
                Some(tag) => rest.push(tag),
                None => rest,
            },
            TokenV::Chars(_) => rest,
        }
    }
}

/// The tags a template names, each once, in order of first appearance.
/// A template naming no tag is refused.
pub fn get_tags_from_template(input: &str) -> (r: Result<Vec<MyTag>, String>)
    ensures
        match r {
            Ok(v) => {
                &&& spec_scan_template(input@, 0, 0) matches Ok(tvs) && v@ == spec_dedup(
                    spec_template_tags(tvs),
                )
                &&& v@.len() > 0
            },
            Err(_) => match spec_scan_template(input@, 0, 0) {
                Ok(tvs) => spec_template_tags(tvs).len() == 0,
                Err(_) => true,
            },
        },
{
    let toks = match get_tokens(input) {
        Ok(t) => t,
        Err(_) => {
            // a template that fails to scan names no usable tag, so the
            // refusal is the same as for a tagless template
            return Err(
                String::from_str(
                    "You must specified one tag at least in \"--template\" parameter!",
                ),
            );
        },
    };
    let mut res: Vec<MyTag> = Vec::new();
    let mut i: usize = 0;
    while i < toks.len()
        invariant
            i <= toks@.len(),
            res@ == spec_dedup(spec_template_tags(template_toks_view(toks@).take(i as int))),
        decreases toks.len() - i,
    {
        proof {
            assert(template_toks_view(toks@).take(i + 1 as int).drop_last()
                =~= template_toks_view(toks@).take(i as int));
            assert(template_toks_view(toks@).take(i + 1 as int).last() == toks@[i as int]@);
        }
        match toks[i].to_tag() {
            Some(tag) => {
                let ghost before = spec_template_tags(
                    template_toks_view(toks@).take(i as int),
                );
                proof {
                    assert(spec_template_tags(template_toks_view(toks@).take(i + 1 as int))
                        =~= before.push(tag));
                    assert(before.push(tag).drop_last() =~= before);
                    assert(before.push(tag).last() == tag);
                    assert(spec_dedup(before.push(tag)) == (if spec_dedup(before).contains(tag) {
                        spec_dedup(before)
                    } else {
                        spec_dedup(before).push(tag)
                    }));
                }
                if !tags_contain(&res, tag) {
                    res.push(tag);
                }
            },
            None => {
                proof {
                    assert(spec_template_tags(template_toks_view(toks@).take(i + 1 as int))
                        =~= spec_template_tags(template_toks_view(toks@).take(i as int)));
                }
            },
        }
        i = i + 1;
    }
    proof {
        assert(template_toks_view(toks@).take(toks@.len() as int) =~= template_toks_view(toks@));
    }
    if res.len() > 0 {
        Ok(res)
    } else {
        proof {
            lemma_dedup_len(spec_template_tags(template_toks_view(toks@)));
        }
        Err(
            String::from_str("You must specified one tag at least in \"--template\" parameter!"),
        )
    }
}

fn tags_contain(v: &Vec<MyTag>, t: MyTag) -> (r: bool)
    ensures
        r == v@.contains(t),
{
    let mut i: usize = 0;
    while i < v.len()
        invariant
            i <= v.len(),
            forall|j: int| 0 <= j < i ==> v@[j] != t,
        decreases v.len() - i,
    {
        if v[i] == t {
            return true;
        }
        i = i + 1;
    }
    false
}

/// An empty deduplication comes only from an empty list.
proof fn lemma_dedup_len(s: Seq<MyTag>)
    requires
        spec_dedup(s).len() == 0,
    ensures
        s.len() == 0,
    decreases s.len(),
{
    if s.len() > 0 {
        let rest = spec_dedup(s.drop_last());
        if rest.contains(s.last()) {
            assert(rest.len() > 0);
            if s.drop_last().len() > 0 {
                lemma_dedup_len(s.drop_last());
            }
        }
    }
}

/// The regular-expression text a template compiles to: each placeholder
/// becomes a named capture group (the tag name with hyphens removed), and
/// each literal piece is escaped and wrapped in a lookahead.
pub open spec fn spec_template_regex(toks: Seq<TokenV>) -> Seq<char>
    decreases toks.len(),
{
    if toks.len() == 0 {
        Seq::empty()
    } else {
        spec_template_regex(toks.drop_last()) + spec_token_regex(toks.last())
    }
}

pub open spec fn spec_token_regex(tok: TokenV) -> Seq<char> {
    match tok {
        TokenV::Tags(s) => "(?<"@ + spec_replace_all(s, "-"@, Seq::empty()) + ">.*)"@,
        TokenV::Chars(s) => "(?="@ + spec_escape(s) + ")"@ + spec_escape(s),
    }
}

/// Regular-expression metacharacters escaped with a backslash.
pub open spec fn spec_escape(s: Seq<char>) -> Seq<char>
    decreases s.len(),
{
    if s.len() == 0 {
        Seq::empty()
    } else {
        (if is_regex_meta(s[0]) {
            seq!['\\', s[0]]
        } else {
            seq![s[0]]
        }) + spec_escape(s.skip(1))
    }
}

pub open spec fn is_regex_meta(c: char) -> bool {
    c == '.' || c == '?' || c == '+' || c == '*' || c == '^' || c == '$' || c == '(' || c == ')'
        || c == '{' || c == '}' || c == '[' || c == ']' || c == '|' || c == '\\'
}

/// Escapes regular-expression metacharacters in a literal piece.
pub fn escape(input: &str) -> (r: String)
    ensures
        r@ == spec_escape(input@),
{
    let chars = to_chars(input);
    let mut v: Vec<char> = Vec::new();
    let mut i: usize = 0;
    while i < chars.len()
        invariant
            i <= chars@.len(),
            chars@ == input@,
            v@ =~= spec_escape(input@.take(i as int)),
        decreases chars.len() - i,
    {
        let c = chars[i];
        let meta = c == '.' || c == '?' || c == '+' || c == '*' || c == '^' || c == '$' || c
            == '(' || c == ')' || c == '{' || c == '}' || c == '[' || c == ']' || c == '|' || c
            == '\\';
        if meta {
            v.push('\\');
        }
        v.push(c);
        proof {
            lemma_escape_push(input@, i as int);
        }
        i = i + 1;
    }
    proof {
        assert(input@.take(input@.len() as int) =~= input@);
    }
    from_chars(&v)
}

/// Escaping one more character extends the escaped prefix.
proof fn lemma_escape_push(s: Seq<char>, i: int)
    requires
        0 <= i < s.len(),
    ensures
        spec_escape(s.take(i + 1)) == spec_escape(s.take(i)) + (if is_regex_meta(s[i]) {
            seq!['\\', s[i]]
        } else {
            seq![s[i]]
        }),
    decreases i,
{
    if i == 0 {
        assert(s.take(1)[0] == s[0]);
        assert(s.take(1).skip(1) =~= Seq::<char>::empty());
        assert(spec_escape(Seq::<char>::empty()) =~= Seq::<char>::empty());
        assert((if is_regex_meta(s[0]) {
            seq!['\\', s[0]]
        } else {
            seq![s[0]]
        }) + Seq::<char>::empty() =~= (if is_regex_meta(s[0]) {
            seq!['\\', s[0]]
        } else {
            seq![s[0]]
        }));
        assert(spec_escape(s.take(1)) =~= (if is_regex_meta(s[0]) {
            seq!['\\', s[0]]
        } else {
            seq![s[0]]
        }));
        assert(spec_escape(s.take(0)) =~= Seq::empty());
        assert(spec_escape(s.take(0)) + (if is_regex_meta(s[0]) {
            seq!['\\', s[0]]
        } else {
            seq![s[0]]
        }) =~= spec_escape(s.take(1)));
    } else {
        lemma_escape_push(s.skip(1), i - 1);
        assert(s.take(i + 1)[0] == s[0]);
        assert(s.take(i + 1).skip(1) =~= s.skip(1).take(i));
        assert(s.take(i).skip(1) =~= s.skip(1).take(i - 1));
        assert(s.take(i)[0] == s[0]);
        assert(s.skip(1)[i - 1] == s[i]);
        let h = (if is_regex_meta(s[0]) {
            seq!['\\', s[0]]
        } else {
            seq![s[0]]
        });
        let last = (if is_regex_meta(s[i]) {
            seq!['\\', s[i]]
        } else {
            seq![s[i]]
        });
        assert(spec_escape(s.take(i + 1)) == h + spec_escape(s.skip(1).take(i)));
        assert(spec_escape(s.take(i)) == h + spec_escape(s.skip(1).take(i - 1)));
        assert(spec_escape(s.skip(1).take(i)) == spec_escape(s.skip(1).take(i - 1)) + last);
        assert(h + (spec_escape(s.skip(1).take(i - 1)) + last) =~= (h + spec_escape(
            s.skip(1).take(i - 1),
        )) + last);
    }
}

/// Builds the regular-expression text for a token list.
pub fn to_string(input: &Vec<Token>) -> (r: String)
    ensures
        r@ == spec_template_regex(template_toks_view(input@)),
{
    let mut v: Vec<char> = Vec::new();
    let mut i: usize = 0;
    while i < input.len()
        invariant
            i <= input@.len(),
            v@ =~= spec_template_regex(template_toks_view(input@).take(i as int)),
        decreases input.len() - i,
    {
        proof {
            assert(template_toks_view(input@).take(i + 1 as int).drop_last()
                =~= template_toks_view(input@).take(i as int));
            assert(template_toks_view(input@).take(i + 1 as int).last() == input@[i as int]@);
        }
        match &input[i] {
            Token::Tags(s) => {
                let dehyphened = crate::text_edit::get_replaced_any(s.as_str(), "-", "", false);
                let core = match dehyphened {
                    Some(d) => d,
                    None => String::new(),
                };
                proof {
                    reveal_strlit("");
                    assert(""@ =~= Seq::<char>::empty());
                }
                let part = String::from_str("(?<").concat(core.as_str()).concat(">.*)");
                let pc = to_chars(part.as_str());
                let mut k: usize = 0;
                let ghost before = v@;
                while k < pc.len()
                    invariant
                        k <= pc@.len(),
                        v@ =~= before + pc@.take(k as int),
                    decreases pc.len() - k,
                {
                    v.push(pc[k]);
                    proof {
                        assert(pc@.take(k + 1 as int) =~= pc@.take(k as int).push(
                            pc@[k as int],
                        ));
                    }
                    k = k + 1;
                }
                proof {
                    assert(pc@.take(pc@.len() as int) =~= pc@);
                }
            },
            Token::Chars(s) => {
                let escaped = escape(s.as_str());
                let part = String::from_str("(?=").concat(escaped.as_str()).concat(")").concat(
                    escaped.as_str(),
                );
                let pc = to_chars(part.as_str());
                let mut k: usize = 0;
                let ghost before = v@;
                while k < pc.len()
                    invariant
                        k <= pc@.len(),
                        v@ =~= before + pc@.take(k as int),
                    decreases pc.len() - k,
                {
                    v.push(pc[k]);
                    proof {
                        assert(pc@.take(k + 1 as int) =~= pc@.take(k as int).push(
                            pc@[k as int],
                        ));
                    }
                    k = k + 1;
                }
                proof {
                    assert(pc@.take(pc@.len() as int) =~= pc@);
                }
            },
        }
        i = i + 1;
    }
    proof {
        assert(template_toks_view(input@).take(input@.len() as int) =~= template_toks_view(
            input@,
        ));
    }
    from_chars(&v)
}

/// The regular-expression text for a whole template. Empty when the
/// template holds no pieces.
pub fn get_regex_string(input: &str) -> (r: Result<String, String>)
    ensures
        match (r, spec_scan_template(input@, 0, 0)) {
            (Ok(s), Ok(tvs)) => s@ == spec_template_regex(tvs),
            (Err(m), Err(w)) => m@ == w + " is NOT a tag."@,
            _ => false,
        },
{
    let tokens = match get_tokens(input) {
        Ok(t) => t,
        Err(e) => {
            return Err(e);
        },
    };
    Ok(to_string(&tokens))
}

} // verus!
