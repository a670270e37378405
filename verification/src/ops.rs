//! Shared rules of the editing operations: tag-list handling, predicate
//! checks against a record, and the validity checks on constant values.

use vstd::prelude::*;

use crate::model::{ConstValue, ModifyMode, MyTag};
use crate::record::ReadTag;
use crate::lexer::CompileError;
use crate::where_clause::{spec_check, spec_compile, WhereClause};

verus! {

pub const MIN_PADDING: usize = 1;

pub const MAX_PADDING: usize = 9;

pub const MIN_NUMBER: u32 = 0;

pub const MIN_NATURAL_NUMBER: u32 = 1;

pub const MAX_NUMBER: u32 = 65535;

/// Whether `chrono` accepts `value` as a date under `format`; the outcome
/// depends on the two strings alone.
pub uninterp spec fn spec_date_valid(value: Seq<char>, format: Seq<char>) -> bool;

/// Relies on `chrono::NaiveDate::parse_from_str`: whether parsing succeeds
/// is a function of the value and format strings alone.
#[verifier::external_body]
fn date_is_valid(value: &str, format: &str) -> (r: bool)
    ensures
        r == spec_date_valid(value@, format@),
{
    chrono::NaiveDate::parse_from_str(value, format).is_ok()
}

/// The tag list with later duplicates dropped, keeping first occurrences.
pub open spec fn spec_dedup(s: Seq<MyTag>) -> Seq<MyTag>
    decreases s.len(),
{
    if s.len() == 0 {
        Seq::empty()
    } else {
        let rest = spec_dedup(s.drop_last());
        if rest.contains(s.last()) {
            rest
        } else {
            rest.push(s.last())
        }
    }
}

fn contains_tag(v: &Vec<MyTag>, t: MyTag) -> (r: bool)
    ensures
        r == v@.contains(t),
{
    let mut i: usize = 0;
    while i < v.len()
        invariant
            i <= v.len(),
            forall|j: int| 0 <= j < i ==> v@[j] != t,
        decreases v.len() - i,
    {
        if v[i] == t {
            return true;
        }
        i = i + 1;
    }
    false
}

/// The tags an operation will touch: the given ones with duplicates
/// dropped, or the default list when none are given. An empty outcome is
/// refused.
pub fn get_tags_from_args(tags: &Vec<MyTag>, default: &Vec<MyTag>) -> (r: Result<
    Vec<MyTag>,
    String,
>)
    ensures
        match r {
            Ok(v) => v@.len() > 0 && (if tags@.len() > 0 {
                v@ == spec_dedup(tags@)
            } else {
                v@ == default@
            }),
            Err(_) => tags@.len() == 0 && default@.len() == 0,
        },
{
    if tags.len() > 0 {
        let mut res: Vec<MyTag> = Vec::new();
        let mut i: usize = 0;
        while i < tags.len()
            invariant
                i <= tags.len(),
                res@ == spec_dedup(tags@.take(i as int)),
            decreases tags.len() - i,
        {
            proof {
                assert(tags@.take(i + 1 as int).drop_last() =~= tags@.take(i as int));
                assert(tags@.take(i + 1 as int).last() == tags@[i as int]);
            }
            if !contains_tag(&res, tags[i]) {
                res.push(tags[i]);
            }
            i = i + 1;
        }
        proof {
            assert(tags@.take(tags@.len() as int) =~= tags@);
            lemma_dedup_nonempty(tags@);
        }
        Ok(res)
    } else if default.len() > 0 {
        let mut res: Vec<MyTag> = Vec::new();
        let mut i: usize = 0;
        while i < default.len()
            invariant
                i <= default.len(),
                res@ == default@.take(i as int),
            decreases default.len() - i,
        {
            res.push(default[i]);
            proof {
                assert(default@.take(i + 1 as int) =~= default@.take(i as int).push(
                    default@[i as int],
                ));
            }
            i = i + 1;
        }
        proof {
            assert(default@.take(default@.len() as int) =~= default@);
        }
        Ok(res)
    } else {
        Err(
            String::from_str("You must specified one tag at least for \"--tags\" parameter!"),
        )
    }
}

/// Whether a tag list holds no tag twice.
pub open spec fn spec_no_dup(s: Seq<MyTag>) -> bool {
    forall|i: int, j: int| 0 <= i < j < s.len() ==> s[i] != s[j]
}

/// Deduplication leaves no duplicates behind.
pub proof fn lemma_dedup_no_dup(s: Seq<MyTag>)
    ensures
        spec_no_dup(spec_dedup(s)),
        forall|t: MyTag| #[trigger] spec_dedup(s).contains(t) ==> s.contains(t),
    decreases s.len(),
{
    if s.len() > 0 {
        lemma_dedup_no_dup(s.drop_last());
        let rest = spec_dedup(s.drop_last());
        assert(forall|t: MyTag| #[trigger] s.drop_last().contains(t) ==> s.contains(t));
        if !rest.contains(s.last()) {
            let r = rest.push(s.last());
            assert(s.contains(s.last()));
            assert forall|i: int, j: int| 0 <= i < j < r.len() implies r[i] != r[j] by {
                if j == r.len() - 1 {
                    assert(rest.contains(rest[i]));
                }
            }
            assert forall|t: MyTag| #[trigger] r.contains(t) implies s.contains(t) by {
                if t != s.last() {
                    let k = choose|k: int| 0 <= k < r.len() && r[k] == t;
                    assert(rest[k] == t);
                    assert(rest.contains(t));
                }
            }
        }
    }
}

/// Deduplicating a non-empty list leaves it non-empty.
proof fn lemma_dedup_nonempty(s: Seq<MyTag>)
    requires
        s.len() > 0,
    ensures
        spec_dedup(s).len() > 0,
    decreases s.len(),
{
    if s.len() > 1 {
        lemma_dedup_nonempty(s.drop_last());
    }
}

/// Evaluates an optional predicate against a record: no predicate means
/// "always match"; an indeterminate evaluation is an error.
pub fn check_where<T: ReadTag>(where_clause: &Option<WhereClause>, t: &T) -> (r: Result<
    bool,
    String,
>)
    ensures
        match r {
            Ok(b) => match where_clause {
                None => b == true,
                Some(w) => spec_check(w@, t) == Some(b),
            },
            Err(_) => where_clause matches Some(w) && spec_check(w@, t) is None,
        },
{
    match where_clause {
        Some(w) => match w.check(t) {
            Some(b) => Ok(b),
            None => Err(String::from_str("Some error in where clause.")),
        },
        None => Ok(true),
    }
}

/// Compiles an optional WHERE string. Absence means no filtering.
pub fn get_where(where_string: &Option<String>) -> (r: Result<Option<WhereClause>, CompileError>)
    ensures
        match r {
            Ok(o) => match (where_string, o) {
                (None, None) => true,
                (Some(s), Some(w)) => spec_compile(s@) == Ok::<_, CompileError>(w@),
                _ => false,
            },
            Err(e) => where_string matches Some(s) && spec_compile(s@) == Err::<
                crate::where_clause::ClauseV,
                _,
            >(e),
        },
{
    match where_string {
        Some(s) => match WhereClause::new(s.as_str()) {
            Ok(w) => Ok(Some(w)),
            Err(e) => Err(e),
        },
        None => Ok(None),
    }
}

/// A freshly computed value, or nothing when it equals the current one.
pub fn string_to_option(new_value: String, value: &str) -> (r: Option<String>)
    ensures
        match r {
            Some(s) => s@ == new_value@ && new_value@ != value@,
            None => new_value@ == value@,
        },
{
    if !crate::strings::str_eq(new_value.as_str(), value) {
        Some(new_value)
    } else {
        None
    }
}

/// Whether some listed tag is numeric or a date.
pub open spec fn spec_exist_numeric_or_date(tags: Seq<MyTag>) -> bool {
    exists|i: int|
        0 <= i < tags.len() && (tags[i].spec_is_numeric() || tags[i].spec_is_date())
}

pub fn exist_numeric_or_date(tags: &Vec<MyTag>) -> (r: bool)
    ensures
        r == spec_exist_numeric_or_date(tags@),
{
    let mut i: usize = 0;
    while i < tags.len()
        invariant
            i <= tags.len(),
            forall|j: int|
                0 <= j < i ==> !(tags@[j].spec_is_numeric() || tags@[j].spec_is_date()),
        decreases tags.len() - i,
    {
        let t = tags[i];
        if t.is_numeric() || t.is_date() {
            proof {
                assert(0 <= i < tags@.len() && (tags@[i as int].spec_is_numeric()
                    || tags@[i as int].spec_is_date()));
            }
            return true;
        }
        i = i + 1;
    }
    false
}

/// Numeric and date tags only take constants in overwrite mode.
pub fn check_numeric_date_tags_must_be_overwrite(tags: &Vec<MyTag>, mode: &ModifyMode) -> (r:
    Result<(), String>)
    ensures
        match r {
            Ok(_) => !(spec_exist_numeric_or_date(tags@) && *mode != ModifyMode::Overwrite),
            Err(_) => spec_exist_numeric_or_date(tags@) && *mode != ModifyMode::Overwrite,
        },
{
    if exist_numeric_or_date(tags) && !(*mode == ModifyMode::Overwrite) {
        Err(
            String::from_str(
                "numeric or date constant value must work with \"--modify-mode overwrite\".",
            ),
        )
    } else {
        Ok(())
    }
}

/// Whether every listed tag fits the constant's kind.
pub open spec fn spec_tags_fit_value(tags: Seq<MyTag>, value: ConstValue) -> bool {
    match value {
        ConstValue::Date { .. } => forall|i: int|
            0 <= i < tags.len() ==> tags[i].spec_is_date(),
        ConstValue::Num { .. } => forall|i: int|
            0 <= i < tags.len() ==> tags[i].spec_is_numeric(),
        ConstValue::Text { .. } => forall|i: int|
            0 <= i < tags.len() ==> tags[i].spec_is_text(),
    }
}

/// A constant may only be written to tags of its own data class.
pub fn check_tags_type_value_type(tags: &Vec<MyTag>, value: &ConstValue) -> (r: Result<
    (),
    String,
>)
    ensures
        match r {
            Ok(_) => spec_tags_fit_value(tags@, *value),
            Err(_) => !spec_tags_fit_value(tags@, *value),
        },
{
    let mut i: usize = 0;
    while i < tags.len()
        invariant
            i <= tags.len(),
            match value {
                ConstValue::Date { .. } => forall|j: int|
                    0 <= j < i ==> tags@[j].spec_is_date(),
                ConstValue::Num { .. } => forall|j: int|
                    0 <= j < i ==> tags@[j].spec_is_numeric(),
                ConstValue::Text { .. } => forall|j: int|
                    0 <= j < i ==> tags@[j].spec_is_text(),
            },
        decreases tags.len() - i,
    {
        let t = tags[i];
        let ok = match value {
            ConstValue::Date { .. } => t.is_date(),
            ConstValue::Num { .. } => t.is_numeric(),
            ConstValue::Text { .. } => t.is_text(),
        };
        if !ok {
            let msg = match value {
                ConstValue::Date { .. } => String::from_str(
                    "date constant value only work with date tags.",
                ),
                ConstValue::Num { .. } => String::from_str(
                    "numeric constant value only work with numeric tags.",
                ),
                ConstValue::Text { .. } => String::from_str(
                    "text constant value only work with text tags.",
                ),
            };
            return Err(msg);
        }
        i = i + 1;
    }
    Ok(())
}

/// Whether a numeric constant is admissible for the listed tags: it must
/// fit the numeric domain, its padding must be sensible, and zero is
/// refused for the track and disc counters.
pub open spec fn spec_num_const_ok(tags: Seq<MyTag>, value: u32, padding: int) -> bool {
    &&& value <= MAX_NUMBER
    &&& MIN_PADDING as int <= padding <= MAX_PADDING as int
    &&& !(value < MIN_NATURAL_NUMBER && (tags.contains(MyTag::TrackNumber) || tags.contains(
        MyTag::TrackTotal,
    ) || tags.contains(MyTag::DiscNumber) || tags.contains(MyTag::DiscTotal)))
}

/// Validates a constant value against the listed tags: bounds for numbers,
/// parseability for dates.
pub fn check_value_is_ok(tags: &Vec<MyTag>, value: &ConstValue) -> (r: Result<(), String>)
    ensures
        match r {
            Ok(_) => match value {
                ConstValue::Num { value: v, padding } => spec_num_const_ok(
                    tags@,
                    *v,
                    *padding as int,
                ),
                ConstValue::Date { value: v, format } => spec_date_valid(v@, format@),
                ConstValue::Text { .. } => true,
            },
            Err(_) => match value {
                ConstValue::Num { value: v, padding } => !spec_num_const_ok(
                    tags@,
                    *v,
                    *padding as int,
                ),
                ConstValue::Date { value: v, format } => !spec_date_valid(v@, format@),
                ConstValue::Text { .. } => false,
            },
        },
{
    match value {
        ConstValue::Num { value: v, padding } => {
            if *v > MAX_NUMBER {
                err_param_exceed_boundary("value")
            } else if *padding < MIN_PADDING || *padding > MAX_PADDING {
                err_param_exceed_boundary("padding")
            } else if *v < MIN_NATURAL_NUMBER && (contains_tag(tags, MyTag::TrackNumber)
                || contains_tag(tags, MyTag::TrackTotal) || contains_tag(tags, MyTag::DiscNumber)
                || contains_tag(tags, MyTag::DiscTotal)) {
                Err(
                    String::from_str(
                        "Parameter: value must great or equal 1, when use these tags",
                    ),
                )
            } else {
                Ok(())
            }
        },
        ConstValue::Date { value: v, format } => {
            if date_is_valid(v.as_str(), format.as_str()) {
                Ok(())
            } else {
                err_param_exceed_boundary("value")
            }
        },
        ConstValue::Text { .. } => Ok(()),
    }
}

/// An error naming the parameter that fell outside its bounds.
pub fn err_param_exceed_boundary(param_name: &str) -> (r: Result<(), String>)
    ensures
        match r {
            Ok(_) => false,
            Err(m) => m@ == "Parameter: "@ + param_name@ + " exceed the boundary."@,
        },
{
    Err(String::from_str("Parameter: ").concat(param_name).concat(" exceed the boundary."))
}

/// The bounds a numeric value must meet for one tag: years only need to
/// fit the domain, counters must be at least one, text tags take none.
pub open spec fn spec_numeric_is_valid(tag: MyTag, v: u32) -> bool {
    match tag {
        MyTag::Year => v <= MAX_NUMBER,
        MyTag::TrackNumber => MIN_NATURAL_NUMBER <= v <= MAX_NUMBER,
        MyTag::TrackTotal => MIN_NATURAL_NUMBER <= v <= MAX_NUMBER,
        MyTag::DiscNumber => MIN_NATURAL_NUMBER <= v <= MAX_NUMBER,
        MyTag::DiscTotal => MIN_NATURAL_NUMBER <= v <= MAX_NUMBER,
        _ => false,
    }
}

pub fn numeric_is_valid(tag: &MyTag, numeric_value: u32) -> (r: bool)
    ensures
        r == spec_numeric_is_valid(*tag, numeric_value),
{
    match tag {
        MyTag::Year => numeric_value <= MAX_NUMBER,
        MyTag::TrackNumber => MIN_NATURAL_NUMBER <= numeric_value && numeric_value <= MAX_NUMBER,
        MyTag::TrackTotal => MIN_NATURAL_NUMBER <= numeric_value && numeric_value <= MAX_NUMBER,
        MyTag::DiscNumber => MIN_NATURAL_NUMBER <= numeric_value && numeric_value <= MAX_NUMBER,
        MyTag::DiscTotal => MIN_NATURAL_NUMBER <= numeric_value && numeric_value <= MAX_NUMBER,
        _ => false,
    }
}

} // verus!
