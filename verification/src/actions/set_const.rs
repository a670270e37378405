//! Writing a constant value into the selected tags.

use vstd::prelude::*;

use crate::model::{ConstValue, ModifyMode, MyTag, SetWhen};
use crate::numeric::spec_padded_dec;
use crate::ops::{
    check_numeric_date_tags_must_be_overwrite, check_tags_type_value_type, check_value_is_ok,
    check_where, get_tags_from_args, get_where, lemma_dedup_no_dup, spec_dedup, spec_no_dup,
};
use crate::record::{ReadTag, ReadWriteTag};
use crate::strings::{from_chars, to_chars};
use crate::where_clause::{spec_check, WhereClause};

verus! {

/// Whether a text tag may be written under the given policy: an absent or
/// empty value counts as empty.
pub open spec fn spec_should_write_text(current: Option<Seq<char>>, set_when: SetWhen) -> bool {
    match current {
        Some(c) => if c.len() > 0 {
            set_when != SetWhen::OnlyEmpty
        } else {
            set_when != SetWhen::OnlyNotEmpty
        },
        None => set_when != SetWhen::OnlyNotEmpty,
    }
}

pub fn should_write_text(current: &Option<String>, set_when: &SetWhen) -> (r: bool)
    ensures
        r == spec_should_write_text(
            match current {
                Some(c) => Some(c@),
                None => None,
            },
            *set_when,
        ),
{
    match current {
        Some(curr) => {
            if curr.as_str().unicode_len() > 0 {
                !(*set_when == SetWhen::OnlyEmpty)
            } else {
                !(*set_when == SetWhen::OnlyNotEmpty)
            }
        },
        None => !(*set_when == SetWhen::OnlyNotEmpty),
    }
}

/// Whether a numeric tag may be written under the given policy: presence
/// alone decides.
pub open spec fn spec_should_write_numeric(current: Option<u32>, set_when: SetWhen) -> bool {
    match current {
        Some(_) => set_when != SetWhen::OnlyEmpty,
        None => set_when != SetWhen::OnlyNotEmpty,
    }
}

pub fn should_write_numeric(current: &Option<u32>, set_when: &SetWhen) -> (r: bool)
    ensures
        r == spec_should_write_numeric(*current, *set_when),
{
    match current {
        Some(_) => !(*set_when == SetWhen::OnlyEmpty),
        None => !(*set_when == SetWhen::OnlyNotEmpty),
    }
}

/// Writes one constant into every selected tag.
pub struct SetConstAction {
    pub dry_run: bool,
    pub tags: Vec<MyTag>,
    pub where_clause: Option<WhereClause>,
    pub value: ConstValue,
    pub set_when: SetWhen,
    pub modify_mode: ModifyMode,
    pub text_value: String,
}

impl SetConstAction {
    pub open spec fn spec_where_passes<T: ReadTag>(&self, t: &T) -> Option<bool> {
        match self.where_clause {
            None => Some(true),
            Some(w) => spec_check(w@, t),
        }
    }

    /// The text form of the constant, as cached at construction.
    pub open spec fn spec_text_value_ok(&self) -> bool {
        match self.value {
            ConstValue::Text { value } => self.text_value@ == value@,
            ConstValue::Date { value, .. } => self.text_value@ == value@,
            ConstValue::Num { value, padding } => self.text_value@ == spec_padded_dec(
                value as int,
                padding as int,
            ),
        }
    }

    /// The text written for a current value: the constant alone, or the
    /// constant combined with the current text per the modify mode.
    pub open spec fn spec_new_text(&self, current: Option<Seq<char>>) -> Seq<char> {
        match current {
            None => self.text_value@,
            Some(c) => match self.modify_mode {
                ModifyMode::Append => c + self.text_value@,
                ModifyMode::Insert => self.text_value@ + c,
                ModifyMode::Overwrite => self.text_value@,
            },
        }
    }

    /// Whether a text tag holding `current` is written.
    pub open spec fn spec_text_writes(&self, current: Option<Seq<char>>) -> bool {
        (self.set_when == SetWhen::Always && self.modify_mode == ModifyMode::Overwrite)
            || spec_should_write_text(current, self.set_when)
    }

    /// A text tag's value after the action.
    pub open spec fn spec_text_applied(&self, current: Option<Seq<char>>) -> Option<Seq<char>> {
        if self.spec_text_writes(current) {
            Some(self.spec_new_text(current))
        } else {
            current
        }
    }

    /// Whether a numeric tag holding `current` is written.
    pub open spec fn spec_numeric_writes(&self, current: Option<u32>) -> bool {
        (self.set_when == SetWhen::Always || spec_should_write_numeric(current, self.set_when))
            && self.value is Num
    }

    /// A numeric tag's value after the action.
    pub open spec fn spec_numeric_applied(&self, current: Option<u32>) -> Option<u32> {
        if self.spec_numeric_writes(current) {
            match self.value {
                ConstValue::Num { value, .. } => Some(value),
                _ => current,
            }
        } else {
            current
        }
    }

    /// Whether a date tag holding `current` is written.
    pub open spec fn spec_date_writes(&self, current: Option<Seq<char>>) -> bool {
        (self.set_when == SetWhen::Always || spec_should_write_text(current, self.set_when))
            && self.value is Date
    }

    /// A date tag's value after the action.
    pub open spec fn spec_date_applied(&self, current: Option<Seq<char>>) -> Option<Seq<char>> {
        if self.spec_date_writes(current) {
            match self.value {
                ConstValue::Date { value, .. } => Some(value@),
                _ => current,
            }
        } else {
            current
        }
    }

    /// Builds the action. The constant must fit the listed tags: matching
    /// data class, bounds for numbers, a parseable date; numeric and date
    /// tags demand overwrite mode.
    pub fn new(
        dry_run: bool,
        tags: &Vec<MyTag>,
        where_string: &Option<String>,
        value: ConstValue,
        set_when: &SetWhen,
        modify_mode: &ModifyMode,
    ) -> (r: Result<SetConstAction, String>)
        ensures
            match r {
                Ok(a) => {
                    &&& a.dry_run == dry_run
                    &&& a.set_when == *set_when
                    &&& a.modify_mode == *modify_mode
                    &&& a.value == value
                    &&& a.spec_text_value_ok()
                    &&& spec_no_dup(a.tags@)
                    &&& tags@.len() > 0
                    &&& a.tags@ == spec_dedup(tags@)
                    &&& crate::ops::spec_tags_fit_value(a.tags@, value)
                    &&& !(crate::ops::spec_exist_numeric_or_date(a.tags@) && *modify_mode
                        != ModifyMode::Overwrite)
                    &&& match (where_string, a.where_clause) {
                        (None, None) => true,
                        (Some(s), Some(w)) => crate::where_clause::spec_compile(s@) == Ok::<
                            _,
                            crate::lexer::CompileError,
                        >(w@),
                        _ => false,
                    }
                },
                Err(_) => tags@.len() == 0 || (where_string matches Some(s)
                    && crate::where_clause::spec_compile(s@) is Err) || (
                crate::ops::spec_exist_numeric_or_date(spec_dedup(tags@)) && *modify_mode
                    != ModifyMode::Overwrite) || !crate::ops::spec_tags_fit_value(
                    spec_dedup(tags@),
                    value,
                ) || (match value {
                    ConstValue::Num { value: v, padding } => !crate::ops::spec_num_const_ok(
                        spec_dedup(tags@),
                        v,
                        padding as int,
                    ),
                    ConstValue::Date { value: v, format } => !crate::ops::spec_date_valid(
                        v@,
                        format@,
                    ),
                    ConstValue::Text { .. } => false,
                }),
            },
    {
        let empty: Vec<MyTag> = Vec::new();
        let tags2 = match get_tags_from_args(tags, &empty) {
            Ok(v) => v,
            Err(e) => {
                return Err(e);
            },
        };
        proof {
            lemma_dedup_no_dup(tags@);
        }
        let where_clause = match get_where(where_string) {
            Ok(w) => w,
            Err(e) => {
                return Err(e.message());
            },
        };
        let text_value = value.get_text_value();
        match check_numeric_date_tags_must_be_overwrite(&tags2, modify_mode) {
            Ok(_) => {},
            Err(e) => {
                return Err(e);
            },
        }
        match check_tags_type_value_type(&tags2, &value) {
            Ok(_) => {},
            Err(e) => {
                return Err(e);
            },
        }
        match check_value_is_ok(&tags2, &value) {
            Ok(_) => {},
            Err(e) => {
                return Err(e);
            },
        }
        Ok(
            SetConstAction {
                dry_run,
                tags: tags2,
                where_clause,
                value,
                set_when: *set_when,
                modify_mode: *modify_mode,
                text_value,
            },
        )
    }

    /// The cached text form of the constant.
    pub fn get_text_value(&self) -> (r: &str)
        ensures
            r@ == self.text_value@,
    {
        self.text_value.as_str()
    }

    /// The numeric constant with its padding, when the constant is numeric.
    pub fn get_numeric_value(&self) -> (r: Option<(u32, usize)>)
        ensures
            match (r, self.value) {
                (Some((v, p)), ConstValue::Num { value, padding }) => v == value && p == padding,
                (None, ConstValue::Text { .. }) => true,
                (None, ConstValue::Date { .. }) => true,
                _ => false,
            },
    {
        match &self.value {
            ConstValue::Num { value, padding } => Some((*value, *padding)),
            _ => None,
        }
    }

    /// The date constant with its format, when the constant is a date.
    pub fn get_date_value(&self) -> (r: Option<(String, String)>)
        ensures
            match (r, self.value) {
                (Some((v, f)), ConstValue::Date { value, format }) => v@ == value@ && f@
                    == format@,
                (None, ConstValue::Text { .. }) => true,
                (None, ConstValue::Num { .. }) => true,
                _ => false,
            },
    {
        match &self.value {
            ConstValue::Date { value, format } => Some((value.clone(), format.clone())),
            _ => None,
        }
    }

    /// The text to store over a current value.
    pub fn get_new_text(&self, current: &Option<String>) -> (r: String)
        ensures
            r@ == self.spec_new_text(
                match current {
                    Some(c) => Some(c@),
                    None => None,
                },
            ),
    {
        match current {
            None => {
                let v = to_chars(self.text_value.as_str());
                from_chars(&v)
            },
            Some(c) => {
                match self.modify_mode {
                    ModifyMode::Append => c.clone().concat(self.text_value.as_str()),
                    ModifyMode::Insert => self.text_value.clone().concat(c.as_str()),
                    ModifyMode::Overwrite => {
                        let v = to_chars(self.text_value.as_str());
                        from_chars(&v)
                    },
                }
            },
        }
    }

    /// Writes the constant into every listed tag of a record the predicate
    /// admits, each according to its data class and the write policy.
    pub fn write_tags<T: ReadWriteTag>(&self, t: &mut T) -> (r: Result<bool, String>)
        requires
            spec_no_dup(self.tags@),
        ensures
            match r {
                Ok(b) => {
                    if b {
                        &&& self.spec_where_passes(old(t)) == Some(true)
                        &&& forall|tag: MyTag|
                            self.tags@.contains(tag) && tag.spec_is_text() ==> final(t).spec_text_tag(tag) == self.spec_text_applied(
                                old(t).spec_text_tag(tag),
                            )
                        &&& forall|tag: MyTag|
                            self.tags@.contains(tag) && tag.spec_is_date() ==> final(t).spec_text_tag(tag) == self.spec_date_applied(
                                old(t).spec_text_tag(tag),
                            )
                        &&& forall|tag: MyTag|
                            self.tags@.contains(tag) && tag.spec_is_numeric() ==> final(t).spec_numeric_tag(tag) == self.spec_numeric_applied(
                                old(t).spec_numeric_tag(tag),
                            )
                        &&& forall|tag: MyTag|
                            !self.tags@.contains(tag) ==> final(t).spec_text_tag(tag) == old(t).spec_text_tag(tag) && final(t).spec_numeric_tag(tag) == old(t).spec_numeric_tag(tag)
                    } else {
                        forall|tag: MyTag|
                            final(t).spec_text_tag(tag) == old(t).spec_text_tag(tag) && final(t).spec_numeric_tag(tag) == old(t).spec_numeric_tag(tag) && final(t).spec_numeric_tag_string(tag) == old(t).spec_numeric_tag_string(tag)
                    }
                },
                Err(_) => self.tags@.len() > 0 && self.spec_where_passes(old(t)) != Some(false),
            },
    {
        if self.tags.len() == 0 {
            return Ok(false);
        }
        match check_where(&self.where_clause, t) {
            Err(e) => {
                return Err(e);
            },
            Ok(false) => {
                return Ok(false);
            },
            Ok(true) => {},
        }
        let mut any_changed = false;
        let mut i: usize = 0;
        while i < self.tags.len()
            invariant
                i <= self.tags@.len(),
                spec_no_dup(self.tags@),
                forall|j: int|
                    0 <= j < i && self.tags@[j].spec_is_text() ==> t.spec_text_tag(self.tags@[j])
                        == self.spec_text_applied(old(t).spec_text_tag(self.tags@[j])),
                forall|j: int|
                    0 <= j < i && self.tags@[j].spec_is_date() ==> t.spec_text_tag(self.tags@[j])
                        == self.spec_date_applied(old(t).spec_text_tag(self.tags@[j])),
                forall|j: int|
                    0 <= j < i && self.tags@[j].spec_is_numeric() ==> t.spec_numeric_tag(
                        self.tags@[j],
                    ) == self.spec_numeric_applied(old(t).spec_numeric_tag(self.tags@[j])),
                forall|tag: MyTag|
                    !(exists|j: int|
                        0 <= j < i && self.tags@[j] == tag && (tag.spec_is_text()
                            || tag.spec_is_date())) ==> t.spec_text_tag(tag) == old(
                        t,
                    ).spec_text_tag(tag),
                forall|tag: MyTag|
                    !(exists|j: int|
                        0 <= j < i && self.tags@[j] == tag && tag.spec_is_numeric())
                        ==> t.spec_numeric_tag(tag) == old(t).spec_numeric_tag(tag)
                        && t.spec_numeric_tag_string(tag) == old(t).spec_numeric_tag_string(tag),
                forall|j: int|
                    0 <= j < i && self.tags@[j].spec_is_numeric() && !self.spec_numeric_writes(
                        old(t).spec_numeric_tag(self.tags@[j]),
                    ) ==> t.spec_numeric_tag_string(self.tags@[j]) == old(t).spec_numeric_tag_string(self.tags@[j]),
                any_changed == exists|j: int|
                    0 <= j < i && (
                    (self.tags@[j].spec_is_text() && self.spec_text_writes(
                        old(t).spec_text_tag(self.tags@[j]),
                    )) || (self.tags@[j].spec_is_date() && self.spec_date_writes(
                        old(t).spec_text_tag(self.tags@[j]),
                    )) || (self.tags@[j].spec_is_numeric() && self.spec_numeric_writes(
                        old(t).spec_numeric_tag(self.tags@[j]),
                    ))),
            decreases self.tags@.len() - i,
        {
            let tag = self.tags[i];
            proof {
                assert(forall|j: int| 0 <= j < i ==> self.tags@[j] != tag);
            }
            let mut wrote = false;
            if tag.is_text() {
                if self.set_when == SetWhen::Always && self.modify_mode == ModifyMode::Overwrite {
                    t.write_text_tag(&tag, self.text_value.as_str());
                    wrote = true;
                } else {
                    let current = t.get_text_tag(&tag);
                    if should_write_text(&current, &self.set_when) {
                        let new_value = self.get_new_text(&current);
                        t.write_text_tag(&tag, new_value.as_str());
                        wrote = true;
                    }
                }
            } else if tag.is_numeric() {
                let write_it: bool;
                if self.set_when == SetWhen::Always {
                    write_it = true;
                } else {
                    let current = t.get_numeric_tag(&tag);
                    write_it = should_write_numeric(&current, &self.set_when);
                }
                if write_it {
                    match self.get_numeric_value() {
                        Some((value, padding)) => {
                            t.write_numeric_tag(&tag, value, padding);
                            wrote = true;
                        },
                        None => {},
                    }
                }
            } else if tag.is_date() {
                let write_it: bool;
                if self.set_when == SetWhen::Always {
                    write_it = true;
                } else {
                    let current = t.get_text_tag(&tag);
                    write_it = should_write_text(&current, &self.set_when);
                }
                if write_it {
                    match self.get_date_value() {
                        Some((value, _format)) => {
                            t.write_text_tag(&tag, value.as_str());
                            wrote = true;
                        },
                        None => {},
                    }
                }
            }
            proof {
                if wrote {
                    assert(0 <= i < self.tags@.len() && ((self.tags@[i as int].spec_is_text()
                        && self.spec_text_writes(old(t).spec_text_tag(self.tags@[i as int]))) || (
                    self.tags@[i as int].spec_is_date() && self.spec_date_writes(
                        old(t).spec_text_tag(self.tags@[i as int]),
                    )) || (self.tags@[i as int].spec_is_numeric() && self.spec_numeric_writes(
                        old(t).spec_numeric_tag(self.tags@[i as int]),
                    ))));
                }
            }
            if wrote {
                any_changed = true;
            } else if any_changed {
                proof {
                    assert(exists|j: int|
                        0 <= j < i + 1 && ((self.tags@[j].spec_is_text()
                            && self.spec_text_writes(old(t).spec_text_tag(self.tags@[j]))) || (
                        self.tags@[j].spec_is_date() && self.spec_date_writes(
                            old(t).spec_text_tag(self.tags@[j]),
                        )) || (self.tags@[j].spec_is_numeric() && self.spec_numeric_writes(
                            old(t).spec_numeric_tag(self.tags@[j]),
                        ))));
                }
            }
            i = i + 1;
        }
        if any_changed {
            proof {
                assert forall|tag: MyTag| self.tags@.contains(tag) implies (
                tag.spec_is_text() ==> t.spec_text_tag(tag) == self.spec_text_applied(
                    old(t).spec_text_tag(tag),
                )) && (tag.spec_is_date() ==> t.spec_text_tag(tag) == self.spec_date_applied(
                    old(t).spec_text_tag(tag),
                )) && (tag.spec_is_numeric() ==> t.spec_numeric_tag(tag)
                    == self.spec_numeric_applied(old(t).spec_numeric_tag(tag))) by {
                    let j = choose|j: int| 0 <= j < self.tags@.len() && self.tags@[j] == tag;
                }
            }
            match t.save() {
                Ok(_) => Ok(true),
                Err(e) => Err(e),
            }
        } else {
            proof {
                assert forall|tag: MyTag|
                    t.spec_text_tag(tag) == old(t).spec_text_tag(tag) && t.spec_numeric_tag(tag)
                        == old(t).spec_numeric_tag(tag) && t.spec_numeric_tag_string(tag) == old(t).spec_numeric_tag_string(tag) by {
                    if exists|j: int| 0 <= j < self.tags@.len() && self.tags@[j] == tag {
                        let j = choose|j: int|
                            0 <= j < self.tags@.len() && self.tags@[j] == tag;
                        assert(!((self.tags@[j].spec_is_text() && self.spec_text_writes(
                            old(t).spec_text_tag(self.tags@[j]),
                        )) || (self.tags@[j].spec_is_date() && self.spec_date_writes(
                            old(t).spec_text_tag(self.tags@[j]),
                        )) || (self.tags@[j].spec_is_numeric() && self.spec_numeric_writes(
                            old(t).spec_numeric_tag(self.tags@[j]),
                        ))));
                    }
                }
            }
            Ok(false)
        }
    }
}

} // verus!
