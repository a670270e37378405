//! Modifying text tags by a constant edit: add, replace, remove, truncate.

use vstd::prelude::*;

use crate::model::{AddDirection, Direction, MyTag, QueryResultPosition, TextConst};
use crate::ops::{
    check_where, get_tags_from_args, get_where, lemma_dedup_no_dup, spec_dedup, spec_no_dup,
};
use crate::record::{ReadTag, ReadWriteTag};
use crate::strings::str_eq;
use crate::text_edit::{
    get_append_from_end, get_insert_from_beginning, get_remove_from_beginning,
    get_remove_from_end, get_replaced_any, get_replaced_beginning, get_replaced_end,
    get_replaced_first, get_replaced_last, rtruncate, spec_append_res, spec_insert_res,
    spec_remove_beginning_res, spec_remove_end_res, spec_replaced_any_res,
    spec_replaced_beginning_res, spec_replaced_end_res, spec_replaced_first_res,
    spec_replaced_last_res, truncate,
};
use crate::where_clause::{spec_check, WhereClause};

verus! {

/// Whether the candidate result is absent or equal to the current text.
pub open spec fn spec_none_or_eq(o: Option<Seq<char>>, current: Seq<char>) -> bool {
    match o {
        Some(v) => v == current,
        None => true,
    }
}

pub fn none_or_some_eq(o: &Option<String>, current: &str) -> (r: bool)
    ensures
        r == spec_none_or_eq(
            match o {
                Some(v) => Some(v@),
                None => None,
            },
            current@,
        ),
{
    match o {
        Some(v) => str_eq(v.as_str(), current),
        None => true,
    }
}

/// Drops a candidate result that would change nothing.
pub open spec fn spec_changed_only(o: Option<Seq<char>>, current: Seq<char>) -> Option<
    Seq<char>,
> {
    if spec_none_or_eq(o, current) {
        None
    } else {
        o
    }
}

/// The added text, or nothing when the edit changes nothing.
pub open spec fn spec_new_value_add(
    current: Seq<char>,
    dir: AddDirection,
    offset: int,
    addend: Seq<char>,
) -> Option<Seq<char>> {
    let res = match dir {
        AddDirection::InsertFromBeginning => spec_insert_res(current, offset, addend),
        AddDirection::AppendFromEnd => spec_append_res(current, offset, addend),
    };
    spec_changed_only(res, current)
}

/// Adds `addend` at the offset, counted per the direction; `None` when the
/// offset lies outside the text or the result equals the current text.
pub fn get_new_value_add(
    current: &str,
    position_direction: &AddDirection,
    position_offset: &usize,
    addend: &str,
) -> (r: Option<String>)
    ensures
        match r {
            Some(s) => spec_new_value_add(
                current@,
                *position_direction,
                *position_offset as int,
                addend@,
            ) == Some(s@),
            None => spec_new_value_add(
                current@,
                *position_direction,
                *position_offset as int,
                addend@,
            ) is None,
        },
{
    let res = match position_direction {
        AddDirection::InsertFromBeginning => get_insert_from_beginning(
            current,
            *position_offset,
            addend,
        ),
        AddDirection::AppendFromEnd => get_append_from_end(current, *position_offset, addend),
    };
    if !none_or_some_eq(&res, current) {
        res
    } else {
        None
    }
}

/// The replaced text, or nothing when the edit changes nothing.
pub open spec fn spec_new_value_replace(
    current: Seq<char>,
    from: Seq<char>,
    position: QueryResultPosition,
    to: Seq<char>,
    ignore_case: bool,
) -> Option<Seq<char>> {
    let res = match position {
        QueryResultPosition::Any => Some(spec_replaced_any_res(current, from, to, ignore_case)),
        QueryResultPosition::Beginning => spec_replaced_beginning_res(
            current,
            from,
            to,
            ignore_case,
        ),
        QueryResultPosition::End => spec_replaced_end_res(current, from, to, ignore_case),
        QueryResultPosition::First => spec_replaced_first_res(current, from, to, ignore_case),
        QueryResultPosition::Last => spec_replaced_last_res(current, from, to, ignore_case),
    };
    spec_changed_only(res, current)
}

/// Replaces `from` by `to` at the requested position; `None` when nothing
/// matches or the result equals the current text.
pub fn get_new_value_replace(
    current: &str,
    from: &str,
    position: &QueryResultPosition,
    to: &str,
    ignore_case: bool,
) -> (r: Option<String>)
    ensures
        match r {
            Some(s) => spec_new_value_replace(current@, from@, *position, to@, ignore_case)
                == Some(s@),
            None => spec_new_value_replace(
                current@,
                from@,
                *position,
                to@,
                ignore_case,
            ) is None,
        },
{
    let res = match position {
        QueryResultPosition::Any => get_replaced_any(current, from, to, ignore_case),
        QueryResultPosition::Beginning => get_replaced_beginning(current, from, to, ignore_case),
        QueryResultPosition::End => get_replaced_end(current, from, to, ignore_case),
        QueryResultPosition::First => get_replaced_first(current, from, to, ignore_case),
        QueryResultPosition::Last => get_replaced_last(current, from, to, ignore_case),
    };
    if !none_or_some_eq(&res, current) {
        res
    } else {
        None
    }
}

/// The text after removal, or nothing when the edit changes nothing.
pub open spec fn spec_new_value_remove(
    current: Seq<char>,
    dir: Direction,
    begin: int,
    end: Option<int>,
) -> Option<Seq<char>> {
    let res = match dir {
        Direction::Beginning => spec_remove_beginning_res(current, begin, end),
        Direction::End => spec_remove_end_res(current, begin, end),
    };
    spec_changed_only(res, current)
}

/// Removes the span between the offsets; `None` when the offsets lie
/// outside the text, cross, or the removal changes nothing.
pub fn get_new_value_remove(
    current: &str,
    direction: &Direction,
    beginning_offset: &usize,
    end_offset: &Option<usize>,
) -> (r: Option<String>)
    ensures
        ({
            let e = match end_offset {
                Some(v) => Some(*v as int),
                None => None,
            };
            match r {
                Some(s) => spec_new_value_remove(
                    current@,
                    *direction,
                    *beginning_offset as int,
                    e,
                ) == Some(s@),
                None => spec_new_value_remove(
                    current@,
                    *direction,
                    *beginning_offset as int,
                    e,
                ) is None,
            }
        }),
{
    let res = match direction {
        Direction::Beginning => get_remove_from_beginning(current, *beginning_offset, end_offset),
        Direction::End => get_remove_from_end(current, *beginning_offset, end_offset),
    };
    if !none_or_some_eq(&res, current) {
        res
    } else {
        None
    }
}

/// The truncated text, or nothing when the limit does not shorten it.
pub open spec fn spec_truncate_res(current: Seq<char>, dir: Direction, limit: int) -> Option<
    Seq<char>,
> {
    if limit < current.len() {
        match dir {
            Direction::Beginning => Some(current.take(limit)),
            Direction::End => Some(current.skip(current.len() - limit)),
        }
    } else {
        None
    }
}

/// Truncates to `limit` characters, keeping the beginning or the end;
/// `None` when the text is already short enough.
pub fn get_truncate(original: &str, direction: &Direction, limit: &usize) -> (r: Option<String>)
    ensures
        match r {
            Some(s) => spec_truncate_res(original@, *direction, *limit as int) == Some(s@),
            None => spec_truncate_res(original@, *direction, *limit as int) is None,
        },
{
    let res: &str = match direction {
        Direction::Beginning => truncate(original, *limit),
        Direction::End => rtruncate(original, *limit),
    };
    if original.unicode_len() != res.unicode_len() {
        Some(res.to_owned())
    } else {
        proof {
            if *limit < original@.len() {
                match direction {
                    Direction::Beginning => {
                        assert(res@ == original@.take(*limit as int));
                        assert(res@.len() == *limit as int);
                    },
                    Direction::End => {
                        assert(res@ == original@.skip(original@.len() - *limit as int));
                    },
                }
            }
        }
        None
    }
}

/// The edit an action applies to one current text value.
pub open spec fn spec_text_const_applied(value: TextConst, current: Seq<char>) -> Option<
    Seq<char>,
> {
    match value {
        TextConst::Add { add_direction, offset, addend } => spec_new_value_add(
            current,
            add_direction,
            offset as int,
            addend@,
        ),
        TextConst::Replace { from, ignore_case, position, to } => spec_new_value_replace(
            current,
            from@,
            position,
            to@,
            ignore_case,
        ),
        TextConst::Remove { direction, beginning_offset, end_offset } => spec_new_value_remove(
            current,
            direction,
            beginning_offset as int,
            match end_offset {
                Some(v) => Some(v as int),
                None => None,
            },
        ),
        TextConst::Truncate { direction, limit } => spec_truncate_res(
            current,
            direction,
            limit as int,
        ),
    }
}

/// The offsets of a removal must not cross.
pub fn check_beginning_end(beginning_offset: &usize, end_offset: &Option<usize>) -> (r: Result<
    (),
    String,
>)
    ensures
        match r {
            Ok(_) => match end_offset {
                Some(e) => *beginning_offset <= *e,
                None => true,
            },
            Err(_) => end_offset matches Some(e) && *beginning_offset > *e,
        },
{
    match end_offset {
        Some(e) => {
            if *beginning_offset > *e {
                Err(String::from_str("start-offset must less or equal end-offset"))
            } else {
                Ok(())
            }
        },
        None => Ok(()),
    }
}

/// Validates a constant text edit: only removals carry offsets to check.
pub fn check_text_const_args(args: &TextConst) -> (r: Result<(), String>)
    ensures
        match r {
            Ok(_) => match args {
                TextConst::Remove { beginning_offset, end_offset, .. } => match end_offset {
                    Some(e) => *beginning_offset <= *e,
                    None => true,
                },
                _ => true,
            },
            Err(_) => args matches TextConst::Remove { beginning_offset, end_offset, .. }
                && end_offset matches Some(e) && *beginning_offset > *e,
        },
{
    match args {
        TextConst::Remove { direction: _direction, beginning_offset, end_offset } => {
            check_beginning_end(beginning_offset, end_offset)
        },
        _ => Ok(()),
    }
}

/// Applies one constant text edit to the selected text tags.
pub struct ModTextConstAction {
    pub dry_run: bool,
    pub tags: Vec<MyTag>,
    pub where_clause: Option<WhereClause>,
    pub value: TextConst,
}

impl ModTextConstAction {
    pub open spec fn spec_where_passes<T: ReadTag>(&self, t: &T) -> Option<bool> {
        match self.where_clause {
            None => Some(true),
            Some(w) => spec_check(w@, t),
        }
    }

    /// The new value to store for a current one: present text is edited;
    /// absent text only accepts an addition at offset zero.
    pub open spec fn spec_new_text(&self, current: Option<Seq<char>>) -> Option<Seq<char>> {
        match current {
            Some(cur) => spec_text_const_applied(self.value, cur),
            None => match self.value {
                TextConst::Add { offset, addend, .. } => if offset == 0 {
                    Some(addend@)
                } else {
                    None
                },
                _ => None,
            },
        }
    }

    /// The tag value after the action has seen it.
    pub open spec fn spec_applied(&self, v: Option<Seq<char>>) -> Option<Seq<char>> {
        match self.spec_new_text(v) {
            Some(nv) => Some(nv),
            None => v,
        }
    }

    /// Builds the action; the tag list defaults to every text tag, and a
    /// removal's offsets must not cross.
    pub fn new(
        dry_run: bool,
        tags: &Vec<MyTag>,
        where_string: &Option<String>,
        value: TextConst,
    ) -> (r: Result<ModTextConstAction, String>)
        ensures
            match r {
                Ok(a) => {
                    &&& a.dry_run == dry_run
                    &&& a.value == value
                    &&& spec_no_dup(a.tags@)
                    &&& a.tags@.len() > 0
                    &&& (if tags@.len() > 0 {
                        a.tags@ == spec_dedup(tags@)
                    } else {
                        a.tags@ == crate::model::spec_text_tags()
                    })
                    &&& match (where_string, a.where_clause) {
                        (None, None) => true,
                        (Some(s), Some(w)) => crate::where_clause::spec_compile(s@) == Ok::<
                            _,
                            crate::lexer::CompileError,
                        >(w@),
                        _ => false,
                    }
                },
                Err(_) => (where_string matches Some(s)
                    && crate::where_clause::spec_compile(s@) is Err) || (value matches
                TextConst::Remove { beginning_offset, end_offset, .. } && end_offset matches Some(
                    e,
                ) && beginning_offset > e),
            },
    {
        let defaults = crate::model::text_tags();
        let tags2 = match get_tags_from_args(tags, &defaults) {
            Ok(v) => v,
            Err(e) => {
                return Err(e);
            },
        };
        proof {
            lemma_dedup_no_dup(tags@);
        }
        let where_clause = match get_where(where_string) {
            Ok(w) => w,
            Err(e) => {
                return Err(e.message());
            },
        };
        match check_text_const_args(&value) {
            Ok(_) => {},
            Err(e) => {
                return Err(e);
            },
        }
        Ok(ModTextConstAction { dry_run, tags: tags2, where_clause, value })
    }

    /// The edited text for a current value, or nothing when the edit
    /// applies to nothing or changes nothing.
    pub fn get_new_text(&self, current: &Option<String>) -> (r: Option<String>)
        ensures
            ({
                let cur = match current {
                    Some(c) => Some(c@),
                    None => None,
                };
                match r {
                    Some(s) => self.spec_new_text(cur) == Some(s@),
                    None => self.spec_new_text(cur) is None,
                }
            }),
    {
        match current {
            Some(curr) => {
                match &self.value {
                    TextConst::Add { add_direction, offset, addend } => get_new_value_add(
                        curr.as_str(),
                        add_direction,
                        offset,
                        addend.as_str(),
                    ),
                    TextConst::Replace { from, position, to, ignore_case } => {
                        get_new_value_replace(
                            curr.as_str(),
                            from.as_str(),
                            position,
                            to.as_str(),
                            *ignore_case,
                        )
                    },
                    TextConst::Remove { direction, beginning_offset, end_offset } => {
                        get_new_value_remove(curr.as_str(), direction, beginning_offset, end_offset)
                    },
                    TextConst::Truncate { direction, limit } => get_truncate(
                        curr.as_str(),
                        direction,
                        limit,
                    ),
                }
            },
            None => {
                match &self.value {
                    TextConst::Add { add_direction: _add_direction, offset, addend } => {
                        if *offset == 0 {
                            Some(addend.clone())
                        } else {
                            None
                        }
                    },
                    _ => None,
                }
            },
        }
    }

    /// Applies the edit to every listed text tag of a record the predicate
    /// admits. Returns whether anything was written.
    pub fn write_tags<T: ReadWriteTag>(&self, t: &mut T) -> (r: Result<bool, String>)
        requires
            spec_no_dup(self.tags@),
        ensures
            match r {
                Ok(b) => {
                    if b {
                        &&& self.spec_where_passes(old(t)) == Some(true)
                        &&& forall|tag: MyTag|
                            self.tags@.contains(tag) && tag.spec_is_text()
                                ==> final(t).spec_text_tag(tag) == self.spec_applied(
                                old(t).spec_text_tag(tag),
                            )
                        &&& forall|tag: MyTag|
                            !(self.tags@.contains(tag) && tag.spec_is_text()) ==> final(t).spec_text_tag(tag) == old(t).spec_text_tag(tag)
                        &&& forall|tag: MyTag|
                            final(t).spec_numeric_tag(tag) == old(t).spec_numeric_tag(tag)
                                && final(t).spec_numeric_tag_string(tag) == old(t).spec_numeric_tag_string(tag)
                        &&& exists|tag: MyTag|
                            self.tags@.contains(tag) && tag.spec_is_text() && self.spec_new_text(
                                old(t).spec_text_tag(tag),
                            ) is Some
                    } else {
                        forall|tag: MyTag|
                            final(t).spec_text_tag(tag) == old(t).spec_text_tag(tag) && final(t).spec_numeric_tag(tag) == old(t).spec_numeric_tag(tag) && final(t).spec_numeric_tag_string(tag) == old(t).spec_numeric_tag_string(tag)
                    }
                },
                Err(_) => self.tags@.len() > 0 && self.spec_where_passes(old(t)) != Some(false),
            },
    {
        if self.tags.len() == 0 {
            return Ok(false);
        }
        match check_where(&self.where_clause, t) {
            Err(e) => {
                return Err(e);
            },
            Ok(false) => {
                return Ok(false);
            },
            Ok(true) => {},
        }
        let mut any_changed = false;
        let mut i: usize = 0;
        while i < self.tags.len()
            invariant
                i <= self.tags@.len(),
                spec_no_dup(self.tags@),
                forall|j: int|
                    0 <= j < i && self.tags@[j].spec_is_text() ==> t.spec_text_tag(self.tags@[j])
                        == self.spec_applied(old(t).spec_text_tag(self.tags@[j])),
                forall|tag: MyTag|
                    !(exists|j: int|
                        0 <= j < i && self.tags@[j] == tag && tag.spec_is_text())
                        ==> t.spec_text_tag(tag) == old(t).spec_text_tag(tag),
                forall|tag: MyTag|
                    t.spec_numeric_tag(tag) == old(t).spec_numeric_tag(tag)
                        && t.spec_numeric_tag_string(tag) == old(t).spec_numeric_tag_string(tag),
                any_changed == exists|j: int|
                    0 <= j < i && self.tags@[j].spec_is_text() && self.spec_new_text(
                        old(t).spec_text_tag(self.tags@[j]),
                    ) is Some,
            decreases self.tags@.len() - i,
        {
            let tag = self.tags[i];
            let changed: bool;
            if tag.is_text() {
                proof {
                    assert(!(exists|j: int|
                        0 <= j < i && self.tags@[j] == tag && tag.spec_is_text()));
                }
                let current = t.get_text_tag(&tag);
                match self.get_new_text(&current) {
                    Some(new_v) => {
                        t.write_text_tag(&tag, new_v.as_str());
                        changed = true;
                    },
                    None => {
                        changed = false;
                    },
                }
            } else {
                changed = false;
            }
            proof {
                if changed {
                    assert(0 <= i < self.tags@.len() && self.tags@[i as int].spec_is_text()
                        && self.spec_new_text(old(t).spec_text_tag(self.tags@[i as int])) is Some);
                }
            }
            if !any_changed {
                any_changed = changed;
            } else {
                proof {
                    assert(exists|j: int|
                        0 <= j < i + 1 && self.tags@[j].spec_is_text() && self.spec_new_text(
                            old(t).spec_text_tag(self.tags@[j]),
                        ) is Some);
                }
            }
            i = i + 1;
        }
        if any_changed {
            proof {
                assert forall|tag: MyTag|
                    self.tags@.contains(tag) && tag.spec_is_text() implies t.spec_text_tag(tag)
                    == self.spec_applied(old(t).spec_text_tag(tag)) by {
                    let j = choose|j: int| 0 <= j < self.tags@.len() && self.tags@[j] == tag;
                }
            }
            match t.save() {
                Ok(_) => Ok(true),
                Err(e) => Err(e),
            }
        } else {
            proof {
                assert forall|tag: MyTag| t.spec_text_tag(tag) == old(t).spec_text_tag(tag) by {
                    if exists|j: int|
                        0 <= j < self.tags@.len() && self.tags@[j] == tag
                            && tag.spec_is_text() {
                        let j = choose|j: int|
                            0 <= j < self.tags@.len() && self.tags@[j] == tag;
                        assert(t.spec_text_tag(tag) == self.spec_applied(
                            old(t).spec_text_tag(tag),
                        ));
                    }
                }
            }
            Ok(false)
        }
    }
}

} // verus!
