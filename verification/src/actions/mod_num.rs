//! Increasing or decreasing numeric tags by a constant operand.

use vstd::prelude::*;

use crate::model::{CalcMethod, MyTag};
use crate::ops::{
    check_where, get_tags_from_args, get_where, lemma_dedup_no_dup, spec_dedup, spec_no_dup,
    spec_numeric_is_valid, numeric_is_valid, MAX_NUMBER,
};
use crate::record::{ReadTag, ReadWriteTag};
use crate::where_clause::{spec_check, WhereClause};

verus! {

/// Shifts the selected numeric tags by a constant.
pub struct ModNumAction {
    pub dry_run: bool,
    pub tags: Vec<MyTag>,
    pub where_clause: Option<WhereClause>,
    pub calc_method: CalcMethod,
    pub operand: u32,
    pub padding: usize,
}

impl ModNumAction {
    pub open spec fn spec_where_passes<T: ReadTag>(&self, t: &T) -> Option<bool> {
        match self.where_clause {
            None => Some(true),
            Some(w) => spec_check(w@, t),
        }
    }

    /// The shifted value, when the current one is present and the result
    /// stays inside the numeric domain. A decrease below zero yields
    /// nothing.
    pub open spec fn spec_new_numeric(&self, v: Option<u32>) -> Option<u32> {
        match v {
            None => None,
            Some(c) => match self.calc_method {
                CalcMethod::Increase => if c + self.operand < MAX_NUMBER {
                    Some((c + self.operand) as u32)
                } else {
                    None
                },
                CalcMethod::Decrease => if self.operand <= c && c - self.operand < MAX_NUMBER {
                    Some((c - self.operand) as u32)
                } else {
                    None
                },
            },
        }
    }

    /// Whether the action writes a tag holding `v`.
    pub open spec fn spec_writes(&self, tag: MyTag, v: Option<u32>) -> bool {
        match self.spec_new_numeric(v) {
            Some(nv) => spec_numeric_is_valid(tag, nv),
            None => false,
        }
    }

    /// The numeric value after the action has seen the tag.
    pub open spec fn spec_applied(&self, tag: MyTag, v: Option<u32>) -> Option<u32> {
        match self.spec_new_numeric(v) {
            Some(nv) => if spec_numeric_is_valid(tag, nv) {
                Some(nv)
            } else {
                v
            },
            None => v,
        }
    }

    pub fn new(
        dry_run: bool,
        tags: &Vec<MyTag>,
        where_string: &Option<String>,
        calc_method: &CalcMethod,
        operand: u32,
        padding: usize,
    ) -> (r: Result<ModNumAction, String>)
        ensures
            match r {
                Ok(a) => {
                    &&& a.dry_run == dry_run
                    &&& a.calc_method == *calc_method
                    &&& a.operand == operand
                    &&& a.padding == padding
                    &&& spec_no_dup(a.tags@)
                    &&& tags@.len() > 0
                    &&& a.tags@ == spec_dedup(tags@)
                    &&& match (where_string, a.where_clause) {
                        (None, None) => true,
                        (Some(s), Some(w)) => crate::where_clause::spec_compile(s@) == Ok::<
                            _,
                            crate::lexer::CompileError,
                        >(w@),
                        _ => false,
                    }
                },
                Err(_) => tags@.len() == 0 || (where_string matches Some(s)
                    && crate::where_clause::spec_compile(s@) is Err),
            },
    {
        let empty: Vec<MyTag> = Vec::new();
        let tags2 = match get_tags_from_args(tags, &empty) {
            Ok(v) => v,
            Err(e) => {
                return Err(e);
            },
        };
        proof {
            lemma_dedup_no_dup(tags@);
        }
        let where_clause = match get_where(where_string) {
            Ok(w) => w,
            Err(e) => {
                return Err(e.message());
            },
        };
        Ok(
            ModNumAction {
                dry_run,
                tags: tags2,
                where_clause,
                calc_method: *calc_method,
                operand,
                padding,
            },
        )
    }

    /// The shifted value for a current one, or nothing when the tag is
    /// absent or the result would leave the domain.
    pub fn get_new_numeric(&self, current: &Option<u32>) -> (r: Option<u32>)
        ensures
            r == self.spec_new_numeric(*current),
    {
        match current {
            Some(curr) => {
                match self.calc_method {
                    CalcMethod::Increase => {
                        let sum: u64 = (*curr as u64) + (self.operand as u64);
                        if sum < MAX_NUMBER as u64 {
                            Some(sum as u32)
                        } else {
                            None
                        }
                    },
                    CalcMethod::Decrease => {
                        if self.operand <= *curr && *curr - self.operand < MAX_NUMBER {
                            Some(*curr - self.operand)
                        } else {
                            None
                        }
                    },
                }
            },
            None => None,
        }
    }

    /// Shifts every listed numeric tag of a record the predicate admits.
    /// Returns whether anything was written.
    pub fn write_tags<T: ReadWriteTag>(&self, t: &mut T) -> (r: Result<bool, String>)
        requires
            spec_no_dup(self.tags@),
        ensures
            match r {
                Ok(b) => {
                    if b {
                        &&& self.spec_where_passes(old(t)) == Some(true)
                        &&& forall|tag: MyTag|
                            self.tags@.contains(tag) && tag.spec_is_numeric()
                                ==> final(t).spec_numeric_tag(tag) == self.spec_applied(
                                tag,
                                old(t).spec_numeric_tag(tag),
                            )
                        &&& forall|tag: MyTag|
                            !(self.tags@.contains(tag) && tag.spec_is_numeric()) ==> final(t).spec_numeric_tag(tag) == old(t).spec_numeric_tag(tag) && final(t).spec_numeric_tag_string(tag) == old(t).spec_numeric_tag_string(tag)
                        &&& forall|tag: MyTag|
                            final(t).spec_text_tag(tag) == old(t).spec_text_tag(tag)
                    } else {
                        forall|tag: MyTag|
                            final(t).spec_text_tag(tag) == old(t).spec_text_tag(tag) && final(t).spec_numeric_tag(tag) == old(t).spec_numeric_tag(tag) && final(t).spec_numeric_tag_string(tag) == old(t).spec_numeric_tag_string(tag)
                    }
                },
                Err(_) => self.tags@.len() > 0 && self.spec_where_passes(old(t)) != Some(false),
            },
    {
        if self.tags.len() == 0 {
            return Ok(false);
        }
        match check_where(&self.where_clause, t) {
            Err(e) => {
                return Err(e);
            },
            Ok(false) => {
                return Ok(false);
            },
            Ok(true) => {},
        }
        let mut any_changed = false;
        let mut i: usize = 0;
        while i < self.tags.len()
            invariant
                i <= self.tags@.len(),
                spec_no_dup(self.tags@),
                forall|j: int|
                    0 <= j < i && self.tags@[j].spec_is_numeric() ==> t.spec_numeric_tag(
                        self.tags@[j],
                    ) == self.spec_applied(
                        self.tags@[j],
                        old(t).spec_numeric_tag(self.tags@[j]),
                    ),
                forall|tag: MyTag|
                    !(exists|j: int|
                        0 <= j < i && self.tags@[j] == tag && tag.spec_is_numeric())
                        ==> t.spec_numeric_tag(tag) == old(t).spec_numeric_tag(tag)
                        && t.spec_numeric_tag_string(tag) == old(t).spec_numeric_tag_string(tag),
                forall|tag: MyTag| t.spec_text_tag(tag) == old(t).spec_text_tag(tag),
                forall|j: int|
                    0 <= j < i && self.tags@[j].spec_is_numeric() && !self.spec_writes(
                        self.tags@[j],
                        old(t).spec_numeric_tag(self.tags@[j]),
                    ) ==> t.spec_numeric_tag_string(self.tags@[j]) == old(
                        t,
                    ).spec_numeric_tag_string(self.tags@[j]),
                any_changed == exists|j: int|
                    0 <= j < i && self.tags@[j].spec_is_numeric() && self.spec_writes(
                        self.tags@[j],
                        old(t).spec_numeric_tag(self.tags@[j]),
                    ),
            decreases self.tags@.len() - i,
        {
            let tag = self.tags[i];
            let mut wrote = false;
            if tag.is_numeric() {
                proof {
                    assert(!(exists|j: int|
                        0 <= j < i && self.tags@[j] == tag && tag.spec_is_numeric()));
                }
                let current = t.get_numeric_tag(&tag);
                match self.get_new_numeric(&current) {
                    Some(new_v) => {
                        if numeric_is_valid(&tag, new_v) {
                            t.write_numeric_tag(&tag, new_v, self.padding);
                            wrote = true;
                        }
                    },
                    None => {},
                }
            }
            proof {
                if wrote {
                    assert(0 <= i < self.tags@.len() && self.tags@[i as int].spec_is_numeric()
                        && self.spec_writes(
                        self.tags@[i as int],
                        old(t).spec_numeric_tag(self.tags@[i as int]),
                    ));
                }
            }
            if wrote {
                any_changed = true;
            } else if any_changed {
                proof {
                    assert(exists|j: int|
                        0 <= j < i + 1 && self.tags@[j].spec_is_numeric() && self.spec_writes(
                            self.tags@[j],
                            old(t).spec_numeric_tag(self.tags@[j]),
                        ));
                }
            }
            i = i + 1;
        }
        if any_changed {
            proof {
                assert forall|tag: MyTag|
                    self.tags@.contains(tag) && tag.spec_is_numeric() implies t.spec_numeric_tag(
                    tag,
                ) == self.spec_applied(tag, old(t).spec_numeric_tag(tag)) by {
                    let j = choose|j: int| 0 <= j < self.tags@.len() && self.tags@[j] == tag;
                }
            }
            match t.save() {
                Ok(_) => Ok(true),
                Err(e) => Err(e),
            }
        } else {
            proof {
                assert forall|tag: MyTag|
                    t.spec_numeric_tag(tag) == old(t).spec_numeric_tag(tag)
                        && t.spec_numeric_tag_string(tag) == old(t).spec_numeric_tag_string(
                        tag,
                    ) by {
                    if exists|j: int|
                        0 <= j < self.tags@.len() && self.tags@[j] == tag
                            && tag.spec_is_numeric() {
                        let j = choose|j: int|
                            0 <= j < self.tags@.len() && self.tags@[j] == tag;
                        assert(t.spec_numeric_tag(tag) == self.spec_applied(
                            tag,
                            old(t).spec_numeric_tag(tag),
                        ));
                        assert(!self.spec_writes(tag, old(t).spec_numeric_tag(tag)));
                    }
                }
            }
            Ok(false)
        }
    }
}

} // verus!
