//! Clearing tags from records.

use vstd::prelude::*;

use crate::model::MyTag;
use crate::ops::{check_where, get_tags_from_args, get_where, spec_dedup};
use crate::record::{ReadTag, ReadWriteTag};
use crate::where_clause::{spec_check, WhereClause};

verus! {

/// Clears the selected tags of every record the predicate admits.
pub struct ClearAction {
    pub dry_run: bool,
    pub tags: Vec<MyTag>,
    pub where_clause: Option<WhereClause>,
}

impl ClearAction {
    /// Whether the action's predicate admits the record.
    pub open spec fn spec_where_passes<T: ReadTag>(&self, t: &T) -> Option<bool> {
        match self.where_clause {
            None => Some(true),
            Some(w) => spec_check(w@, t),
        }
    }

    /// Builds the action: at least one tag must be named, and the WHERE
    /// string, if any, must compile.
    pub fn new(dry_run: bool, tags: &Vec<MyTag>, where_string: &Option<String>) -> (r: Result<
        ClearAction,
        String,
    >)
        ensures
            match r {
                Ok(a) => {
                    &&& a.dry_run == dry_run
                    &&& tags@.len() > 0
                    &&& a.tags@ == spec_dedup(tags@)
                    &&& match (where_string, a.where_clause) {
                        (None, None) => true,
                        (Some(s), Some(w)) => crate::where_clause::spec_compile(s@) == Ok::<
                            _,
                            crate::lexer::CompileError,
                        >(w@),
                        _ => false,
                    }
                },
                Err(_) => tags@.len() == 0 || (where_string matches Some(s)
                    && crate::where_clause::spec_compile(s@) is Err),
            },
    {
        let empty: Vec<MyTag> = Vec::new();
        let tags2 = match get_tags_from_args(tags, &empty) {
            Ok(v) => v,
            Err(e) => {
                return Err(e);
            },
        };
        let where_clause = match get_where(where_string) {
            Ok(w) => w,
            Err(e) => {
                return Err(e.message());
            },
        };
        Ok(ClearAction { dry_run, tags: tags2, where_clause })
    }

    /// Clears every listed tag of the record when the predicate admits it.
    /// Returns whether anything was written; tags outside the list are
    /// untouched, and a record the predicate rejects is left unchanged.
    pub fn write_tags<T: ReadWriteTag>(&self, t: &mut T) -> (r: Result<bool, String>)
        ensures
            match r {
                Ok(b) => {
                    if b {
                        &&& self.spec_where_passes(old(t)) == Some(true)
                        &&& self.tags@.len() > 0
                        &&& forall|tag: MyTag| #[trigger]
                            self.tags@.contains(tag) ==> final(t).spec_text_tag(tag) is None
                                && final(t).spec_numeric_tag(tag) is None && final(t).spec_numeric_tag_string(tag) is None
                        &&& forall|tag: MyTag|
                            !self.tags@.contains(tag) ==> final(t).spec_text_tag(tag) == old(t).spec_text_tag(tag) && final(t).spec_numeric_tag(tag) == old(t).spec_numeric_tag(tag) && final(t).spec_numeric_tag_string(tag) == old(t).spec_numeric_tag_string(tag)
                    } else {
                        &&& (self.tags@.len() == 0 || self.spec_where_passes(old(t)) == Some(
                            false,
                        ))
                        &&& forall|tag: MyTag|
                            final(t).spec_text_tag(tag) == old(t).spec_text_tag(tag) && final(t).spec_numeric_tag(tag) == old(t).spec_numeric_tag(tag) && final(t).spec_numeric_tag_string(tag) == old(t).spec_numeric_tag_string(tag)
                    }
                },
                Err(_) => self.tags@.len() > 0 && self.spec_where_passes(old(t)) != Some(false),
            },
    {
        if self.tags.len() == 0 {
            return Ok(false);
        }
        match check_where(&self.where_clause, t) {
            Err(e) => {
                return Err(e);
            },
            Ok(false) => {
                return Ok(false);
            },
            Ok(true) => {},
        }
        let mut i: usize = 0;
        while i < self.tags.len()
            invariant
                i <= self.tags@.len(),
                forall|j: int|
                    0 <= j < i ==> t.spec_text_tag(self.tags@[j]) is None && t.spec_numeric_tag(
                        self.tags@[j],
                    ) is None && t.spec_numeric_tag_string(self.tags@[j]) is None,
                forall|tag: MyTag|
                    !self.tags@.contains(tag) ==> t.spec_text_tag(tag) == old(t).spec_text_tag(tag)
                        && t.spec_numeric_tag(tag) == old(t).spec_numeric_tag(tag)
                        && t.spec_numeric_tag_string(tag) == old(t).spec_numeric_tag_string(tag),
            decreases self.tags@.len() - i,
        {
            let tag = self.tags[i];
            t.clear_tag(&tag);
            proof {
                assert(self.tags@.contains(self.tags@[i as int]));
            }
            i = i + 1;
        }
        proof {
            assert forall|tag: MyTag| #[trigger] self.tags@.contains(tag) implies t.spec_text_tag(
                tag,
            ) is None && t.spec_numeric_tag(tag) is None && t.spec_numeric_tag_string(
                tag,
            ) is None by {
                let j = choose|j: int| 0 <= j < self.tags@.len() && self.tags@[j] == tag;
            }
        }
        match t.save() {
            Ok(_) => Ok(true),
            Err(e) => Err(e),
        }
    }
}

} // verus!
