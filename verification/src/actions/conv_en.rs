//! Case conversion of English text tags: lowercase, uppercase, titlecase.

use vstd::prelude::*;

use crate::model::{ConvEnProfile, MyTag};
use crate::ops::{check_where, get_tags_from_args, get_where, spec_dedup, spec_no_dup};
use crate::ops::lemma_dedup_no_dup;
use crate::ops::string_to_option;
use crate::record::{ReadTag, ReadWriteTag};
use crate::strings::{lower_of, lowercase, upper_of, uppercase};
use crate::where_clause::{spec_check, WhereClause};

verus! {

/// What the `titlecase` crate returns for a given character sequence.
pub uninterp spec fn title_of(s: Seq<char>) -> Seq<char>;

/// Relies on `titlecase::titlecase`: the result depends on the characters
/// alone.
#[verifier::external_body]
fn to_titlecase(s: &str) -> (r: String)
    ensures
        r@ == title_of(s@),
{
    titlecase::titlecase(s)
}

/// Rewrites the selected text tags through a case-conversion profile.
pub struct ConvEnAction {
    pub dry_run: bool,
    pub tags: Vec<MyTag>,
    pub where_clause: Option<WhereClause>,
    pub profile: ConvEnProfile,
}

impl ConvEnAction {
    pub open spec fn spec_where_passes<T: ReadTag>(&self, t: &T) -> Option<bool> {
        match self.where_clause {
            None => Some(true),
            Some(w) => spec_check(w@, t),
        }
    }

    /// The conversion the profile applies.
    pub open spec fn spec_converted(&self, cur: Seq<char>) -> Seq<char> {
        match self.profile {
            ConvEnProfile::Lowercase => lower_of(cur),
            ConvEnProfile::Uppercase => upper_of(cur),
            ConvEnProfile::Titlecase => title_of(cur),
        }
    }

    /// The new value to store, or nothing when the conversion changes
    /// nothing.
    pub open spec fn spec_new_text(&self, v: Option<Seq<char>>) -> Option<Seq<char>> {
        match v {
            None => None,
            Some(cur) => if self.spec_converted(cur) != cur {
                Some(self.spec_converted(cur))
            } else {
                None
            },
        }
    }

    /// The tag value after the action has seen it.
    pub open spec fn spec_applied(&self, v: Option<Seq<char>>) -> Option<Seq<char>> {
        match self.spec_new_text(v) {
            Some(nv) => Some(nv),
            None => v,
        }
    }

    /// Builds the action; the tag list defaults to every text tag.
    pub fn new(
        dry_run: bool,
        tags: &Vec<MyTag>,
        where_string: &Option<String>,
        profile: &ConvEnProfile,
    ) -> (r: Result<ConvEnAction, String>)
        ensures
            match r {
                Ok(a) => {
                    &&& a.dry_run == dry_run
                    &&& a.profile == *profile
                    &&& spec_no_dup(a.tags@)
                    &&& a.tags@.len() > 0
                    &&& (if tags@.len() > 0 {
                        a.tags@ == spec_dedup(tags@)
                    } else {
                        a.tags@ == crate::model::spec_text_tags()
                    })
                    &&& match (where_string, a.where_clause) {
                        (None, None) => true,
                        (Some(s), Some(w)) => crate::where_clause::spec_compile(s@) == Ok::<
                            _,
                            crate::lexer::CompileError,
                        >(w@),
                        _ => false,
                    }
                },
                Err(_) => where_string matches Some(s)
                    && crate::where_clause::spec_compile(s@) is Err,
            },
    {
        let defaults = crate::model::text_tags();
        let tags2 = match get_tags_from_args(tags, &defaults) {
            Ok(v) => v,
            Err(e) => {
                return Err(e);
            },
        };
        proof {
            lemma_dedup_no_dup(tags@);
            assert(spec_no_dup(crate::model::spec_text_tags()));
        }
        let where_clause = match get_where(where_string) {
            Ok(w) => w,
            Err(e) => {
                return Err(e.message());
            },
        };
        Ok(ConvEnAction { dry_run, tags: tags2, where_clause, profile: *profile })
    }

    /// The converted text, or nothing when the tag is absent or the
    /// conversion leaves it unchanged.
    pub fn get_new_text(&self, current: &Option<String>) -> (r: Option<String>)
        ensures
            match (r, current) {
                (Some(s), Some(cur)) => self.spec_new_text(Some(cur@)) == Some(s@),
                (None, Some(cur)) => self.spec_new_text(Some(cur@)) is None,
                (None, None) => true,
                _ => false,
            },
    {
        match current {
            Some(curr) => {
                let new_v = match self.profile {
                    ConvEnProfile::Lowercase => lowercase(curr.as_str()),
                    ConvEnProfile::Uppercase => uppercase(curr.as_str()),
                    ConvEnProfile::Titlecase => to_titlecase(curr.as_str()),
                };
                string_to_option(new_v, curr.as_str())
            },
            None => None,
        }
    }

    /// Applies the conversion to every listed text tag of a record the
    /// predicate admits. Returns whether anything was written.
    pub fn write_tags<T: ReadWriteTag>(&self, t: &mut T) -> (r: Result<bool, String>)
        requires
            spec_no_dup(self.tags@),
        ensures
            match r {
                Ok(b) => {
                    if b {
                        &&& self.spec_where_passes(old(t)) == Some(true)
                        &&& forall|tag: MyTag|
                            self.tags@.contains(tag) && tag.spec_is_text()
                                ==> final(t).spec_text_tag(tag) == self.spec_applied(
                                old(t).spec_text_tag(tag),
                            )
                        &&& forall|tag: MyTag|
                            !(self.tags@.contains(tag) && tag.spec_is_text()) ==> final(t).spec_text_tag(tag) == old(t).spec_text_tag(tag)
                        &&& forall|tag: MyTag|
                            final(t).spec_numeric_tag(tag) == old(t).spec_numeric_tag(tag)
                                && final(t).spec_numeric_tag_string(tag) == old(t).spec_numeric_tag_string(tag)
                        &&& exists|tag: MyTag|
                            self.tags@.contains(tag) && tag.spec_is_text() && self.spec_new_text(
                                old(t).spec_text_tag(tag),
                            ) is Some
                    } else {
                        forall|tag: MyTag|
                            final(t).spec_text_tag(tag) == old(t).spec_text_tag(tag) && final(t).spec_numeric_tag(tag) == old(t).spec_numeric_tag(tag) && final(t).spec_numeric_tag_string(tag) == old(t).spec_numeric_tag_string(tag)
                    }
                },
                Err(_) => self.tags@.len() > 0 && self.spec_where_passes(old(t)) != Some(false),
            },
    {
        if self.tags.len() == 0 {
            return Ok(false);
        }
        match check_where(&self.where_clause, t) {
            Err(e) => {
                return Err(e);
            },
            Ok(false) => {
                return Ok(false);
            },
            Ok(true) => {},
        }
        let mut any_changed = false;
        let mut i: usize = 0;
        while i < self.tags.len()
            invariant
                i <= self.tags@.len(),
                spec_no_dup(self.tags@),
                forall|j: int|
                    0 <= j < i && self.tags@[j].spec_is_text() ==> t.spec_text_tag(self.tags@[j])
                        == self.spec_applied(old(t).spec_text_tag(self.tags@[j])),
                forall|tag: MyTag|
                    !(exists|j: int|
                        0 <= j < i && self.tags@[j] == tag && tag.spec_is_text())
                        ==> t.spec_text_tag(tag) == old(t).spec_text_tag(tag),
                forall|tag: MyTag|
                    t.spec_numeric_tag(tag) == old(t).spec_numeric_tag(tag)
                        && t.spec_numeric_tag_string(tag) == old(t).spec_numeric_tag_string(tag),
                any_changed == exists|j: int|
                    0 <= j < i && self.tags@[j].spec_is_text() && self.spec_new_text(
                        old(t).spec_text_tag(self.tags@[j]),
                    ) is Some,
            decreases self.tags@.len() - i,
        {
            let tag = self.tags[i];
            let changed: bool;
            if tag.is_text() {
                proof {
                    assert(!(exists|j: int|
                        0 <= j < i && self.tags@[j] == tag && tag.spec_is_text()));
                }
                let current = t.get_text_tag(&tag);
                match self.get_new_text(&current) {
                    Some(new_v) => {
                        t.write_text_tag(&tag, new_v.as_str());
                        changed = true;
                    },
                    None => {
                        changed = false;
                    },
                }
            } else {
                changed = false;
            }
            proof {
                if changed {
                    assert(0 <= i < self.tags@.len() && self.tags@[i as int].spec_is_text()
                        && self.spec_new_text(old(t).spec_text_tag(self.tags@[i as int])) is Some);
                }
            }
            if !any_changed {
                any_changed = changed;
            } else {
                proof {
                    assert(exists|j: int|
                        0 <= j < i + 1 && self.tags@[j].spec_is_text() && self.spec_new_text(
                            old(t).spec_text_tag(self.tags@[j]),
                        ) is Some);
                }
            }
            i = i + 1;
        }
        if any_changed {
            proof {
                assert forall|tag: MyTag|
                    self.tags@.contains(tag) && tag.spec_is_text() implies t.spec_text_tag(tag)
                    == self.spec_applied(old(t).spec_text_tag(tag)) by {
                    let j = choose|j: int| 0 <= j < self.tags@.len() && self.tags@[j] == tag;
                }
            }
            match t.save() {
                Ok(_) => Ok(true),
                Err(e) => Err(e),
            }
        } else {
            proof {
                assert forall|tag: MyTag| t.spec_text_tag(tag) == old(t).spec_text_tag(tag) by {
                    if exists|j: int|
                        0 <= j < self.tags@.len() && self.tags@[j] == tag
                            && tag.spec_is_text() {
                        let j = choose|j: int|
                            0 <= j < self.tags@.len() && self.tags@[j] == tag;
                        assert(t.spec_text_tag(tag) == self.spec_applied(
                            old(t).spec_text_tag(tag),
                        ));
                    }
                }
            }
            Ok(false)
        }
    }
}

} // verus!
