//! Exporting tags: the selection the export works from. Serializing the
//! values and writing the output file stay outside the library.

use vstd::prelude::*;

use crate::model::MyTag;
use crate::ops::{get_tags_from_args, get_where, lemma_dedup_no_dup, spec_dedup, spec_no_dup};
use crate::where_clause::WhereClause;

verus! {

/// Exports the selected tags of every record the predicate admits.
pub struct ExpAction {
    pub with_properties: bool,
    pub tags: Vec<MyTag>,
    pub where_clause: Option<WhereClause>,
}

impl ExpAction {
    /// Builds the action; the tag list defaults to every tag.
    pub fn new(tags: &Vec<MyTag>, where_string: &Option<String>, with_properties: bool) -> (r:
        Result<ExpAction, String>)
        ensures
            match r {
                Ok(a) => {
                    &&& a.with_properties == with_properties
                    &&& spec_no_dup(a.tags@)
                    &&& a.tags@.len() > 0
                    &&& (if tags@.len() > 0 {
                        a.tags@ == spec_dedup(tags@)
                    } else {
                        a.tags@ == crate::model::spec_all_tags()
                    })
                    &&& match (where_string, a.where_clause) {
                        (None, None) => true,
                        (Some(s), Some(w)) => crate::where_clause::spec_compile(s@) == Ok::<
                            _,
                            crate::lexer::CompileError,
                        >(w@),
                        _ => false,
                    }
                },
                Err(_) => where_string matches Some(s)
                    && crate::where_clause::spec_compile(s@) is Err,
            },
    {
        let defaults = crate::model::all_tags();
        let tags2 = match get_tags_from_args(tags, &defaults) {
            Ok(v) => v,
            Err(e) => {
                return Err(e);
            },
        };
        proof {
            lemma_dedup_no_dup(tags@);
            assert(spec_no_dup(crate::model::spec_all_tags()));
        }
        let where_clause = match get_where(where_string) {
            Ok(w) => w,
            Err(e) => {
                return Err(e.message());
            },
        };
        Ok(ExpAction { with_properties, tags: tags2, where_clause })
    }
}

} // verus!
