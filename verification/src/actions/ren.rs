//! Renaming files from tag values: the template is rendered per record;
//! building the new path and touching the file system stay outside the
//! library.

use vstd::prelude::*;

use crate::model::{FilenameExistPolicy, MyTag};
use crate::ops::get_where;
use crate::record::ReadTag;
use crate::strings::{from_chars, str_eq, to_chars};
use crate::text_edit::spec_replace_all;
use crate::where_clause::WhereClause;

verus! {

/// The placeholder text of one tag: `${` name `}`.
pub open spec fn spec_placeholder_of(tag: MyTag) -> Seq<char> {
    "${"@ + tag.spec_name() + "}"@
}

/// One tag's value as the template shows it: text tags verbatim, numeric
/// tags in their textual form, an absent value as empty text.
pub open spec fn spec_render_value<T: ReadTag>(tag: MyTag, t: &T) -> Seq<char> {
    if tag.spec_is_text() || tag.spec_is_date() {
        match t.spec_text_tag(tag) {
            Some(v) => v,
            None => Seq::empty(),
        }
    } else {
        match t.spec_numeric_tag_string(tag) {
            Some(v) => v,
            None => Seq::empty(),
        }
    }
}

/// The template with the placeholders of `tags[i..]` replaced, in order,
/// by the record's values.
pub open spec fn spec_render_from<T: ReadTag>(
    template: Seq<char>,
    tags: Seq<MyTag>,
    i: int,
    t: &T,
) -> Seq<char>
    decreases tags.len() - i,
{
    if i < 0 || i >= tags.len() {
        template
    } else {
        spec_render_from(
            spec_replace_all(template, spec_placeholder_of(tags[i]), spec_render_value(tags[i], t)),
            tags,
            i + 1,
            t,
        )
    }
}

/// The template with every listed tag's placeholder replaced by empty
/// text, the form a record without values would give.
pub open spec fn spec_empty_value(template: Seq<char>, tags: Seq<MyTag>, i: int) -> Seq<char>
    decreases tags.len() - i,
{
    if i < 0 || i >= tags.len() {
        template
    } else {
        spec_empty_value(
            spec_replace_all(template, spec_placeholder_of(tags[i]), Seq::empty()),
            tags,
            i + 1,
        )
    }
}

fn placeholder_of(tag: &MyTag) -> (r: String)
    ensures
        r@ == spec_placeholder_of(*tag),
{
    String::from_str("${").concat(tag.to_string().as_str()).concat("}")
}

/// The template with every listed tag's placeholder replaced by empty text.
pub fn get_empty_value(tags: &Vec<MyTag>, template: &str) -> (r: String)
    ensures
        r@ == spec_empty_value(template@, tags@, 0),
{
    let mut result = template.to_owned();
    let mut i: usize = 0;
    while i < tags.len()
        invariant
            i <= tags@.len(),
            spec_empty_value(template@, tags@, 0) == spec_empty_value(result@, tags@, i as int),
        decreases tags.len() - i,
    {
        let ph = placeholder_of(&tags[i]);
        match crate::text_edit::get_replaced_any(result.as_str(), ph.as_str(), "", false) {
            Some(next) => {
                proof {
                    reveal_strlit("");
                    assert(""@ =~= Seq::<char>::empty());
                }
                result = next;
            },
            None => {},
        }
        i = i + 1;
    }
    result
}

/// Renames each admitted record's file after its tag values.
pub struct RenAction {
    pub tags: Vec<MyTag>,
    pub dry_run: bool,
    pub where_clause: Option<WhereClause>,
    pub template: String,
    pub filename_exist_policy: FilenameExistPolicy,
    pub empty_value: String,
}

impl RenAction {
    /// Builds the action: the template must name at least one tag, and the
    /// WHERE string, if any, must compile.
    pub fn new(
        dry_run: bool,
        where_string: &Option<String>,
        template: &str,
        filename_exist_policy: FilenameExistPolicy,
    ) -> (r: Result<RenAction, String>)
        ensures
            match r {
                Ok(a) => {
                    &&& a.dry_run == dry_run
                    &&& a.filename_exist_policy == filename_exist_policy
                    &&& a.template@ == template@
                    &&& a.tags@.len() > 0
                    &&& a.empty_value@ == spec_empty_value(template@, a.tags@, 0)
                    &&& match (where_string, a.where_clause) {
                        (None, None) => true,
                        (Some(s), Some(w)) => crate::where_clause::spec_compile(s@) == Ok::<
                            _,
                            crate::lexer::CompileError,
                        >(w@),
                        _ => false,
                    }
                },
                Err(_) => (match crate::actions::set_name::spec_scan_template(template@, 0, 0) {
                    Ok(tvs) => crate::actions::set_name::spec_template_tags(tvs).len() == 0,
                    Err(_) => true,
                }) || (where_string matches Some(s)
                    && crate::where_clause::spec_compile(s@) is Err),
            },
    {
        let tags = match crate::actions::set_name::get_tags_from_template(template) {
            Ok(v) => v,
            Err(e) => {
                return Err(e);
            },
        };
        let where_clause = match get_where(where_string) {
            Ok(w) => w,
            Err(e) => {
                return Err(e.message());
            },
        };
        let empty_value = get_empty_value(&tags, template);
        let tv = to_chars(template);
        Ok(
            RenAction {
                tags,
                dry_run,
                where_clause,
                template: from_chars(&tv),
                filename_exist_policy,
                empty_value,
            },
        )
    }

    /// Renders the template against one record: every listed tag's
    /// placeholder is replaced by the record's value. The rendering is
    /// refused when it equals the all-empty form, the template itself, or
    /// empty text, since such a name would say nothing about the record.
    pub fn get_content<T: ReadTag>(&self, t: &T) -> (r: Option<String>)
        ensures
            ({
                let rendered = spec_render_from(self.template@, self.tags@, 0, t);
                match r {
                    Some(s) => s@ == rendered && rendered != self.empty_value@ && rendered
                        != self.template@ && rendered.len() > 0,
                    None => rendered == self.empty_value@ || rendered == self.template@
                        || rendered.len() == 0,
                }
            }),
    {
        let mut result = {
            let tv = to_chars(self.template.as_str());
            from_chars(&tv)
        };
        let mut i: usize = 0;
        while i < self.tags.len()
            invariant
                i <= self.tags@.len(),
                spec_render_from(self.template@, self.tags@, 0, t) == spec_render_from(
                    result@,
                    self.tags@,
                    i as int,
                    t,
                ),
            decreases self.tags@.len() - i,
        {
            let tag = self.tags[i];
            let ph = placeholder_of(&tag);
            let value: String = if tag.is_text() || tag.is_date() {
                match t.get_text_tag(&tag) {
                    Some(v) => v,
                    None => String::new(),
                }
            } else {
                match t.get_numeric_tag_string(&tag) {
                    Some(v) => v,
                    None => String::new(),
                }
            };
            match crate::text_edit::get_replaced_any(
                result.as_str(),
                ph.as_str(),
                value.as_str(),
                false,
            ) {
                Some(next) => {
                    result = next;
                },
                None => {},
            }
            i = i + 1;
        }
        let is_empty_form = str_eq(result.as_str(), self.empty_value.as_str());
        let is_template = str_eq(result.as_str(), self.template.as_str());
        if !is_empty_form && !is_template && result.as_str().unicode_len() > 0 {
            Some(result)
        } else {
            None
        }
    }
}

} // verus!
