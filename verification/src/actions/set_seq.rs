//! Writing a running sequence number into the selected tags.

use vstd::prelude::*;

use crate::model::{ModifyMode, MyTag};
use crate::numeric::{
    decimal_to_padding_string, parse_u32_range, spec_dec_val, spec_is_digit, spec_padded_dec,
};
use crate::ops::{
    check_numeric_date_tags_must_be_overwrite, get_tags_from_args, lemma_dedup_no_dup, spec_dedup,
    spec_no_dup, MAX_NUMBER,
};
use crate::record::{ReadTag, ReadWriteTag, WriteTag};
use crate::strings::to_chars;

verus! {

/// The next sequence entry: its padded text and its numeric value. The
/// first entry is the start value; each later one adds the step, and the
/// sequence ends where the numeric domain does.
pub open spec fn spec_next_value(
    seq_start: u32,
    seq_step: u32,
    seq_padding: int,
    seed: Option<u32>,
) -> Option<(Seq<char>, u32)> {
    match seed {
        Some(v) => if v + seq_step <= MAX_NUMBER {
            Some((spec_padded_dec(v + seq_step, seq_padding), (v + seq_step) as u32))
        } else {
            None
        },
        None => Some((spec_padded_dec(seq_start as int, seq_padding), seq_start)),
    }
}

/// The next sequence entry after `seed`, or the start entry when there is
/// no seed; `None` once the numeric domain is exhausted.
pub fn get_next_value(seq_start: u32, seq_step: u32, seq_padding: usize, seed: &Option<u32>) -> (r:
    Option<(String, u32)>)
    ensures
        match (r, spec_next_value(seq_start, seq_step, seq_padding as int, *seed)) {
            (Some((s, v)), Some((sv, vv))) => s@ == sv && v == vv,
            (None, None) => true,
            _ => false,
        },
{
    match seed {
        Some(v) => {
            let sum: u64 = (*v as u64) + (seq_step as u64);
            if sum <= MAX_NUMBER as u64 {
                let new_value = sum as u32;
                Some((decimal_to_padding_string(new_value, seq_padding), new_value))
            } else {
                None
            }
        },
        None => Some((decimal_to_padding_string(seq_start, seq_padding), seq_start)),
    }
}

/// Writes a running sequence into the selected tags.
pub struct SetSeqAction {
    pub dry_run: bool,
    pub tags: Vec<MyTag>,
    pub seq_start: u32,
    pub seq_step: u32,
    pub seq_padding: usize,
    pub hyphen: String,
    pub modify_mode: ModifyMode,
}

impl SetSeqAction {
    /// The text stored for a current value and a sequence entry, per the
    /// modify mode.
    pub open spec fn spec_new_value(&self, current: Option<Seq<char>>, from_seq: Seq<char>) -> Seq<
        char,
    > {
        match self.modify_mode {
            ModifyMode::Append => (match current {
                Some(c) => c,
                None => Seq::empty(),
            }) + self.hyphen@ + from_seq,
            ModifyMode::Insert => from_seq + self.hyphen@ + (match current {
                Some(c) => c,
                None => Seq::empty(),
            }),
            ModifyMode::Overwrite => from_seq,
        }
    }

    /// Builds the action; numeric and date tags demand overwrite mode.
    pub fn new(
        dry_run: bool,
        tags: &Vec<MyTag>,
        seq_start: u32,
        seq_step: u32,
        seq_padding: usize,
        hyphen: &str,
        modify_mode: &ModifyMode,
    ) -> (r: Result<SetSeqAction, String>)
        ensures
            match r {
                Ok(a) => {
                    &&& a.dry_run == dry_run
                    &&& a.seq_start == seq_start
                    &&& a.seq_step == seq_step
                    &&& a.seq_padding == seq_padding
                    &&& a.hyphen@ == hyphen@
                    &&& a.modify_mode == *modify_mode
                    &&& spec_no_dup(a.tags@)
                    &&& tags@.len() > 0
                    &&& a.tags@ == spec_dedup(tags@)
                    &&& !(crate::ops::spec_exist_numeric_or_date(a.tags@) && *modify_mode
                        != ModifyMode::Overwrite)
                },
                Err(_) => tags@.len() == 0 || (crate::ops::spec_exist_numeric_or_date(
                    spec_dedup(tags@),
                ) && *modify_mode != ModifyMode::Overwrite),
            },
    {
        let empty: Vec<MyTag> = Vec::new();
        let tags2 = match get_tags_from_args(tags, &empty) {
            Ok(v) => v,
            Err(e) => {
                return Err(e);
            },
        };
        proof {
            lemma_dedup_no_dup(tags@);
        }
        match check_numeric_date_tags_must_be_overwrite(&tags2, modify_mode) {
            Ok(_) => {},
            Err(e) => {
                return Err(e);
            },
        }
        Ok(
            SetSeqAction {
                dry_run,
                tags: tags2,
                seq_start,
                seq_step,
                seq_padding,
                hyphen: hyphen.to_owned(),
                modify_mode: *modify_mode,
            },
        )
    }

    /// The next sequence entry for this action's start, step and padding.
    pub fn get_next_seq(&self, seed: &Option<u32>) -> (r: Option<(String, u32)>)
        ensures
            match (r, spec_next_value(self.seq_start, self.seq_step, self.seq_padding as int, *seed)) {
                (Some((s, v)), Some((sv, vv))) => s@ == sv && v == vv,
                (None, None) => true,
                _ => false,
            },
    {
        get_next_value(self.seq_start, self.seq_step, self.seq_padding, seed)
    }

    /// The text stored for a current value and a sequence entry.
    pub fn get_new_value(&self, current: &Option<String>, from_seq: &str) -> (r: String)
        ensures
            r@ == self.spec_new_value(
                match current {
                    Some(c) => Some(c@),
                    None => None,
                },
                from_seq@,
            ),
    {
        match self.modify_mode {
            ModifyMode::Append => {
                let base = match current {
                    Some(c) => c.clone(),
                    None => String::new(),
                };
                base.concat(self.hyphen.as_str()).concat(from_seq)
            },
            ModifyMode::Insert => {
                let base = match current {
                    Some(c) => c.clone(),
                    None => String::new(),
                };
                from_seq.to_owned().concat(self.hyphen.as_str()).concat(base.as_str())
            },
            ModifyMode::Overwrite => from_seq.to_owned(),
        }
    }

    /// Stores a sequence entry into one text tag, combined with the
    /// current value per the modify mode.
    pub fn set_text_tag<T: ReadTag + WriteTag>(&self, t: &mut T, tag: &MyTag, from_seq: &str) -> (r:
        bool)
        ensures
            r == true,
            tag.spec_is_text() || tag.spec_is_date() ==> final(t).spec_text_tag(*tag) == Some(
                if self.modify_mode == ModifyMode::Overwrite {
                    from_seq@
                } else {
                    self.spec_new_value(old(t).spec_text_tag(*tag), from_seq@)
                },
            ),
            forall|t2: MyTag|
                t2 != *tag ==> final(t).spec_text_tag(t2) == old(t).spec_text_tag(t2),
            forall|t2: MyTag|
                final(t).spec_numeric_tag(t2) == old(t).spec_numeric_tag(t2) && final(t).spec_numeric_tag_string(t2) == old(t).spec_numeric_tag_string(t2),
    {
        match self.modify_mode {
            ModifyMode::Overwrite => {
                t.write_text_tag(tag, from_seq);
            },
            _ => {
                let current = t.get_text_tag(tag);
                let new_value = self.get_new_value(&current, from_seq);
                t.write_text_tag(tag, new_value.as_str());
            },
        }
        true
    }

    /// Stores a sequence entry into one numeric tag. The entry must be the
    /// decimal text the sequence generated; a non-numeric entry writes
    /// nothing.
    pub fn set_numeric_tag<T: ReadWriteTag>(&self, t: &mut T, tag: &MyTag, from_seq: &str) -> (r:
        bool)
        ensures
            r && tag.spec_is_numeric() ==> (final(t).spec_numeric_tag(*tag) matches Some(v) && (
            v as int) == spec_dec_val(from_seq@)),
            forall|t2: MyTag| final(t).spec_text_tag(t2) == old(t).spec_text_tag(t2),
            forall|t2: MyTag|
                t2 != *tag ==> final(t).spec_numeric_tag(t2) == old(t).spec_numeric_tag(t2)
                    && final(t).spec_numeric_tag_string(t2) == old(t).spec_numeric_tag_string(t2),
            !r ==> final(t).spec_numeric_tag(*tag) == old(t).spec_numeric_tag(*tag) && final(t).spec_numeric_tag_string(*tag) == old(t).spec_numeric_tag_string(*tag),
    {
        let chars = to_chars(from_seq);
        if chars.len() == 0 {
            return false;
        }
        let mut all_digits = true;
        let mut i: usize = 0;
        while i < chars.len()
            invariant
                i <= chars@.len(),
                all_digits == forall|k: int| 0 <= k < i ==> spec_is_digit(chars@[k]),
            decreases chars.len() - i,
        {
            let u = chars[i] as u32;
            if !(48 <= u && u <= 57) {
                all_digits = false;
            }
            i = i + 1;
        }
        if !all_digits {
            return false;
        }
        match parse_u32_range(&chars, 0, chars.len()) {
            Some(new_value) => {
                proof {
                    assert(chars@.subrange(0, chars@.len() as int) =~= from_seq@);
                }
                t.write_numeric_tag(tag, new_value, self.seq_padding);
                true
            },
            None => false,
        }
    }

    /// The text a listed text tag holds after one sequence entry is
    /// written over a current value.
    pub open spec fn spec_text_applied(&self, current: Option<Seq<char>>, out: Seq<char>) -> Seq<
        char,
    > {
        if self.modify_mode == ModifyMode::Overwrite {
            out
        } else {
            self.spec_new_value(current, out)
        }
    }

    /// Writes one sequence entry into every listed tag of the record: text
    /// tags combine per the modify mode, numeric tags take the entry's
    /// value when it is one, and the date tag is skipped.
    pub fn set_tags<T: ReadWriteTag>(&self, t: &mut T, out: &Option<&str>) -> (r: Result<
        (),
        String,
    >)
        requires
            spec_no_dup(self.tags@),
            self.tags@.len() > 0 ==> out matches Some(_),
        ensures
            self.tags@.len() > 0 && (out matches Some(o)) ==> forall|tag: MyTag|
                self.tags@.contains(tag) && tag.spec_is_text() ==> final(t).spec_text_tag(tag)
                    == Some(self.spec_text_applied(old(t).spec_text_tag(tag), out->Some_0@)),
            forall|tag: MyTag|
                !(self.tags@.contains(tag) && tag.spec_is_text()) ==> final(t).spec_text_tag(tag)
                    == old(t).spec_text_tag(tag),
            forall|tag: MyTag|
                !(self.tags@.contains(tag) && tag.spec_is_numeric()) ==> final(t).spec_numeric_tag(tag) == old(t).spec_numeric_tag(tag),
    {
        if self.tags.len() == 0 {
            return Ok(());
        }
        let out_str: &str = match out {
            Some(s) => s,
            None => {
                return Ok(());
            },
        };
        let mut any_changed = false;
        let mut i: usize = 0;
        while i < self.tags.len()
            invariant
                i <= self.tags@.len(),
                spec_no_dup(self.tags@),
                forall|j: int|
                    0 <= j < i && self.tags@[j].spec_is_text() ==> t.spec_text_tag(self.tags@[j])
                        == Some(
                        self.spec_text_applied(old(t).spec_text_tag(self.tags@[j]), out_str@),
                    ),
                forall|tag: MyTag|
                    !(exists|j: int|
                        0 <= j < i && self.tags@[j] == tag && tag.spec_is_text())
                        ==> t.spec_text_tag(tag) == old(t).spec_text_tag(tag),
                forall|tag: MyTag|
                    !(exists|j: int|
                        0 <= j < i && self.tags@[j] == tag && tag.spec_is_numeric())
                        ==> t.spec_numeric_tag(tag) == old(t).spec_numeric_tag(tag),
            decreases self.tags@.len() - i,
        {
            let tag = self.tags[i];
            proof {
                assert(forall|j: int| 0 <= j < i ==> self.tags@[j] != tag);
            }
            let changed: bool;
            if tag.is_text() {
                changed = self.set_text_tag(t, &tag, out_str);
            } else if tag.is_numeric() {
                changed = self.set_numeric_tag(t, &tag, out_str);
            } else {
                changed = false;
            }
            if !any_changed {
                any_changed = changed;
            }
            i = i + 1;
        }
        proof {
            assert forall|tag: MyTag|
                self.tags@.contains(tag) && tag.spec_is_text() implies t.spec_text_tag(tag)
                == Some(self.spec_text_applied(old(t).spec_text_tag(tag), out_str@)) by {
                let j = choose|j: int| 0 <= j < self.tags@.len() && self.tags@[j] == tag;
            }
        }
        if any_changed {
            t.save()
        } else {
            Ok(())
        }
    }
}

} // verus!
