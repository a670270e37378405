//! The plain data behind the command line: one structure per command,
//! holding only what the operations need. The binary that parses real
//! arguments converts into these.

use vstd::prelude::*;

use crate::model::{
    AddDirection, CalcMethod, ConstValue, ConvEnProfile, ConvZhProfile, Direction,
    FilenameExistPolicy, ModifyMode, MyTag, QueryResultPosition, SetWhen, TextConst,
};

verus! {

/// The whole invocation: one command.
pub struct App {
    pub command: Command,
}

/// Every operation the tool offers.
pub enum Command {
    View(ViewArgs),
    ConvEn(ConvEnArgs),
    ConvUtf8(ConvUtf8Args),
    ConvZh(ConvZhArgs),
    Exp(ExpArgs),
    Imp(ImpArgs),
    ModNum(ModNumArgs),
    ModTextConst(ModTexConstArgs),
    ModTextRegex(ModTextRegexArgs),
    SetConst(SetConstArgs),
    SetName(SetNameArgs),
    SetSeq(SetSeqArgs),
    Ren(RenArgs),
}

pub struct ExpArgs {
    pub with_properties: bool,
    pub tags: Vec<MyTag>,
    pub where_clause: Option<String>,
    pub output_file: String,
    pub directory: String,
}

pub struct ViewArgs {
    pub with_properties: bool,
    pub tags: Vec<MyTag>,
    pub where_clause: Option<String>,
    pub directory: String,
}

pub struct SetNameArgs {
    pub set_when: SetWhen,
    pub template: String,
    pub where_clause: Option<String>,
    pub dry_run: bool,
    pub quiet: bool,
    pub directory: String,
}

pub struct SetConstArgs {
    pub value: ConstValueArgs,
    pub set_when: SetWhen,
    pub modify_mode: ModifyMode,
    pub where_clause: Option<String>,
    pub global_opts: GlobalAllTagsDefaultEmpty,
}

pub struct SetSeqArgs {
    pub value: Sequence,
    pub modify_mode: ModifyMode,
    pub hyphen: String,
    pub global_opts: GlobalAllTagsDefaultEmpty,
}

pub struct Sequence {
    pub start: u32,
    pub step: u32,
    pub padding: usize,
}

/// A constant value as given on the command line.
pub enum ConstValueArgs {
    Text { value: String },
    Num { value: u32, padding: usize },
    Date { value: String, format: String },
}

impl ConstValueArgs {
    /// The constant the arguments describe.
    pub fn to_const_value(&self) -> (r: ConstValue)
        ensures
            match (self, r) {
                (ConstValueArgs::Text { value: a }, ConstValue::Text { value: b }) => a@ == b@,
                (
                    ConstValueArgs::Num { value: a, padding: pa },
                    ConstValue::Num { value: b, padding: pb },
                ) => a == b && pa == pb,
                (
                    ConstValueArgs::Date { value: a, format: fa },
                    ConstValue::Date { value: b, format: fb },
                ) => a@ == b@ && fa@ == fb@,
                _ => false,
            },
    {
        match self {
            ConstValueArgs::Text { value } => ConstValue::Text { value: value.clone() },
            ConstValueArgs::Num { value, padding } => ConstValue::Num {
                value: *value,
                padding: *padding,
            },
            ConstValueArgs::Date { value, format } => ConstValue::Date {
                value: value.clone(),
                format: format.clone(),
            },
        }
    }
}

/// A constant text edit as given on the command line.
pub enum TextConstArgs {
    Add { add_direction: AddDirection, offset: usize, addend: String },
    Replace { from: String, ignore_case: bool, position: QueryResultPosition, to: String },
    Remove { direction: Direction, beginning_offset: usize, end_offset: Option<usize> },
    Truncate { direction: Direction, limit: usize },
}

impl TextConstArgs {
    /// The edit the arguments describe.
    pub fn to_text_const(&self) -> (r: TextConst)
        ensures
            match (self, r) {
                (
                    TextConstArgs::Add { add_direction: d1, offset: o1, addend: a1 },
                    TextConst::Add { add_direction: d2, offset: o2, addend: a2 },
                ) => d1 == d2 && o1 == o2 && a1@ == a2@,
                (
                    TextConstArgs::Replace { from: f1, ignore_case: i1, position: p1, to: t1 },
                    TextConst::Replace { from: f2, ignore_case: i2, position: p2, to: t2 },
                ) => f1@ == f2@ && i1 == i2 && p1 == p2 && t1@ == t2@,
                (
                    TextConstArgs::Remove { direction: d1, beginning_offset: b1, end_offset: e1 },
                    TextConst::Remove { direction: d2, beginning_offset: b2, end_offset: e2 },
                ) => d1 == d2 && b1 == b2 && e1 == e2,
                (
                    TextConstArgs::Truncate { direction: d1, limit: l1 },
                    TextConst::Truncate { direction: d2, limit: l2 },
                ) => d1 == d2 && l1 == l2,
                _ => false,
            },
    {
        match self {
            TextConstArgs::Add { add_direction, offset, addend } => TextConst::Add {
                add_direction: *add_direction,
                offset: *offset,
                addend: addend.clone(),
            },
            TextConstArgs::Replace { from, ignore_case, position, to } => TextConst::Replace {
                from: from.clone(),
                ignore_case: *ignore_case,
                position: *position,
                to: to.clone(),
            },
            TextConstArgs::Remove { direction, beginning_offset, end_offset } => {
                TextConst::Remove {
                    direction: *direction,
                    beginning_offset: *beginning_offset,
                    end_offset: match end_offset {
                        Some(e) => Some(*e),
                        None => None,
                    },
                }
            },
            TextConstArgs::Truncate { direction, limit } => TextConst::Truncate {
                direction: *direction,
                limit: *limit,
            },
        }
    }
}

pub struct ImpArgs {
    pub dry_run: bool,
    pub quiet: bool,
    pub base_directory: Option<String>,
    pub source_file: String,
}

pub struct RenArgs {
    pub dry_run: bool,
    pub quiet: bool,
    pub where_clause: Option<String>,
    pub template: String,
    pub filename_exist_policy: FilenameExistPolicy,
    pub directory: String,
}

pub struct ModNumArgs {
    pub calc_method: CalcMethod,
    pub operand: u32,
    pub padding: usize,
    pub tags: Vec<NumericTagArgs>,
    pub where_clause: Option<String>,
    pub dry_run: bool,
    pub quiet: bool,
    pub directory: String,
}

pub struct ModTexConstArgs {
    pub value: TextConstArgs,
    pub global_opts: GlobalTextTagsDefaultAll,
}

pub struct ModTextRegexArgs {
    pub from: String,
    pub ignore_case: bool,
    pub to: String,
    pub global_opts: GlobalTextTagsDefaultAll,
}

pub struct ConvZhArgs {
    pub profile: ConvZhProfile,
    pub global_opts: GlobalTextTagsDefaultAll,
}

pub struct ConvEnArgs {
    pub profile: ConvEnProfile,
    pub global_opts: GlobalTextTagsDefaultAll,
}

pub struct ConvUtf8Args {
    pub encoding_name: String,
    pub global_opts: GlobalTextTagsDefaultAll,
}

pub struct GlobalAllTagsDefaultEmpty {
    pub tags: Vec<MyTag>,
    pub dry_run: bool,
    pub quiet: bool,
    pub directory: String,
}

pub struct GlobalTextTagsDefaultAll {
    pub tags: Vec<TextTagArgs>,
    pub where_clause: Option<String>,
    pub dry_run: bool,
    pub quiet: bool,
    pub directory: String,
}

/// The text tags a user may select on the command line.
#[derive(Debug, Copy, Clone, PartialEq, Eq, Structural)]
pub enum TextTagArgs {
    Title,
    Artist,
    AlbumTitle,
    AlbumArtist,
    Genre,
    Composer,
    Comment,
    Copyright,
}

impl TextTagArgs {
    pub fn to_my_tag(&self) -> (r: MyTag)
        ensures
            r == match self {
                TextTagArgs::Title => MyTag::Title,
                TextTagArgs::Artist => MyTag::Artist,
                TextTagArgs::AlbumTitle => MyTag::AlbumTitle,
                TextTagArgs::AlbumArtist => MyTag::AlbumArtist,
                TextTagArgs::Genre => MyTag::Genre,
                TextTagArgs::Composer => MyTag::Composer,
                TextTagArgs::Comment => MyTag::Comment,
                TextTagArgs::Copyright => MyTag::Copyright,
            },
    {
        match self {
            TextTagArgs::Title => MyTag::Title,
            TextTagArgs::Artist => MyTag::Artist,
            TextTagArgs::AlbumTitle => MyTag::AlbumTitle,
            TextTagArgs::AlbumArtist => MyTag::AlbumArtist,
            TextTagArgs::Genre => MyTag::Genre,
            TextTagArgs::Composer => MyTag::Composer,
            TextTagArgs::Comment => MyTag::Comment,
            TextTagArgs::Copyright => MyTag::Copyright,
        }
    }
}

/// The numeric tags a user may select on the command line.
#[derive(Debug, Copy, Clone, PartialEq, Eq, Structural)]
pub enum NumericTagArgs {
    Year,
    TrackNumber,
    TrackTotal,
    DiscNumber,
    DiscTotal,
}

impl NumericTagArgs {
    pub fn to_my_tag(&self) -> (r: MyTag)
        ensures
            r == match self {
                NumericTagArgs::Year => MyTag::Year,
                NumericTagArgs::TrackNumber => MyTag::TrackNumber,
                NumericTagArgs::TrackTotal => MyTag::TrackTotal,
                NumericTagArgs::DiscNumber => MyTag::DiscNumber,
                NumericTagArgs::DiscTotal => MyTag::DiscTotal,
            },
    {
        match self {
            NumericTagArgs::Year => MyTag::Year,
            NumericTagArgs::TrackNumber => MyTag::TrackNumber,
            NumericTagArgs::TrackTotal => MyTag::TrackTotal,
            NumericTagArgs::DiscNumber => MyTag::DiscNumber,
            NumericTagArgs::DiscTotal => MyTag::DiscTotal,
        }
    }
}

} // verus!
