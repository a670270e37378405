//! The tag schema: the closed set of tag identifiers and their data classes,
//! together with the small value types the editing operations share.

use vstd::prelude::*;

use crate::numeric::{decimal_to_padding_string, spec_padded_dec};
use crate::strings::{from_chars, str_eq, to_chars};

verus! {

pub const DEFAULT_PADDING: usize = 2;

/// The data class of a tag: its values are text, numbers, or dates.
/// Dates behave like text for comparison purposes.
#[derive(Debug, Copy, Clone, PartialEq, Eq, Structural)]
pub enum MyTagType {
    Text,
    Numeric,
    Date,
}

/// The closed set of tag identifiers.
#[derive(Debug, Copy, Clone, PartialEq, Eq, Hash, Structural)]
pub enum MyTag {
    Title,
    Artist,
    AlbumTitle,
    AlbumArtist,
    Genre,
    Composer,
    Year,
    TrackNumber,
    TrackTotal,
    DiscNumber,
    DiscTotal,
    Date,
    Comment,
    Copyright,
    Lyrics,
}

impl MyTag {
    /// The data class of each tag.
    pub open spec fn spec_data_type(self) -> MyTagType {
        match self {
            MyTag::Title => MyTagType::Text,
            MyTag::Artist => MyTagType::Text,
            MyTag::AlbumTitle => MyTagType::Text,
            MyTag::AlbumArtist => MyTagType::Text,
            MyTag::Genre => MyTagType::Text,
            MyTag::Composer => MyTagType::Text,
            MyTag::Year => MyTagType::Numeric,
            MyTag::TrackNumber => MyTagType::Numeric,
            MyTag::TrackTotal => MyTagType::Numeric,
            MyTag::DiscNumber => MyTagType::Numeric,
            MyTag::DiscTotal => MyTagType::Numeric,
            MyTag::Date => MyTagType::Date,
            MyTag::Comment => MyTagType::Text,
            MyTag::Copyright => MyTagType::Text,
            MyTag::Lyrics => MyTagType::Text,
        }
    }

    pub fn data_type(&self) -> (t: MyTagType)
        ensures
            t == self.spec_data_type(),
    {
        match self {
            MyTag::Title => MyTagType::Text,
            MyTag::Artist => MyTagType::Text,
            MyTag::AlbumTitle => MyTagType::Text,
            MyTag::AlbumArtist => MyTagType::Text,
            MyTag::Genre => MyTagType::Text,
            MyTag::Composer => MyTagType::Text,
            MyTag::Year => MyTagType::Numeric,
            MyTag::TrackNumber => MyTagType::Numeric,
            MyTag::TrackTotal => MyTagType::Numeric,
            MyTag::DiscNumber => MyTagType::Numeric,
            MyTag::DiscTotal => MyTagType::Numeric,
            MyTag::Date => MyTagType::Date,
            MyTag::Comment => MyTagType::Text,
            MyTag::Copyright => MyTagType::Text,
            MyTag::Lyrics => MyTagType::Text,
        }
    }

    pub open spec fn spec_is_text(self) -> bool {
        self.spec_data_type() == MyTagType::Text
    }

    pub open spec fn spec_is_numeric(self) -> bool {
        self.spec_data_type() == MyTagType::Numeric
    }

    pub open spec fn spec_is_date(self) -> bool {
        self.spec_data_type() == MyTagType::Date
    }

    pub fn is_text(&self) -> (r: bool)
        ensures
            r == self.spec_is_text(),
    {
        match self.data_type() {
            MyTagType::Text => true,
            _ => false,
        }
    }

    pub fn is_numeric(&self) -> (r: bool)
        ensures
            r == self.spec_is_numeric(),
    {
        match self.data_type() {
            MyTagType::Numeric => true,
            _ => false,
        }
    }

    pub fn is_date(&self) -> (r: bool)
        ensures
            r == self.spec_is_date(),
    {
        match self.data_type() {
            MyTagType::Date => true,
            _ => false,
        }
    }

    /// The kebab-case name of each tag, as it appears in predicates
    /// and templates.
    pub open spec fn spec_name(self) -> Seq<char> {
        match self {
            MyTag::Title => "title"@,
            MyTag::Artist => "artist"@,
            MyTag::AlbumTitle => "album-title"@,
            MyTag::AlbumArtist => "album-artist"@,
            MyTag::Genre => "genre"@,
            MyTag::Composer => "composer"@,
            MyTag::Year => "year"@,
            MyTag::TrackNumber => "track-number"@,
            MyTag::TrackTotal => "track-total"@,
            MyTag::DiscNumber => "disc-number"@,
            MyTag::DiscTotal => "disc-total"@,
            MyTag::Date => "date"@,
            MyTag::Comment => "comment"@,
            MyTag::Copyright => "copyright"@,
            MyTag::Lyrics => "lyrics"@,
        }
    }

    /// The kebab-case name of the tag.
    pub fn to_string(&self) -> (r: String)
        ensures
            r@ == self.spec_name(),
    {
        let s: &str = match self {
            MyTag::Title => "title",
            MyTag::Artist => "artist",
            MyTag::AlbumTitle => "album-title",
            MyTag::AlbumArtist => "album-artist",
            MyTag::Genre => "genre",
            MyTag::Composer => "composer",
            MyTag::Year => "year",
            MyTag::TrackNumber => "track-number",
            MyTag::TrackTotal => "track-total",
            MyTag::DiscNumber => "disc-number",
            MyTag::DiscTotal => "disc-total",
            MyTag::Date => "date",
            MyTag::Comment => "comment",
            MyTag::Copyright => "copyright",
            MyTag::Lyrics => "lyrics",
        };
        let v = to_chars(s);
        from_chars(&v)
    }

    /// The tag whose kebab-case name is `s`, if any. Names are case-sensitive.
    pub open spec fn spec_tag_of(s: Seq<char>) -> Option<MyTag> {
        if s == "title"@ {
            Some(MyTag::Title)
        } else if s == "artist"@ {
            Some(MyTag::Artist)
        } else if s == "album-title"@ {
            Some(MyTag::AlbumTitle)
        } else if s == "album-artist"@ {
            Some(MyTag::AlbumArtist)
        } else if s == "genre"@ {
            Some(MyTag::Genre)
        } else if s == "composer"@ {
            Some(MyTag::Composer)
        } else if s == "year"@ {
            Some(MyTag::Year)
        } else if s == "track-number"@ {
            Some(MyTag::TrackNumber)
        } else if s == "track-total"@ {
            Some(MyTag::TrackTotal)
        } else if s == "disc-number"@ {
            Some(MyTag::DiscNumber)
        } else if s == "disc-total"@ {
            Some(MyTag::DiscTotal)
        } else if s == "date"@ {
            Some(MyTag::Date)
        } else if s == "comment"@ {
            Some(MyTag::Comment)
        } else if s == "copyright"@ {
            Some(MyTag::Copyright)
        } else if s == "lyrics"@ {
            Some(MyTag::Lyrics)
        } else {
            None
        }
    }

    /// Resolves a tag name against the schema.
    pub fn from_str(input: &str) -> (r: Option<MyTag>)
        ensures
            r == Self::spec_tag_of(input@),
    {
        if str_eq(input, "title") {
            Some(MyTag::Title)
        } else if str_eq(input, "artist") {
            Some(MyTag::Artist)
        } else if str_eq(input, "album-title") {
            Some(MyTag::AlbumTitle)
        } else if str_eq(input, "album-artist") {
            Some(MyTag::AlbumArtist)
        } else if str_eq(input, "genre") {
            Some(MyTag::Genre)
        } else if str_eq(input, "composer") {
            Some(MyTag::Composer)
        } else if str_eq(input, "year") {
            Some(MyTag::Year)
        } else if str_eq(input, "track-number") {
            Some(MyTag::TrackNumber)
        } else if str_eq(input, "track-total") {
            Some(MyTag::TrackTotal)
        } else if str_eq(input, "disc-number") {
            Some(MyTag::DiscNumber)
        } else if str_eq(input, "disc-total") {
            Some(MyTag::DiscTotal)
        } else if str_eq(input, "date") {
            Some(MyTag::Date)
        } else if str_eq(input, "comment") {
            Some(MyTag::Comment)
        } else if str_eq(input, "copyright") {
            Some(MyTag::Copyright)
        } else if str_eq(input, "lyrics") {
            Some(MyTag::Lyrics)
        } else {
            None
        }
    }
}

/// The tags in their canonical listing order.
pub open spec fn spec_all_tags() -> Seq<MyTag> {
    seq![
        MyTag::Title,
        MyTag::Artist,
        MyTag::AlbumTitle,
        MyTag::AlbumArtist,
        MyTag::Genre,
        MyTag::Composer,
        MyTag::Year,
        MyTag::Date,
        MyTag::TrackNumber,
        MyTag::TrackTotal,
        MyTag::DiscNumber,
        MyTag::DiscTotal,
        MyTag::Comment,
        MyTag::Copyright,
        MyTag::Lyrics,
    ]
}

/// Every tag, in canonical listing order.
pub fn all_tags() -> (r: Vec<MyTag>)
    ensures
        r@ == spec_all_tags(),
{
    let mut r: Vec<MyTag> = Vec::new();
    r.push(MyTag::Title);
    r.push(MyTag::Artist);
    r.push(MyTag::AlbumTitle);
    r.push(MyTag::AlbumArtist);
    r.push(MyTag::Genre);
    r.push(MyTag::Composer);
    r.push(MyTag::Year);
    r.push(MyTag::Date);
    r.push(MyTag::TrackNumber);
    r.push(MyTag::TrackTotal);
    r.push(MyTag::DiscNumber);
    r.push(MyTag::DiscTotal);
    r.push(MyTag::Comment);
    r.push(MyTag::Copyright);
    r.push(MyTag::Lyrics);
    proof {
        assert(r@ =~= spec_all_tags());
    }
    r
}

/// The text tags, in canonical listing order.
pub open spec fn spec_text_tags() -> Seq<MyTag> {
    seq![
        MyTag::Title,
        MyTag::Artist,
        MyTag::AlbumTitle,
        MyTag::AlbumArtist,
        MyTag::Genre,
        MyTag::Composer,
        MyTag::Comment,
        MyTag::Copyright,
        MyTag::Lyrics,
    ]
}

/// Every text tag, in canonical listing order.
pub fn text_tags() -> (r: Vec<MyTag>)
    ensures
        r@ == spec_text_tags(),
{
    let mut r: Vec<MyTag> = Vec::new();
    r.push(MyTag::Title);
    r.push(MyTag::Artist);
    r.push(MyTag::AlbumTitle);
    r.push(MyTag::AlbumArtist);
    r.push(MyTag::Genre);
    r.push(MyTag::Composer);
    r.push(MyTag::Comment);
    r.push(MyTag::Copyright);
    r.push(MyTag::Lyrics);
    proof {
        assert(r@ =~= spec_text_tags());
    }
    r
}

/// An empty tag list, for operations whose default is to touch nothing.
pub fn empty_tags() -> (r: Vec<MyTag>)
    ensures
        r@ == Seq::<MyTag>::empty(),
{
    let r: Vec<MyTag> = Vec::new();
    proof {
        assert(r@ =~= Seq::<MyTag>::empty());
    }
    r
}

/// How a filename collision is resolved when writing a file.
#[derive(Debug, Copy, Clone, PartialEq, Eq, Structural)]
pub enum FilenameExistPolicy {
    Skip,
    KeepBoth,
    Overwrite,
}

/// The case conversions offered for English text tags.
#[derive(Debug, Copy, Clone, PartialEq, Eq, Structural)]
pub enum ConvEnProfile {
    Lowercase,
    Uppercase,
    Titlecase,
}

/// Whether a numeric modification adds or subtracts its operand.
#[derive(Debug, Copy, Clone, PartialEq, Eq, Structural)]
pub enum CalcMethod {
    Increase,
    Decrease,
}

/// When a set operation may overwrite a tag.
#[derive(Debug, Copy, Clone, PartialEq, Eq, Structural)]
pub enum SetWhen {
    Always,
    OnlyEmpty,
    OnlyNotEmpty,
}

/// How a new value combines with an existing one.
#[derive(Debug, Copy, Clone, PartialEq, Eq, Structural)]
pub enum ModifyMode {
    Overwrite,
    Insert,
    Append,
}

/// Whether text is added counting from the beginning or the end.
#[derive(Debug, Copy, Clone, PartialEq, Eq, Structural)]
pub enum AddDirection {
    InsertFromBeginning,
    AppendFromEnd,
}

/// Which end of the text an operation counts from.
#[derive(Debug, Copy, Clone, PartialEq, Eq, Structural)]
pub enum Direction {
    Beginning,
    End,
}

/// Which occurrences of a query are replaced.
#[derive(Debug, Copy, Clone, PartialEq, Eq, Structural)]
pub enum QueryResultPosition {
    Any,
    First,
    Last,
    Beginning,
    End,
}

/// The OpenCC conversion profiles for Chinese text tags.
#[derive(Debug, Copy, Clone, PartialEq, Eq, Structural)]
pub enum ConvZhProfile {
    HK2S,
    HK2T,
    JP2T,
    S2T,
    S2TW,
    S2TWP,
    T2HK,
    T2JP,
    T2TW,
    T2S,
    S2HK,
    TW2S,
    TW2SP,
    TW2T,
}

/// A constant value to be written into tags.
#[derive(Debug, Clone)]
pub enum ConstValue {
    Text { value: String },
    Num { value: u32, padding: usize },
    Date { value: String, format: String },
}

impl ConstValue {
    /// The text form of the constant: text and dates verbatim, numbers
    /// zero-padded to their configured width.
    pub fn get_text_value(&self) -> (r: String)
        ensures
            match self {
                ConstValue::Text { value } => r@ == value@,
                ConstValue::Date { value, .. } => r@ == value@,
                ConstValue::Num { value, padding } => r@ == spec_padded_dec(
                    *value as int,
                    *padding as int,
                ),
            },
    {
        match self {
            ConstValue::Text { value } => {
                let v = to_chars(value.as_str());
                from_chars(&v)
            },
            ConstValue::Date { value, .. } => {
                let v = to_chars(value.as_str());
                from_chars(&v)
            },
            ConstValue::Num { value, padding } => decimal_to_padding_string(*value, *padding),
        }
    }
}

/// A constant edit applied to text tags.
pub enum TextConst {
    Add { add_direction: AddDirection, offset: usize, addend: String },
    Replace { from: String, ignore_case: bool, position: QueryResultPosition, to: String },
    Remove { direction: Direction, beginning_offset: usize, end_offset: Option<usize> },
    Truncate { direction: Direction, limit: usize },
}

} // verus!
