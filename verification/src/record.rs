//! The capability through which predicates and editing operations see one
//! file's tag values, and a plain in-memory record implementing it.
//!
//! Tag backends outside this crate implement the same traits; `TagRecord`
//! is the verified model of such a backend and serves tests and callers
//! that already hold the values.

use vstd::prelude::*;

use crate::model::MyTag;
use crate::numeric::spec_padded_dec;
use crate::numeric::decimal_to_padding_string;

verus! {

/// The view of an optional string value.
pub open spec fn spec_opt_view(o: Option<String>) -> Option<Seq<char>> {
    match o {
        Some(s) => Some(s@),
        None => None,
    }
}

/// Read access to one record's tag values.
pub trait ReadTag {
    /// The text value of a text or date tag, if present.
    spec fn spec_text_tag(&self, tag: MyTag) -> Option<Seq<char>>;

    /// The numeric value of a numeric tag, if present.
    spec fn spec_numeric_tag(&self, tag: MyTag) -> Option<u32>;

    /// The textual form of a numeric tag, if present.
    spec fn spec_numeric_tag_string(&self, tag: MyTag) -> Option<Seq<char>>;

    fn get_text_tag(&self, key: &MyTag) -> (r: Option<String>)
        ensures
            spec_opt_view(r) == self.spec_text_tag(*key),
    ;

    fn get_numeric_tag(&self, key: &MyTag) -> (r: Option<u32>)
        ensures
            r == self.spec_numeric_tag(*key),
    ;

    fn get_numeric_tag_string(&self, key: &MyTag) -> (r: Option<String>)
        ensures
            spec_opt_view(r) == self.spec_numeric_tag_string(*key),
    ;
}

/// Persisting a record. Saving never changes the values held.
pub trait WriteTagFile: ReadTag {
    fn save(&mut self) -> (r: Result<(), String>)
        ensures
            forall|t: MyTag| final(self).spec_text_tag(t) == old(self).spec_text_tag(t),
            forall|t: MyTag| final(self).spec_numeric_tag(t) == old(self).spec_numeric_tag(t),
            forall|t: MyTag|
                final(self).spec_numeric_tag_string(t) == old(self).spec_numeric_tag_string(t),
    ;
}

/// Write access to one record's tag values. A write to a tag of the wrong
/// data class is ignored; every write leaves all other tags unchanged.
pub trait WriteTag: WriteTagFile {
    fn write_text_tag(&mut self, key: &MyTag, value: &str)
        ensures
            key.spec_is_text() || key.spec_is_date() ==> final(self).spec_text_tag(*key) == Some(
                value@,
            ),
            !(key.spec_is_text() || key.spec_is_date()) ==> final(self).spec_text_tag(*key) == old(self).spec_text_tag(*key),
            forall|t: MyTag|
                t != *key ==> final(self).spec_text_tag(t) == old(self).spec_text_tag(t),
            forall|t: MyTag| final(self).spec_numeric_tag(t) == old(self).spec_numeric_tag(t),
            forall|t: MyTag|
                final(self).spec_numeric_tag_string(t) == old(self).spec_numeric_tag_string(t),
    ;

    fn write_numeric_tag(&mut self, key: &MyTag, value: u32, padding: usize)
        ensures
            key.spec_is_numeric() ==> final(self).spec_numeric_tag(*key) == Some(value),
            key.spec_is_numeric() ==> final(self).spec_numeric_tag_string(*key) == Some(
                spec_padded_dec(value as int, padding as int),
            ),
            !key.spec_is_numeric() ==> final(self).spec_numeric_tag(*key) == old(self).spec_numeric_tag(*key),
            !key.spec_is_numeric() ==> final(self).spec_numeric_tag_string(*key) == old(self).spec_numeric_tag_string(*key),
            forall|t: MyTag|
                t != *key ==> final(self).spec_numeric_tag(t) == old(self).spec_numeric_tag(t),
            forall|t: MyTag|
                t != *key ==> final(self).spec_numeric_tag_string(t) == old(self).spec_numeric_tag_string(t),
            forall|t: MyTag| final(self).spec_text_tag(t) == old(self).spec_text_tag(t),
    ;

    fn clear_tag(&mut self, key: &MyTag)
        ensures
            final(self).spec_text_tag(*key) is None,
            final(self).spec_numeric_tag(*key) is None,
            final(self).spec_numeric_tag_string(*key) is None,
            forall|t: MyTag|
                t != *key ==> final(self).spec_text_tag(t) == old(self).spec_text_tag(t),
            forall|t: MyTag|
                t != *key ==> final(self).spec_numeric_tag(t) == old(self).spec_numeric_tag(t),
            forall|t: MyTag|
                t != *key ==> final(self).spec_numeric_tag_string(t) == old(self).spec_numeric_tag_string(t),
    ;
}

/// A record that can be both read and written.
pub trait ReadWriteTag: ReadTag + WriteTag {

}

/// A plain in-memory tag record: one optional value slot per tag.
#[derive(Debug, Clone)]
pub struct TagRecord {
    pub title: Option<String>,
    pub artist: Option<String>,
    pub album_title: Option<String>,
    pub album_artist: Option<String>,
    pub genre: Option<String>,
    pub composer: Option<String>,
    pub comment: Option<String>,
    pub copyright: Option<String>,
    pub lyrics: Option<String>,
    pub date: Option<String>,
    pub year: Option<u32>,
    pub track_number: Option<u32>,
    pub track_total: Option<u32>,
    pub disc_number: Option<u32>,
    pub disc_total: Option<u32>,
    pub year_string: Option<String>,
    pub track_number_string: Option<String>,
    pub track_total_string: Option<String>,
    pub disc_number_string: Option<String>,
    pub disc_total_string: Option<String>,
}

impl TagRecord {
    /// A record with every tag absent.
    pub fn new() -> (r: TagRecord)
        ensures
            forall|t: MyTag| r.spec_text_tag(t) is None,
            forall|t: MyTag| r.spec_numeric_tag(t) is None,
            forall|t: MyTag| r.spec_numeric_tag_string(t) is None,
    {
        TagRecord {
            title: None,
            artist: None,
            album_title: None,
            album_artist: None,
            genre: None,
            composer: None,
            comment: None,
            copyright: None,
            lyrics: None,
            date: None,
            year: None,
            track_number: None,
            track_total: None,
            disc_number: None,
            disc_total: None,
            year_string: None,
            track_number_string: None,
            track_total_string: None,
            disc_number_string: None,
            disc_total_string: None,
        }
    }
}

fn clone_opt_string(o: &Option<String>) -> (r: Option<String>)
    ensures
        spec_opt_view(r) == spec_opt_view(*o),
{
    match o {
        Some(s) => Some(s.clone()),
        None => None,
    }
}

impl ReadTag for TagRecord {
    open spec fn spec_text_tag(&self, tag: MyTag) -> Option<Seq<char>> {
        match tag {
            MyTag::Title => spec_opt_view(self.title),
            MyTag::Artist => spec_opt_view(self.artist),
            MyTag::AlbumTitle => spec_opt_view(self.album_title),
            MyTag::AlbumArtist => spec_opt_view(self.album_artist),
            MyTag::Genre => spec_opt_view(self.genre),
            MyTag::Composer => spec_opt_view(self.composer),
            MyTag::Comment => spec_opt_view(self.comment),
            MyTag::Copyright => spec_opt_view(self.copyright),
            MyTag::Lyrics => spec_opt_view(self.lyrics),
            MyTag::Date => spec_opt_view(self.date),
            _ => None,
        }
    }

    open spec fn spec_numeric_tag(&self, tag: MyTag) -> Option<u32> {
        match tag {
            MyTag::Year => self.year,
            MyTag::TrackNumber => self.track_number,
            MyTag::TrackTotal => self.track_total,
            MyTag::DiscNumber => self.disc_number,
            MyTag::DiscTotal => self.disc_total,
            _ => None,
        }
    }

    open spec fn spec_numeric_tag_string(&self, tag: MyTag) -> Option<Seq<char>> {
        match tag {
            MyTag::Year => spec_opt_view(self.year_string),
            MyTag::TrackNumber => spec_opt_view(self.track_number_string),
            MyTag::TrackTotal => spec_opt_view(self.track_total_string),
            MyTag::DiscNumber => spec_opt_view(self.disc_number_string),
            MyTag::DiscTotal => spec_opt_view(self.disc_total_string),
            _ => None,
        }
    }

    fn get_text_tag(&self, key: &MyTag) -> (r: Option<String>) {
        match key {
            MyTag::Title => clone_opt_string(&self.title),
            MyTag::Artist => clone_opt_string(&self.artist),
            MyTag::AlbumTitle => clone_opt_string(&self.album_title),
            MyTag::AlbumArtist => clone_opt_string(&self.album_artist),
            MyTag::Genre => clone_opt_string(&self.genre),
            MyTag::Composer => clone_opt_string(&self.composer),
            MyTag::Comment => clone_opt_string(&self.comment),
            MyTag::Copyright => clone_opt_string(&self.copyright),
            MyTag::Lyrics => clone_opt_string(&self.lyrics),
            MyTag::Date => clone_opt_string(&self.date),
            _ => None,
        }
    }

    fn get_numeric_tag(&self, key: &MyTag) -> (r: Option<u32>) {
        match key {
            MyTag::Year => self.year,
            MyTag::TrackNumber => self.track_number,
            MyTag::TrackTotal => self.track_total,
            MyTag::DiscNumber => self.disc_number,
            MyTag::DiscTotal => self.disc_total,
            _ => None,
        }
    }

    fn get_numeric_tag_string(&self, key: &MyTag) -> (r: Option<String>) {
        match key {
            MyTag::Year => clone_opt_string(&self.year_string),
            MyTag::TrackNumber => clone_opt_string(&self.track_number_string),
            MyTag::TrackTotal => clone_opt_string(&self.track_total_string),
            MyTag::DiscNumber => clone_opt_string(&self.disc_number_string),
            MyTag::DiscTotal => clone_opt_string(&self.disc_total_string),
            _ => None,
        }
    }
}

impl WriteTagFile for TagRecord {
    fn save(&mut self) -> (r: Result<(), String>) {
        Ok(())
    }
}

impl WriteTag for TagRecord {
    fn write_text_tag(&mut self, key: &MyTag, value: &str) {
        let owned = value.to_owned();
        match key {
            MyTag::Title => self.title = Some(owned),
            MyTag::Artist => self.artist = Some(owned),
            MyTag::AlbumTitle => self.album_title = Some(owned),
            MyTag::AlbumArtist => self.album_artist = Some(owned),
            MyTag::Genre => self.genre = Some(owned),
            MyTag::Composer => self.composer = Some(owned),
            MyTag::Comment => self.comment = Some(owned),
            MyTag::Copyright => self.copyright = Some(owned),
            MyTag::Lyrics => self.lyrics = Some(owned),
            MyTag::Date => self.date = Some(owned),
            _ => {},
        }
    }

    fn write_numeric_tag(&mut self, key: &MyTag, value: u32, padding: usize) {
        let s = decimal_to_padding_string(value, padding);
        match key {
            MyTag::Year => {
                self.year = Some(value);
                self.year_string = Some(s);
            },
            MyTag::TrackNumber => {
                self.track_number = Some(value);
                self.track_number_string = Some(s);
            },
            MyTag::TrackTotal => {
                self.track_total = Some(value);
                self.track_total_string = Some(s);
            },
            MyTag::DiscNumber => {
                self.disc_number = Some(value);
                self.disc_number_string = Some(s);
            },
            MyTag::DiscTotal => {
                self.disc_total = Some(value);
                self.disc_total_string = Some(s);
            },
            _ => {},
        }
    }

    fn clear_tag(&mut self, key: &MyTag) {
        match key {
            MyTag::Title => self.title = None,
            MyTag::Artist => self.artist = None,
            MyTag::AlbumTitle => self.album_title = None,
            MyTag::AlbumArtist => self.album_artist = None,
            MyTag::Genre => self.genre = None,
            MyTag::Composer => self.composer = None,
            MyTag::Comment => self.comment = None,
            MyTag::Copyright => self.copyright = None,
            MyTag::Lyrics => self.lyrics = None,
            MyTag::Date => self.date = None,
            MyTag::Year => {
                self.year = None;
                self.year_string = None;
            },
            MyTag::TrackNumber => {
                self.track_number = None;
                self.track_number_string = None;
            },
            MyTag::TrackTotal => {
                self.track_total = None;
                self.track_total_string = None;
            },
            MyTag::DiscNumber => {
                self.disc_number = None;
                self.disc_number_string = None;
            },
            MyTag::DiscTotal => {
                self.disc_total = None;
                self.disc_total_string = None;
            },
        }
    }
}

impl ReadWriteTag for TagRecord {

}

} // verus!
