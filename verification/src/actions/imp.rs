//! Importing tag values: applying one imported record's values to a tag
//! record. Reading and decoding the source file stay outside the library.

use vstd::prelude::*;

use crate::model::{MyTag, DEFAULT_PADDING};
use crate::record::ReadWriteTag;

verus! {

/// The tag values one imported record carries; an absent field leaves the
/// corresponding tag alone. The date field is carried for completeness but
/// never written.
#[derive(Debug)]
pub struct ImportTags {
    pub title: Option<String>,
    pub artist: Option<String>,
    pub album_title: Option<String>,
    pub album_artist: Option<String>,
    pub genre: Option<String>,
    pub composer: Option<String>,
    pub year: Option<u32>,
    pub track_number: Option<u32>,
    pub track_total: Option<u32>,
    pub disc_number: Option<u32>,
    pub disc_total: Option<u32>,
    pub date: Option<String>,
    pub comment: Option<String>,
    pub copyright: Option<String>,
    pub lyrics: Option<String>,
}

/// Imports records into tag files.
pub struct ImpAction {
    pub dry_run: bool,
    pub base_directory: Option<String>,
}

impl ImpAction {
    pub fn new(base_directory: &Option<String>, dry_run: bool) -> (r: ImpAction)
        ensures
            r.dry_run == dry_run,
            match (base_directory, r.base_directory) {
                (None, None) => true,
                (Some(a), Some(b)) => a@ == b@,
                _ => false,
            },
    {
        ImpAction {
            dry_run,
            base_directory: match base_directory {
                Some(s) => Some(s.clone()),
                None => None,
            },
        }
    }
}

/// The text value an import stores for one tag, if it carries one.
pub open spec fn spec_import_text(tags: ImportTags, tag: MyTag) -> Option<Seq<char>> {
    match tag {
        MyTag::Title => crate::record::spec_opt_view(tags.title),
        MyTag::Artist => crate::record::spec_opt_view(tags.artist),
        MyTag::AlbumTitle => crate::record::spec_opt_view(tags.album_title),
        MyTag::AlbumArtist => crate::record::spec_opt_view(tags.album_artist),
        MyTag::Genre => crate::record::spec_opt_view(tags.genre),
        MyTag::Composer => crate::record::spec_opt_view(tags.composer),
        MyTag::Comment => crate::record::spec_opt_view(tags.comment),
        MyTag::Copyright => crate::record::spec_opt_view(tags.copyright),
        MyTag::Lyrics => crate::record::spec_opt_view(tags.lyrics),
        _ => None,
    }
}

/// The numeric value an import stores for one tag, if it carries one.
pub open spec fn spec_import_numeric(tags: ImportTags, tag: MyTag) -> Option<u32> {
    match tag {
        MyTag::Year => tags.year,
        MyTag::TrackNumber => tags.track_number,
        MyTag::TrackTotal => tags.track_total,
        MyTag::DiscNumber => tags.disc_number,
        MyTag::DiscTotal => tags.disc_total,
        _ => None,
    }
}

/// A carried text value replaces the current one; an absent field keeps it.
pub open spec fn spec_applied_text(carried: Option<String>, current: Option<Seq<char>>) -> Option<
    Seq<char>,
> {
    match carried {
        Some(s) => Some(s@),
        None => current,
    }
}

/// A carried number replaces the current one; an absent field keeps it.
pub open spec fn spec_applied_numeric(carried: Option<u32>, current: Option<u32>) -> Option<u32> {
    match carried {
        Some(v) => Some(v),
        None => current,
    }
}

/// Writes every value the imported record carries into the tag record.
/// Returns whether anything was written; carried text goes to its text
/// tag, carried numbers to their numeric tags, everything else is left
/// unchanged.
pub fn write_tag<T: ReadWriteTag>(my_file: &ImportTags, t: &mut T) -> (r: bool)
    ensures
        final(t).spec_text_tag(MyTag::Title) == spec_applied_text(
            my_file.title,
            old(t).spec_text_tag(MyTag::Title),
        ),
        final(t).spec_text_tag(MyTag::Artist) == spec_applied_text(
            my_file.artist,
            old(t).spec_text_tag(MyTag::Artist),
        ),
        final(t).spec_text_tag(MyTag::AlbumTitle) == spec_applied_text(
            my_file.album_title,
            old(t).spec_text_tag(MyTag::AlbumTitle),
        ),
        final(t).spec_text_tag(MyTag::AlbumArtist) == spec_applied_text(
            my_file.album_artist,
            old(t).spec_text_tag(MyTag::AlbumArtist),
        ),
        final(t).spec_text_tag(MyTag::Genre) == spec_applied_text(
            my_file.genre,
            old(t).spec_text_tag(MyTag::Genre),
        ),
        final(t).spec_text_tag(MyTag::Composer) == spec_applied_text(
            my_file.composer,
            old(t).spec_text_tag(MyTag::Composer),
        ),
        final(t).spec_text_tag(MyTag::Comment) == spec_applied_text(
            my_file.comment,
            old(t).spec_text_tag(MyTag::Comment),
        ),
        final(t).spec_text_tag(MyTag::Copyright) == spec_applied_text(
            my_file.copyright,
            old(t).spec_text_tag(MyTag::Copyright),
        ),
        final(t).spec_text_tag(MyTag::Lyrics) == spec_applied_text(
            my_file.lyrics,
            old(t).spec_text_tag(MyTag::Lyrics),
        ),
        final(t).spec_text_tag(MyTag::Date) == old(t).spec_text_tag(MyTag::Date),
        final(t).spec_numeric_tag(MyTag::Year) == spec_applied_numeric(
            my_file.year,
            old(t).spec_numeric_tag(MyTag::Year),
        ),
        final(t).spec_numeric_tag(MyTag::TrackNumber) == spec_applied_numeric(
            my_file.track_number,
            old(t).spec_numeric_tag(MyTag::TrackNumber),
        ),
        final(t).spec_numeric_tag(MyTag::TrackTotal) == spec_applied_numeric(
            my_file.track_total,
            old(t).spec_numeric_tag(MyTag::TrackTotal),
        ),
        final(t).spec_numeric_tag(MyTag::DiscNumber) == spec_applied_numeric(
            my_file.disc_number,
            old(t).spec_numeric_tag(MyTag::DiscNumber),
        ),
        final(t).spec_numeric_tag(MyTag::DiscTotal) == spec_applied_numeric(
            my_file.disc_total,
            old(t).spec_numeric_tag(MyTag::DiscTotal),
        ),
        r == (my_file.title is Some || my_file.artist is Some || my_file.album_title is Some
            || my_file.album_artist is Some || my_file.genre is Some || my_file.composer is Some
            || my_file.year is Some || my_file.track_number is Some || my_file.track_total is Some
            || my_file.disc_number is Some || my_file.disc_total is Some
            || my_file.comment is Some || my_file.copyright is Some || my_file.lyrics is Some),
{
    let text_changed = write_text_imports(my_file, t);
    let num_changed = write_numeric_imports(my_file, t);
    text_changed || num_changed
}

fn write_text_imports<T: ReadWriteTag>(my_file: &ImportTags, t: &mut T) -> (r: bool)
    ensures
        final(t).spec_text_tag(MyTag::Title) == spec_applied_text(
            my_file.title,
            old(t).spec_text_tag(MyTag::Title),
        ),
        final(t).spec_text_tag(MyTag::Artist) == spec_applied_text(
            my_file.artist,
            old(t).spec_text_tag(MyTag::Artist),
        ),
        final(t).spec_text_tag(MyTag::AlbumTitle) == spec_applied_text(
            my_file.album_title,
            old(t).spec_text_tag(MyTag::AlbumTitle),
        ),
        final(t).spec_text_tag(MyTag::AlbumArtist) == spec_applied_text(
            my_file.album_artist,
            old(t).spec_text_tag(MyTag::AlbumArtist),
        ),
        final(t).spec_text_tag(MyTag::Genre) == spec_applied_text(
            my_file.genre,
            old(t).spec_text_tag(MyTag::Genre),
        ),
        final(t).spec_text_tag(MyTag::Composer) == spec_applied_text(
            my_file.composer,
            old(t).spec_text_tag(MyTag::Composer),
        ),
        final(t).spec_text_tag(MyTag::Comment) == spec_applied_text(
            my_file.comment,
            old(t).spec_text_tag(MyTag::Comment),
        ),
        final(t).spec_text_tag(MyTag::Copyright) == spec_applied_text(
            my_file.copyright,
            old(t).spec_text_tag(MyTag::Copyright),
        ),
        final(t).spec_text_tag(MyTag::Lyrics) == spec_applied_text(
            my_file.lyrics,
            old(t).spec_text_tag(MyTag::Lyrics),
        ),
        final(t).spec_text_tag(MyTag::Date) == old(t).spec_text_tag(MyTag::Date),
        forall|tag: MyTag| final(t).spec_numeric_tag(tag) == old(t).spec_numeric_tag(tag),
        forall|tag: MyTag|
            final(t).spec_numeric_tag_string(tag) == old(t).spec_numeric_tag_string(tag),
        r == (my_file.title is Some || my_file.artist is Some || my_file.album_title is Some
            || my_file.album_artist is Some || my_file.genre is Some || my_file.composer is Some
            || my_file.comment is Some || my_file.copyright is Some || my_file.lyrics is Some),
{
    let mut changed = false;
    if let Some(s) = &my_file.title {
        t.write_text_tag(&MyTag::Title, s.as_str());
        changed = true;
    }
    if let Some(s) = &my_file.artist {
        t.write_text_tag(&MyTag::Artist, s.as_str());
        changed = true;
    }
    if let Some(s) = &my_file.album_title {
        t.write_text_tag(&MyTag::AlbumTitle, s.as_str());
        changed = true;
    }
    if let Some(s) = &my_file.album_artist {
        t.write_text_tag(&MyTag::AlbumArtist, s.as_str());
        changed = true;
    }
    if let Some(s) = &my_file.genre {
        t.write_text_tag(&MyTag::Genre, s.as_str());
        changed = true;
    }
    if let Some(s) = &my_file.composer {
        t.write_text_tag(&MyTag::Composer, s.as_str());
        changed = true;
    }
    if let Some(s) = &my_file.comment {
        t.write_text_tag(&MyTag::Comment, s.as_str());
        changed = true;
    }
    if let Some(s) = &my_file.copyright {
        t.write_text_tag(&MyTag::Copyright, s.as_str());
        changed = true;
    }
    if let Some(s) = &my_file.lyrics {
        t.write_text_tag(&MyTag::Lyrics, s.as_str());
        changed = true;
    }
    changed
}

fn write_numeric_imports<T: ReadWriteTag>(my_file: &ImportTags, t: &mut T) -> (r: bool)
    ensures
        final(t).spec_numeric_tag(MyTag::Year) == spec_applied_numeric(
            my_file.year,
            old(t).spec_numeric_tag(MyTag::Year),
        ),
        final(t).spec_numeric_tag(MyTag::TrackNumber) == spec_applied_numeric(
            my_file.track_number,
            old(t).spec_numeric_tag(MyTag::TrackNumber),
        ),
        final(t).spec_numeric_tag(MyTag::TrackTotal) == spec_applied_numeric(
            my_file.track_total,
            old(t).spec_numeric_tag(MyTag::TrackTotal),
        ),
        final(t).spec_numeric_tag(MyTag::DiscNumber) == spec_applied_numeric(
            my_file.disc_number,
            old(t).spec_numeric_tag(MyTag::DiscNumber),
        ),
        final(t).spec_numeric_tag(MyTag::DiscTotal) == spec_applied_numeric(
            my_file.disc_total,
            old(t).spec_numeric_tag(MyTag::DiscTotal),
        ),
        forall|tag: MyTag| final(t).spec_text_tag(tag) == old(t).spec_text_tag(tag),
        r == (my_file.year is Some || my_file.track_number is Some
            || my_file.track_total is Some || my_file.disc_number is Some
            || my_file.disc_total is Some),
{
    let mut changed = false;
    if let Some(u) = my_file.year {
        t.write_numeric_tag(&MyTag::Year, u, DEFAULT_PADDING);
        changed = true;
    }
    if let Some(u) = my_file.track_number {
        t.write_numeric_tag(&MyTag::TrackNumber, u, DEFAULT_PADDING);
        changed = true;
    }
    if let Some(u) = my_file.track_total {
        t.write_numeric_tag(&MyTag::TrackTotal, u, DEFAULT_PADDING);
        changed = true;
    }
    if let Some(u) = my_file.disc_number {
        t.write_numeric_tag(&MyTag::DiscNumber, u, DEFAULT_PADDING);
        changed = true;
    }
    if let Some(u) = my_file.disc_total {
        t.write_numeric_tag(&MyTag::DiscTotal, u, DEFAULT_PADDING);
        changed = true;
    }
    changed
}

} // verus!
