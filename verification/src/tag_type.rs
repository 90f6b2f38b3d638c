//! Resolution of a (lower-cased) tag name and search mode to the record
//! field it reads, and the extraction of that field from a record.

use vstd::prelude::*;

use crate::checker::SearchType;
use crate::details::{TagDetails, TagView};
use crate::strings::str_eq;

verus! {

/// The record attribute a tag match reads. The `before`/`after` pseudo-tags
/// resolve to `Date` as well; they differ only in the matcher they build.
#[derive(Debug, PartialEq, Eq, Structural, Clone, Copy)]
pub enum TagType {
    Path,
    Title,
    Artist,
    Album,
    AlbumArtist,
    Date,
    Genre,
    Disc,
    Track,
}

/// The name, already lower-cased, asks for a date bound rather than a
/// plain date value.
pub open spec fn is_date_bound_name(tag: Seq<char>) -> bool {
    tag == "beforedate"@ || tag == "afterdate"@ || tag == "beforeyear"@ || tag == "afteryear"@
}

/// What a (lower-cased) tag name resolves to under a search mode: a
/// date-bound pseudo-name is accepted only under a literal search, an
/// unknown name never resolves.
pub open spec fn spec_tag_type(tag: Seq<char>, search: SearchType) -> Option<TagType> {
    if tag == "path"@ {
        Some(TagType::Path)
    } else if tag == "title"@ {
        Some(TagType::Title)
    } else if tag == "artist"@ {
        Some(TagType::Artist)
    } else if tag == "album"@ {
        Some(TagType::Album)
    } else if tag == "albumartist"@ {
        Some(TagType::AlbumArtist)
    } else if tag == "date"@ || tag == "year"@ {
        Some(TagType::Date)
    } else if is_date_bound_name(tag) {
        if search is Literal {
            Some(TagType::Date)
        } else {
            None
        }
    } else if tag == "genre"@ {
        Some(TagType::Genre)
    } else if tag == "discnumber"@ || tag == "disc"@ {
        Some(TagType::Disc)
    } else if tag == "track"@ || tag == "tracknumber"@ {
        Some(TagType::Track)
    } else {
        None
    }
}

/// The field of `v` that `t` reads; `Path` always finds a value, every
/// other attribute is optional.
pub open spec fn spec_collect(t: TagType, v: TagView) -> Option<Seq<char>> {
    match t {
        TagType::Path => Some(v.path),
        TagType::Title => v.title,
        TagType::Artist => v.artist,
        TagType::Album => v.album,
        TagType::AlbumArtist => v.album_artist,
        TagType::Date => v.year,
        TagType::Genre => v.genre,
        TagType::Disc => v.disc,
        TagType::Track => v.track,
    }
}

fn as_deref<'a>(o: &'a Option<String>) -> (r: Option<&'a str>)
    ensures
        match r {
            Some(s) => crate::details::opt_view(*o) == Some(s@),
            None => crate::details::opt_view(*o) is None,
        },
{
    match o {
        Some(s) => Some(s.as_str()),
        None => None,
    }
}

impl TagType {
    /// Resolves a lower-cased tag name under a search mode, exactly as
    /// [`spec_tag_type`] describes.
    pub fn try_from(tag: &str, search: &SearchType) -> (r: Option<Self>)
        ensures
            r == spec_tag_type(tag@, *search),
    {
        if str_eq(tag, "path") {
            Some(TagType::Path)
        } else if str_eq(tag, "title") {
            Some(TagType::Title)
        } else if str_eq(tag, "artist") {
            Some(TagType::Artist)
        } else if str_eq(tag, "album") {
            Some(TagType::Album)
        } else if str_eq(tag, "albumartist") {
            Some(TagType::AlbumArtist)
        } else if str_eq(tag, "date") || str_eq(tag, "year") {
            Some(TagType::Date)
        } else if str_eq(tag, "beforedate") || str_eq(tag, "afterdate") || str_eq(
            tag,
            "beforeyear",
        ) || str_eq(tag, "afteryear") {
            match search {
                SearchType::Literal => Some(TagType::Date),
                _ => None,
            }
        } else if str_eq(tag, "genre") {
            Some(TagType::Genre)
        } else if str_eq(tag, "discnumber") || str_eq(tag, "disc") {
            Some(TagType::Disc)
        } else if str_eq(tag, "track") || str_eq(tag, "tracknumber") {
            Some(TagType::Track)
        } else {
            None
        }
    }

    /// Reads the field this attribute names off a record, exactly as
    /// [`spec_collect`] describes.
    pub fn collect<'a>(&self, tag: &'a TagDetails) -> (r: Option<&'a str>)
        ensures
            match r {
                Some(s) => spec_collect(*self, tag@) == Some(s@),
                None => spec_collect(*self, tag@) is None,
            },
    {
        match self {
            TagType::Path => Some(tag.path.as_str()),
            TagType::Title => as_deref(&tag.title),
            TagType::Artist => as_deref(&tag.artist),
            TagType::Album => as_deref(&tag.album),
            TagType::AlbumArtist => as_deref(&tag.album_artist),
            TagType::Date => as_deref(&tag.year),
            TagType::Genre => as_deref(&tag.genre),
            TagType::Disc => as_deref(&tag.disc),
            TagType::Track => as_deref(&tag.track),
        }
    }
}

} // verus!
