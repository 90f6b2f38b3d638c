//! The track record: the metadata of one audio file, keyed by `path`.

use vstd::prelude::*;
use vstd::string::StringExecFns;

verus! {

/// A track record. `path` identifies the track; every other field is the
/// optional text of one metadata tag.
#[derive(Debug)]
pub struct TagDetails {
    pub path: String,
    pub title: Option<String>,
    pub artist: Option<String>,
    pub album: Option<String>,
    pub album_artist: Option<String>,
    pub year: Option<String>,
    pub genre: Option<String>,
    pub disc: Option<String>,
    pub track: Option<String>,
}

/// The mathematical content of a record: each field as a character sequence.
pub struct TagView {
    pub path: Seq<char>,
    pub title: Option<Seq<char>>,
    pub artist: Option<Seq<char>>,
    pub album: Option<Seq<char>>,
    pub album_artist: Option<Seq<char>>,
    pub year: Option<Seq<char>>,
    pub genre: Option<Seq<char>>,
    pub disc: Option<Seq<char>>,
    pub track: Option<Seq<char>>,
}

pub open spec fn opt_view(o: Option<String>) -> Option<Seq<char>> {
    match o {
        Some(s) => Some(s@),
        None => None,
    }
}

impl View for TagDetails {
    type V = TagView;

    open spec fn view(&self) -> TagView {
        TagView {
            path: self.path@,
            title: opt_view(self.title),
            artist: opt_view(self.artist),
            album: opt_view(self.album),
            album_artist: opt_view(self.album_artist),
            year: opt_view(self.year),
            genre: opt_view(self.genre),
            disc: opt_view(self.disc),
            track: opt_view(self.track),
        }
    }
}

fn clone_opt(o: &Option<String>) -> (r: Option<String>)
    ensures
        r == *o,
{
    match o {
        Some(s) => Some(s.clone()),
        None => None,
    }
}

impl Clone for TagDetails {
    fn clone(&self) -> (r: Self)
        ensures
            r == *self,
    {
        TagDetails {
            path: self.path.clone(),
            title: clone_opt(&self.title),
            artist: clone_opt(&self.artist),
            album: clone_opt(&self.album),
            album_artist: clone_opt(&self.album_artist),
            year: clone_opt(&self.year),
            genre: clone_opt(&self.genre),
            disc: clone_opt(&self.disc),
            track: clone_opt(&self.track),
        }
    }
}

fn eq_opt(a: &Option<String>, b: &Option<String>) -> (r: bool)
    ensures
        r == (opt_view(*a) == opt_view(*b)),
{
    match (a, b) {
        (Some(x), Some(y)) => *x == *y,
        (None, None) => true,
        _ => false,
    }
}

impl PartialEq for TagDetails {
    /// Structural equality: every field must agree, character for character.
    fn eq(&self, other: &Self) -> (r: bool) {
        self.path == other.path && eq_opt(&self.title, &other.title) && eq_opt(
            &self.artist,
            &other.artist,
        ) && eq_opt(&self.album, &other.album) && eq_opt(&self.album_artist, &other.album_artist)
            && eq_opt(&self.year, &other.year) && eq_opt(&self.genre, &other.genre) && eq_opt(
            &self.disc,
            &other.disc,
        ) && eq_opt(&self.track, &other.track)
    }
}

impl vstd::std_specs::cmp::PartialEqSpecImpl for TagDetails {
    open spec fn obeys_eq_spec() -> bool {
        true
    }

    open spec fn eq_spec(&self, other: &Self) -> bool {
        self@ == other@
    }
}

impl Default for TagDetails {
    /// The empty record: an empty path and no tags.
    fn default() -> (r: Self)
        ensures
            r@.path == Seq::<char>::empty(),
            r@.title is None,
            r@.artist is None,
            r@.album is None,
            r@.album_artist is None,
            r@.year is None,
            r@.genre is None,
            r@.disc is None,
            r@.track is None,
    {
        TagDetails {
            path: String::new(),
            title: None,
            artist: None,
            album: None,
            album_artist: None,
            year: None,
            genre: None,
            disc: None,
            track: None,
        }
    }
}

/// Some record in `s` equals `t`, field for field.
pub open spec fn contains_record(s: Seq<TagDetails>, t: TagDetails) -> bool {
    exists|i: int| 0 <= i < s.len() && s[i]@ == t@
}

/// The separator written between two quoted fields: `";"`.
pub open spec fn quote_sep() -> Seq<char> {
    seq!['"', ';', '"']
}

pub open spec fn opt_or(o: Option<Seq<char>>, d: Seq<char>) -> Seq<char> {
    match o {
        Some(s) => s,
        None => d,
    }
}

/// One record as a quoted, `;`-separated row:
/// path, track, title, artist, album, album artist, year, genre, disc,
/// with `"0"` standing in for a missing track, year or disc and `""` for
/// the other missing fields.
pub open spec fn details_row(v: TagView) -> Seq<char> {
    seq!['"'] + v.path + quote_sep() + opt_or(v.track, seq!['0']) + quote_sep() + opt_or(
        v.title,
        Seq::empty(),
    ) + quote_sep() + opt_or(v.artist, Seq::empty()) + quote_sep() + opt_or(v.album, Seq::empty())
        + quote_sep() + opt_or(v.album_artist, Seq::empty()) + quote_sep() + opt_or(
        v.year,
        seq!['0'],
    ) + quote_sep() + opt_or(v.genre, Seq::empty()) + quote_sep() + opt_or(v.disc, seq!['0'])
        + seq!['"']
}

fn opt_field<'a>(o: &'a Option<String>, d: &'a str) -> (r: &'a str)
    ensures
        r@ == opt_or(opt_view(*o), d@),
{
    match o {
        Some(s) => s.as_str(),
        None => d,
    }
}

impl TagDetails {
    /// The header row matching [`TagDetails::details`], as one quoted,
    /// `;`-separated line.
    pub fn headers() -> (r: String)
        ensures
            r@ == spec_headers(),
    {
        let r = String::from_str(
            r#""path";"track";"title";"artist";"album";"album_artist";"year";"genre";"disc""#,
        );
        r
    }

    /// Renders this record as the row described by [`details_row`].
    #[verifier::rlimit(50)]
    pub fn details(&self) -> (r: String)
        ensures
            r@ == details_row(self@),
    {
        proof {
            reveal_strlit("\"");
            reveal_strlit("\";\"");
            reveal_strlit("0");
            reveal_strlit("");
            assert("\";\""@ =~= quote_sep());
            assert("\""@ =~= seq!['"']);
            assert("0"@ =~= seq!['0']);
            assert(""@ =~= Seq::<char>::empty());
        }
        let mut s = String::from_str("\"");
        s.append(self.path.as_str());
        s.append("\";\"");
        s.append(opt_field(&self.track, "0"));
        s.append("\";\"");
        s.append(opt_field(&self.title, ""));
        s.append("\";\"");
        s.append(opt_field(&self.artist, ""));
        s.append("\";\"");
        s.append(opt_field(&self.album, ""));
        s.append("\";\"");
        s.append(opt_field(&self.album_artist, ""));
        s.append("\";\"");
        s.append(opt_field(&self.year, "0"));
        s.append("\";\"");
        s.append(opt_field(&self.genre, ""));
        s.append("\";\"");
        s.append(opt_field(&self.disc, "0"));
        s.append("\"");
        proof {
            assert(s@ == details_row(self@));
        }
        s
    }
}

/// The characters of the header row written by [`TagDetails::headers`].
pub open spec fn spec_headers() -> Seq<char> {
    r#""path";"track";"title";"artist";"album";"album_artist";"year";"genre";"disc""#@
}

} // verus!
