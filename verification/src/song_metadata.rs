//! The earlier snapshot row: a record with numeric year and disc fields,
//! rendered as one quoted, `;`-separated line without a track column.

use vstd::prelude::*;
use vstd::string::StringExecFns;

use crate::details::{opt_or, opt_view, quote_sep};
use crate::strings::{dec_str_i, dec_str_u, i32_to_string, u32_to_string};

verus! {

/// One row of the earlier snapshot format.
#[derive(Debug)]
pub struct IndexDetails {
    pub path: String,
    pub title: Option<String>,
    pub artist: Option<String>,
    pub album: Option<String>,
    pub album_artist: Option<String>,
    pub year: Option<i32>,
    pub genre: Option<String>,
    pub disc: Option<u32>,
}

/// The row [`IndexDetails::details`] renders: path, title, artist, album,
/// album artist, year, genre, disc, each quoted, joined by `;`, with `""`
/// for a missing text field and `0` for a missing year or disc.
pub open spec fn spec_index_details(d: IndexDetails) -> Seq<char> {
    seq!['"'] + d.path@ + quote_sep() + opt_or(opt_view(d.title), Seq::empty()) + quote_sep()
        + opt_or(opt_view(d.artist), Seq::empty()) + quote_sep() + opt_or(
        opt_view(d.album),
        Seq::empty(),
    ) + quote_sep() + opt_or(opt_view(d.album_artist), Seq::empty()) + quote_sep() + dec_str_i(
        match d.year {
            Some(y) => y as int,
            None => 0,
        },
    ) + quote_sep() + opt_or(opt_view(d.genre), Seq::empty()) + quote_sep() + dec_str_u(
        match d.disc {
            Some(v) => v as nat,
            None => 0,
        },
    ) + seq!['"']
}

/// The characters of the header row written by [`IndexDetails::headers`].
pub open spec fn spec_index_headers() -> Seq<char> {
    r#""path";"title";"artist";"album";"album_artist";"year";"genre";"disc""#@
}

fn opt_field<'a>(o: &'a Option<String>) -> (r: &'a str)
    ensures
        r@ == opt_or(opt_view(*o), Seq::empty()),
{
    proof {
        reveal_strlit("");
    }
    match o {
        Some(s) => s.as_str(),
        None => "",
    }
}

impl IndexDetails {
    /// The header row matching [`IndexDetails::details`].
    pub fn headers() -> (r: String)
        ensures
            r@ == spec_index_headers(),
    {
        String::from_str(
            r#""path";"title";"artist";"album";"album_artist";"year";"genre";"disc""#,
        )
    }

    pub fn title(&self) -> (r: Option<&str>)
        ensures
            match r {
                Some(s) => opt_view(self.title) == Some(s@),
                None => opt_view(self.title) is None,
            },
    {
        match &self.title {
            Some(s) => Some(s.as_str()),
            None => None,
        }
    }

    pub fn artist(&self) -> (r: Option<&str>)
        ensures
            match r {
                Some(s) => opt_view(self.artist) == Some(s@),
                None => opt_view(self.artist) is None,
            },
    {
        match &self.artist {
            Some(s) => Some(s.as_str()),
            None => None,
        }
    }

    pub fn album(&self) -> (r: Option<&str>)
        ensures
            match r {
                Some(s) => opt_view(self.album) == Some(s@),
                None => opt_view(self.album) is None,
            },
    {
        match &self.album {
            Some(s) => Some(s.as_str()),
            None => None,
        }
    }

    pub fn album_artist(&self) -> (r: Option<&str>)
        ensures
            match r {
                Some(s) => opt_view(self.album_artist) == Some(s@),
                None => opt_view(self.album_artist) is None,
            },
    {
        match &self.album_artist {
            Some(s) => Some(s.as_str()),
            None => None,
        }
    }

    pub fn year(&self) -> (r: Option<i32>)
        ensures
            r == self.year,
    {
        self.year
    }

    pub fn genre(&self) -> (r: Option<&str>)
        ensures
            match r {
                Some(s) => opt_view(self.genre) == Some(s@),
                None => opt_view(self.genre) is None,
            },
    {
        match &self.genre {
            Some(s) => Some(s.as_str()),
            None => None,
        }
    }

    pub fn disc(&self) -> (r: Option<u32>)
        ensures
            r == self.disc,
    {
        self.disc
    }

    /// Renders this row as [`spec_index_details`] describes.
    #[verifier::rlimit(50)]
    pub fn details(&self) -> (r: String)
        ensures
            r@ == spec_index_details(*self),
    {
        proof {
            reveal_strlit("\"");
            reveal_strlit("\";\"");
            assert("\";\""@ =~= quote_sep());
            assert("\""@ =~= seq!['"']);
        }
        let year = match self.year {
            Some(y) => y,
            None => 0,
        };
        let disc: u32 = match self.disc {
            Some(v) => v,
            None => 0,
        };
        let mut s = String::from_str("\"");
        s.append(self.path.as_str());
        s.append("\";\"");
        s.append(opt_field(&self.title));
        s.append("\";\"");
        s.append(opt_field(&self.artist));
        s.append("\";\"");
        s.append(opt_field(&self.album));
        s.append("\";\"");
        s.append(opt_field(&self.album_artist));
        s.append("\";\"");
        let ystr = i32_to_string(year);
        s.append(ystr.as_str());
        s.append("\";\"");
        s.append(opt_field(&self.genre));
        s.append("\";\"");
        let dstr = u32_to_string(disc);
        s.append(dstr.as_str());
        s.append("\"");
        proof {
            assert(s@ == spec_index_details(*self));
        }
        s
    }
}

} // verus!
