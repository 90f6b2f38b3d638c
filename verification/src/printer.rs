//! Rendering of query results: one bare path per line under `Play`, a
//! comma-separated table of full records under `Index`.

use vstd::prelude::*;
use vstd::string::StringExecFns;

use crate::ast::QueryType;
use crate::details::{opt_or, opt_view, TagDetails, TagView};

verus! {

/// Where the rendered result goes: a file (by path), or the terminal.
#[derive(Debug)]
pub enum Output {
    File(String),
    Terminal,
}

impl PartialEq for Output {
    fn eq(&self, other: &Self) -> (r: bool) {
        match (self, other) {
            (Output::File(a), Output::File(b)) => *a == *b,
            (Output::Terminal, Output::Terminal) => true,
            _ => false,
        }
    }
}

impl vstd::std_specs::cmp::PartialEqSpecImpl for Output {
    open spec fn obeys_eq_spec() -> bool {
        true
    }

    open spec fn eq_spec(&self, other: &Self) -> bool {
        match (self, other) {
            (Output::File(a), Output::File(b)) => a@ == b@,
            (Output::Terminal, Output::Terminal) => true,
            _ => false,
        }
    }
}

impl Default for Output {
    fn default() -> (r: Self)
        ensures
            r == Output::Terminal,
    {
        Output::Terminal
    }
}

/// A destination plus the output mode of the query being printed.
#[derive(Debug)]
pub struct Printer {
    pub output: Output,
    pub print_type: QueryType,
}

impl PartialEq for Printer {
    fn eq(&self, other: &Self) -> (r: bool) {
        self.output == other.output && self.print_type == other.print_type
    }
}

impl vstd::std_specs::cmp::PartialEqSpecImpl for Printer {
    open spec fn obeys_eq_spec() -> bool {
        true
    }

    open spec fn eq_spec(&self, other: &Self) -> bool {
        vstd::std_specs::cmp::PartialEqSpec::eq_spec(&self.output, &other.output)
            && self.print_type == other.print_type
    }
}

impl Default for Printer {
    fn default() -> (r: Self)
        ensures
            r == (Printer { output: Output::Terminal, print_type: QueryType::Play }),
    {
        Printer { output: Output::Terminal, print_type: QueryType::Play }
    }
}

/// The separator written between two quoted table fields: `","`.
pub open spec fn comma_sep() -> Seq<char> {
    seq!['"', ',', '"']
}

/// One record as a quoted, comma-separated table row: path, track, title,
/// artist, album, album artist, year, genre, disc, with `""` for every
/// missing field.
pub open spec fn index_row(v: TagView) -> Seq<char> {
    seq!['"'] + v.path + comma_sep() + opt_or(v.track, Seq::empty()) + comma_sep() + opt_or(
        v.title,
        Seq::empty(),
    ) + comma_sep() + opt_or(v.artist, Seq::empty()) + comma_sep() + opt_or(v.album, Seq::empty())
        + comma_sep() + opt_or(v.album_artist, Seq::empty()) + comma_sep() + opt_or(
        v.year,
        Seq::empty(),
    ) + comma_sep() + opt_or(v.genre, Seq::empty()) + comma_sep() + opt_or(v.disc, Seq::empty())
        + seq!['"']
}

/// The header row matching [`index_row`].
pub open spec fn index_header() -> Seq<char> {
    r#""path","track","title","artist","album","album_artist","year","genre","disc""#@
}

/// The line one record contributes: its bare path under `Play`, its table
/// row under `Index`.
pub open spec fn print_line(pt: QueryType, t: TagDetails) -> Seq<char> {
    match pt {
        QueryType::Play => t@.path,
        QueryType::Index => index_row(t@),
    }
}

/// A newline and a line for each record, in order.
pub open spec fn tail_lines(pt: QueryType, infos: Seq<TagDetails>) -> Seq<char>
    decreases infos.len(),
{
    if infos.len() == 0 {
        Seq::empty()
    } else {
        seq!['\n'] + print_line(pt, infos[0]) + tail_lines(pt, infos.drop_first())
    }
}

/// All records, one line each, joined by newlines.
pub open spec fn content_lines(pt: QueryType, infos: Seq<TagDetails>) -> Seq<char> {
    if infos.len() == 0 {
        Seq::empty()
    } else {
        print_line(pt, infos[0]) + tail_lines(pt, infos.skip(1))
    }
}

/// What [`Printer::format`] renders: the joined lines, preceded under
/// `Index` by the header row and a newline.
pub open spec fn spec_format(pt: QueryType, infos: Seq<TagDetails>) -> Seq<char> {
    match pt {
        QueryType::Play => content_lines(pt, infos),
        QueryType::Index => index_header() + seq!['\n'] + content_lines(pt, infos),
    }
}

fn opt_field<'a>(o: &'a Option<String>) -> (r: &'a str)
    ensures
        r@ == opt_or(opt_view(*o), Seq::empty()),
{
    proof {
        reveal_strlit("");
    }
    match o {
        Some(s) => s.as_str(),
        None => "",
    }
}

/// Renders one record as the row described by [`index_row`].
#[verifier::rlimit(50)]
fn format_row(t: &TagDetails) -> (r: String)
    ensures
        r@ == index_row(t@),
{
    proof {
        reveal_strlit("\"");
        reveal_strlit("\",\"");
        assert("\",\""@ =~= comma_sep());
        assert("\""@ =~= seq!['"']);
    }
    let mut s = String::from_str("\"");
    s.append(t.path.as_str());
    s.append("\",\"");
    s.append(opt_field(&t.track));
    s.append("\",\"");
    s.append(opt_field(&t.title));
    s.append("\",\"");
    s.append(opt_field(&t.artist));
    s.append("\",\"");
    s.append(opt_field(&t.album));
    s.append("\",\"");
    s.append(opt_field(&t.album_artist));
    s.append("\",\"");
    s.append(opt_field(&t.year));
    s.append("\",\"");
    s.append(opt_field(&t.genre));
    s.append("\",\"");
    s.append(opt_field(&t.disc));
    s.append("\"");
    proof {
        assert(s@ == index_row(t@));
    }
    s
}

impl Printer {
    /// Renders the records as [`spec_format`] describes: one line per
    /// record, with a header row first under `Index`.
    pub fn format(&self, info: &[TagDetails]) -> (r: String)
        ensures
            r@ == spec_format(self.print_type, info@),
    {
        let mut content = String::new();
        let n = info.len();
        if n > 0 {
            let first = match self.print_type {
                QueryType::Play => info[0].path.clone(),
                QueryType::Index => format_row(&info[0]),
            };
            content.append(first.as_str());
            let mut i: usize = 1;
            while i < n
                invariant
                    n == info@.len(),
                    1 <= i <= n,
                    content_lines(self.print_type, info@) == content@ + tail_lines(
                        self.print_type,
                        info@.skip(i as int),
                    ),
                decreases n - i,
            {
                proof {
                    let tail = info@.skip(i as int);
                    assert(tail[0] == info@[i as int]);
                    assert(tail.drop_first() =~= info@.skip(i + 1 as int));
                    reveal_strlit("\n");
                    assert("\n"@ =~= seq!['\n']);
                }
                content.append("\n");
                let line = match self.print_type {
                    QueryType::Play => info[i].path.clone(),
                    QueryType::Index => format_row(&info[i]),
                };
                content.append(line.as_str());
                i += 1;
            }
            proof {
                assert(tail_lines(self.print_type, info@.skip(n as int)) =~= Seq::<char>::empty());
                assert(content@ =~= content_lines(self.print_type, info@));
            }
        }
        match self.print_type {
            QueryType::Play => content,
            QueryType::Index => {
                let mut out = String::from_str(
                    r#""path","track","title","artist","album","album_artist","year","genre","disc""#,
                );
                proof {
                    reveal_strlit("\n");
                    assert("\n"@ =~= seq!['\n']);
                }
                out.append("\n");
                out.append(content.as_str());
                out
            },
        }
    }
}

} // verus!
