//! A verified query engine for building playlists from audio-track metadata.
//!
//! A query such as `Play(Album("Black") & !InPlaylist("done"))` is parsed
//! into an abstract syntax tree and evaluated against a collection of track
//! records and a table of named playlists, producing the matching tracks.
//! The collection may be divided into groups first, each group evaluated
//! independently (the work is pure per record, so workers may run it in
//! parallel) and the group results concatenated in group order.

pub mod ast;
pub mod checker;
pub mod details;
pub mod iter;
pub mod laws;
pub mod matcher;
pub mod operator;
pub mod parser;
pub mod playlist;
pub mod printer;
pub mod processor;
pub mod song_metadata;
pub mod strings;
pub mod tag_type;

use vstd::prelude::*;

use crate::details::TagDetails;
use crate::iter::{spec_divide, AlmostEqualDivision};
use crate::playlist::Playlist;
use crate::processor::{process, spec_process};

verus! {

/// The concatenation, in group order, of what the query yields over each
/// group; a group whose evaluation fails contributes nothing.
pub open spec fn spec_gather(
    groups: Seq<Seq<TagDetails>>,
    ps: Seq<Playlist>,
    q: Seq<char>,
) -> Seq<TagDetails>
    decreases groups.len(),
{
    if groups.len() == 0 {
        Seq::empty()
    } else {
        (match spec_process(groups[0], ps, q) {
            Some(v) => v,
            None => Seq::empty(),
        }) + spec_gather(groups.drop_first(), ps, q)
    }
}

/// What dividing `songs` into `num_cpus` groups and evaluating the query
/// over each group yields.
pub open spec fn spec_filter_songs(
    q: Seq<char>,
    ps: Seq<Playlist>,
    songs: Seq<TagDetails>,
    num_cpus: int,
) -> Seq<TagDetails> {
    spec_gather(spec_divide(songs, num_cpus), ps, q)
}

/// Divides `songs` into `num_cpus` groups, evaluates `query` over each
/// group against `playlists`, and concatenates the group results in
/// order. Groups whose evaluation fails — a query that does not parse, or
/// any failing clause — contribute nothing, so such a query yields an
/// empty list rather than an error.
pub fn filter_songs(
    query: String,
    playlists: Vec<Playlist>,
    songs: Vec<TagDetails>,
    num_cpus: usize,
) -> (r: Vec<TagDetails>)
    requires
        num_cpus >= 1,
    ensures
        r@ == spec_filter_songs(query@, playlists@, songs@, num_cpus as int),
{
    let ghost dgroups = spec_divide(songs@, num_cpus as int);
    let groups = songs.divide_collection_by(num_cpus);
    let n = groups.len();
    let mut out: Vec<TagDetails> = Vec::new();
    proof {
        assert(dgroups.skip(0) =~= dgroups);
    }
    let mut i: usize = 0;
    while i < n
        invariant
            n == groups@.len(),
            n == dgroups.len(),
            0 <= i <= n,
            forall|k: int| 0 <= k < n ==> #[trigger] groups@[k]@ == dgroups[k],
            spec_gather(dgroups, playlists@, query@) == out@ + spec_gather(
                dgroups.skip(i as int),
                playlists@,
                query@,
            ),
        decreases n - i,
    {
        proof {
            let tail = dgroups.skip(i as int);
            assert(tail[0] == dgroups[i as int]);
            assert(tail.drop_first() =~= dgroups.skip(i + 1 as int));
        }
        match process(groups[i].as_slice(), playlists.as_slice(), query.as_str()) {
            Some(mut v) => {
                out.append(&mut v);
            },
            None => {},
        }
        proof {
            assert(spec_gather(dgroups, playlists@, query@) == out@ + spec_gather(
                dgroups.skip(i + 1 as int),
                playlists@,
                query@,
            ));
        }
        i += 1;
    }
    proof {
        assert(dgroups.skip(n as int).len() == 0);
        assert(out@ + Seq::<TagDetails>::empty() =~= out@);
    }
    out
}

} // verus!
