//! Named playlists: an ordered list of track paths used as a membership
//! predicate during evaluation.

use vstd::prelude::*;
use vstd::string::StrSliceExecFns;

use crate::details::TagDetails;
use crate::strings::str_eq;

verus! {

/// A named playlist: the paths of its member tracks.
pub struct Playlist {
    pub name: String,
    pub songs: Vec<String>,
}

/// `path` is one of the strings in `songs`.
pub open spec fn contains_str(songs: Seq<String>, path: Seq<char>) -> bool {
    exists|i: int| 0 <= i < songs.len() && songs[i]@ == path
}

/// The membership predicate of a playlist with member paths `songs`.
pub open spec fn member_fn(songs: Seq<String>) -> spec_fn(TagDetails) -> bool {
    |t: TagDetails| contains_str(songs, t@.path)
}

/// Membership test behind [`Playlist::filter`].
pub fn contains_path(songs: &Vec<String>, path: &str) -> (r: bool)
    ensures
        r == contains_str(songs@, path@),
{
    let n = songs.len();
    let mut i: usize = 0;
    while i < n
        invariant
            n == songs@.len(),
            0 <= i <= n,
            forall|k: int| 0 <= k < i ==> songs@[k]@ != path@,
        decreases n - i,
    {
        if str_eq(songs[i].as_str(), path) {
            return true;
        }
        i += 1;
    }
    false
}

impl Playlist {
    /// Keeps exactly the records whose `path` is a member of this playlist,
    /// in their original order.
    pub fn filter(&self, vec: &[TagDetails]) -> (r: Vec<TagDetails>)
        ensures
            r@ == vec@.filter(member_fn(self.songs@)),
    {
        let ghost pred = member_fn(self.songs@);
        let n = vec.len();
        let mut out: Vec<TagDetails> = Vec::new();
        let mut i: usize = 0;
        while i < n
            invariant
                n == vec@.len(),
                0 <= i <= n,
                out@ == vec@.subrange(0, i as int).filter(pred),
                pred == member_fn(self.songs@),
            decreases n - i,
        {
            proof {
                let prev = vec@.subrange(0, i as int);
                assert(vec@.subrange(0, i + 1 as int) =~= prev.push(vec@[i as int]));
                prev.lemma_filter_push(vec@[i as int], pred);
            }
            if contains_path(&self.songs, vec[i].path.as_str()) {
                out.push(vec[i].clone());
            }
            i += 1;
        }
        proof {
            assert(vec@.subrange(0, n as int) =~= vec@);
        }
        out
    }
}

} // verus!
