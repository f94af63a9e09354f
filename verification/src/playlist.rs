//! Playlists of the user's library.

use vstd::prelude::*;
use crate::track::Track;

verus! {

/// Which of the library's two playlist collections a view shows.
#[derive(Clone, Copy, Debug, PartialEq, Eq, Structural)]
pub enum PlaylistType {
    Library,
    ForYou,
}

/// A playlist: its identity, its editable name and its tracks in order.
#[derive(Debug, PartialEq, Eq)]
pub struct Playlist {
    pub id: String,
    pub name: String,
    pub tracks: Vec<Track>,
}

/// Whether `k` is the first position of `list` whose playlist has the
/// identifier `id`.
pub open spec fn is_first_with_id(list: Seq<Playlist>, id: Seq<char>, k: int) -> bool {
    &&& 0 <= k < list.len()
    &&& list[k].id@ == id
    &&& forall|j: int| 0 <= j < k ==> (#[trigger] list[j]).id@ != id
}

/// Whether no playlist of `list` has the identifier `id`.
pub open spec fn none_with_id(list: Seq<Playlist>, id: Seq<char>) -> bool {
    forall|j: int| 0 <= j < list.len() ==> (#[trigger] list[j]).id@ != id
}

/// The list without the first playlist that has the identifier `id`; the list
/// itself where none has it.
pub open spec fn without_playlist(list: Seq<Playlist>, id: Seq<char>) -> Seq<Playlist> {
    if exists|k: int| is_first_with_id(list, id, k) {
        list.remove(choose|k: int| is_first_with_id(list, id, k))
    } else {
        list
    }
}

/// The first position of a playlist with the identifier `id`.
pub fn position_of(list: &Vec<Playlist>, id: &String) -> (r: Option<usize>)
    ensures
        match r {
            Some(k) => is_first_with_id(list@, id@, k as int),
            None => none_with_id(list@, id@),
        },
{
    let mut i: usize = 0;
    while i < list.len()
        invariant
            i <= list.len(),
            forall|j: int| 0 <= j < i ==> (#[trigger] list@[j]).id@ != id@,
        decreases list.len() - i,
    {
        if list[i].id == *id {
            return Some(i);
        }
        i += 1;
    }
    None
}

/// Removes the first playlist with the identifier `id`, if there is one.
pub fn remove_playlist(list: &mut Vec<Playlist>, id: &String)
    ensures
        final(list)@ == without_playlist(old(list)@, id@),
{
    match position_of(list, id) {
        Some(k) => {
            proof {
                let ghost c = choose|c: int| is_first_with_id(list@, id@, c);
                assert(is_first_with_id(list@, id@, k as int));
                assert(c == k) by {
                    if c < k {
                        assert(list@[c].id@ != id@);
                    } else if k < c {
                        assert(list@[k as int].id@ != id@);
                    }
                }
            }
            let _gone = list.remove(k);
        },
        None => {
            assert forall|k: int| !is_first_with_id(list@, id@, k) by {
                if 0 <= k < list@.len() {
                    assert(list@[k].id@ != id@);
                }
            }
        },
    }
}

} // verus!
