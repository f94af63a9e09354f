//! The local cache of the user's library: saved tracks and playlists. Changes
//! are applied to the cache at once; the matching remote write is noted in an
//! outbox for whoever talks to the service.

use vstd::prelude::*;
use crate::playable::Playable;
use crate::playlist::{remove_playlist, without_playlist, Playlist};
use crate::text::{opt_text, same_text};
use crate::track::{Track, TrackView};

verus! {

/// The presentation switches that list rows consult.
#[derive(Clone, Copy, Debug, PartialEq, Eq)]
pub struct Config {
    pub album_column: Option<bool>,
    pub use_nerdfont: Option<bool>,
}

/// The kinds of remote write.
#[derive(Clone, Copy, Debug, PartialEq, Eq, Structural)]
pub enum WriteKind {
    SaveTracks,
    UnsaveTracks,
    DeletePlaylist,
}

/// A write that the remote service is still owed: its kind and the
/// identifiers it concerns.
#[derive(Debug, PartialEq, Eq)]
pub struct RemoteWrite {
    pub kind: WriteKind,
    pub ids: Vec<String>,
}

/// A remote write as a mathematical value.
pub struct RemoteWriteView {
    pub kind: WriteKind,
    pub ids: Seq<String>,
}

impl View for RemoteWrite {
    type V = RemoteWriteView;

    open spec fn view(&self) -> RemoteWriteView {
        RemoteWriteView { kind: self.kind, ids: self.ids@ }
    }
}

/// The views of a run of tracks, in order.
pub open spec fn track_views(tracks: Seq<Track>) -> Seq<TrackView> {
    tracks.map_values(|t: Track| t@)
}

/// Whether some track of `store` has the identifier `id`. Tracks without an
/// identifier count as sharing the absent one.
pub open spec fn has_id(store: Seq<TrackView>, id: Option<Seq<char>>) -> bool {
    exists|i: int| 0 <= i < store.len() && opt_text((#[trigger] store[i]).id) == id
}

/// Those of `items` that `store` lacks, each identifier once, in order.
pub open spec fn fresh(store: Seq<TrackView>, items: Seq<TrackView>) -> Seq<TrackView>
    decreases items.len(),
{
    if items.len() == 0 {
        Seq::empty()
    } else {
        let head = fresh(store, items.drop_last());
        let id = opt_text(items.last().id);
        if has_id(store, id) || has_id(head, id) {
            head
        } else {
            head.push(items.last())
        }
    }
}

/// Those of `store` whose identifier none of `items` has, in order.
pub open spec fn without_ids(store: Seq<TrackView>, items: Seq<TrackView>) -> Seq<TrackView>
    decreases store.len(),
{
    if store.len() == 0 {
        Seq::empty()
    } else {
        let head = without_ids(store.drop_last(), items);
        if has_id(items, opt_text(store.last().id)) {
            head
        } else {
            head.push(store.last())
        }
    }
}

/// The identifiers of those of `items` that have one, in order.
pub open spec fn ids_of(items: Seq<TrackView>) -> Seq<String>
    decreases items.len(),
{
    if items.len() == 0 {
        Seq::empty()
    } else {
        let head = ids_of(items.drop_last());
        match items.last().id {
            Some(id) => head.push(id),
            None => head,
        }
    }
}

/// The library as a mathematical value.
pub struct LibraryView {
    pub tracks: Seq<TrackView>,
    pub playlists: Seq<Playlist>,
    pub foru: Seq<Playlist>,
    pub writes: Seq<RemoteWriteView>,
    pub refresh_due: bool,
    pub cfg: Config,
}

impl LibraryView {
    /// Whether a track with this identifier is among the saved ones.
    pub open spec fn is_saved(self, id: Option<String>) -> bool {
        has_id(self.tracks, opt_text(id))
    }

    /// The library after saving `items`: the new ones stand in front, the
    /// write is owed, and views are told to refresh if `notify` says so.
    pub open spec fn save_tracks(self, items: Seq<TrackView>, notify: bool) -> LibraryView {
        LibraryView {
            tracks: fresh(self.tracks, items) + self.tracks,
            writes: self.writes.push(
                RemoteWriteView { kind: WriteKind::SaveTracks, ids: ids_of(items) },
            ),
            refresh_due: self.refresh_due || notify,
            ..self
        }
    }

    /// The library after dropping every saved track that shares an
    /// identifier with one of `items`.
    pub open spec fn unsave_tracks(self, items: Seq<TrackView>, notify: bool) -> LibraryView {
        LibraryView {
            tracks: without_ids(self.tracks, items),
            writes: self.writes.push(
                RemoteWriteView { kind: WriteKind::UnsaveTracks, ids: ids_of(items) },
            ),
            refresh_due: self.refresh_due || notify,
            ..self
        }
    }

    /// The library after flipping whether `track` is saved.
    pub open spec fn toggle_saved(self, track: TrackView) -> LibraryView {
        if self.is_saved(track.id) {
            self.unsave_tracks(seq![track], true)
        } else {
            self.save_tracks(seq![track], true)
        }
    }

    /// The library after deleting the playlist with the identifier `id`.
    pub open spec fn delete_playlist(self, id: String) -> LibraryView {
        LibraryView {
            playlists: without_playlist(self.playlists, id@),
            writes: self.writes.push(
                RemoteWriteView { kind: WriteKind::DeletePlaylist, ids: seq![id] },
            ),
            ..self
        }
    }
}

/// The cache of the user's library.
#[derive(Debug, PartialEq, Eq)]
pub struct Library {
    /// The saved tracks, newest first.
    pub tracks: Vec<Track>,
    /// The playlists that the user owns.
    pub playlists: Vec<Playlist>,
    /// The playlists that the service curates for the user.
    pub foru: Vec<Playlist>,
    /// Remote writes that are owed, oldest first.
    pub outbox: Vec<RemoteWrite>,
    /// Views that show library state should redraw.
    pub refresh_due: bool,
    pub cfg: Config,
}

impl View for Library {
    type V = LibraryView;

    open spec fn view(&self) -> LibraryView {
        LibraryView {
            tracks: track_views(self.tracks@),
            playlists: self.playlists@,
            foru: self.foru@,
            writes: self.outbox@.map_values(|w: RemoteWrite| w@),
            refresh_due: self.refresh_due,
            cfg: self.cfg,
        }
    }
}

/// Whether some track of `store` has the identifier `id`.
pub fn contains_id(store: &Vec<Track>, id: &Option<String>) -> (r: bool)
    ensures
        r == has_id(track_views(store@), opt_text(*id)),
{
    let mut i: usize = 0;
    while i < store.len()
        invariant
            i <= store.len(),
            forall|j: int| 0 <= j < i ==> opt_text((#[trigger] track_views(store@)[j]).id) != opt_text(*id),
        decreases store.len() - i,
    {
        if same_text(&store[i].id, id) {
            assert(opt_text(track_views(store@)[i as int].id) == opt_text(*id));
            return true;
        }
        i += 1;
    }
    false
}

/// The identifiers of those of `items` that have one, in order.
pub fn track_ids(items: &Vec<Track>) -> (r: Vec<String>)
    ensures
        r@ == ids_of(track_views(items@)),
{
    let ghost all = track_views(items@);
    let mut out: Vec<String> = Vec::new();
    let mut i: usize = 0;
    while i < items.len()
        invariant
            i <= items.len(),
            all == track_views(items@),
            out@ == ids_of(all.take(i as int)),
        decreases items.len() - i,
    {
        proof {
            assert(all.take(i + 1).drop_last() =~= all.take(i as int));
        }
        match &items[i].id {
            Some(id) => {
                out.push(id.clone());
            },
            None => {},
        }
        i += 1;
    }
    assert(all.take(i as int) =~= all);
    out
}

impl Library {
    /// An empty cache with the given presentation switches.
    pub fn new(cfg: Config) -> (r: Library)
        ensures
            r@.tracks.len() == 0,
            r@.playlists.len() == 0,
            r@.foru.len() == 0,
            r@.writes.len() == 0,
            !r@.refresh_due,
            r@.cfg == cfg,
    {
        Library {
            tracks: Vec::new(),
            playlists: Vec::new(),
            foru: Vec::new(),
            outbox: Vec::new(),
            refresh_due: false,
            cfg,
        }
    }

    /// The playlists that the user owns.
    pub fn items(&self) -> (r: &Vec<Playlist>)
        ensures
            r@ == self@.playlists,
    {
        &self.playlists
    }

    /// Whether `playable` is among the saved tracks, by identifier.
    pub fn is_saved_track(&self, playable: &Playable) -> (r: bool)
        ensures
            r == self@.is_saved(playable@.id()),
    {
        let id = playable.id();
        contains_id(&self.tracks, &id)
    }

    /// Saves `items`: those not yet saved go to the front of the cache, and
    /// the remote write is noted.
    pub fn save_tracks(&mut self, items: &Vec<Track>, notify: bool)
        ensures
            final(self)@ == old(self)@.save_tracks(track_views(items@), notify),
    {
        let ghost store = track_views(self.tracks@);
        let ghost all = track_views(items@);
        let mut added: Vec<Track> = Vec::new();
        let mut i: usize = 0;
        while i < items.len()
            invariant
                i <= items.len(),
                *self == *old(self),
                store == track_views(self.tracks@),
                all == track_views(items@),
                track_views(added@) == fresh(store, all.take(i as int)),
            decreases items.len() - i,
        {
            proof {
                assert(all.take(i + 1).drop_last() =~= all.take(i as int));
                assert(all.take(i + 1).last() == items@[i as int]@);
            }
            let known = contains_id(&self.tracks, &items[i].id) || contains_id(
                &added,
                &items[i].id,
            );
            if !known {
                let ghost before = track_views(added@);
                added.push(items[i].clone());
                assert(track_views(added@) =~= before.push(items@[i as int]@));
            }
            i += 1;
        }
        assert(all.take(i as int) =~= all);
        let ghost front = track_views(added@);
        added.append(&mut self.tracks);
        assert(track_views(added@) =~= front + store);
        self.tracks = added;
        let ghost writes = self@.writes;
        self.outbox.push(RemoteWrite { kind: WriteKind::SaveTracks, ids: track_ids(items) });
        assert(self@.writes =~= writes.push(
            RemoteWriteView { kind: WriteKind::SaveTracks, ids: ids_of(all) },
        ));
        if notify {
            self.refresh_due = true;
        }
    }

    /// Drops from the cache every saved track that shares an identifier with
    /// one of `items`, and notes the remote write.
    pub fn unsave_tracks(&mut self, items: &Vec<Track>, notify: bool)
        ensures
            final(self)@ == old(self)@.unsave_tracks(track_views(items@), notify),
    {
        let ghost store = track_views(self.tracks@);
        let ghost all = track_views(items@);
        let mut kept: Vec<Track> = Vec::new();
        let mut i: usize = 0;
        while i < self.tracks.len()
            invariant
                i <= self.tracks.len(),
                *self == *old(self),
                store == track_views(self.tracks@),
                all == track_views(items@),
                track_views(kept@) == without_ids(store.take(i as int), all),
            decreases self.tracks.len() - i,
        {
            proof {
                assert(store.take(i + 1).drop_last() =~= store.take(i as int));
                assert(store.take(i + 1).last() == self.tracks@[i as int]@);
            }
            if !contains_id(items, &self.tracks[i].id) {
                let ghost before = track_views(kept@);
                kept.push(self.tracks[i].clone());
                assert(track_views(kept@) =~= before.push(self.tracks@[i as int]@));
            }
            i += 1;
        }
        assert(store.take(i as int) =~= store);
        self.tracks = kept;
        let ghost writes = self@.writes;
        self.outbox.push(RemoteWrite { kind: WriteKind::UnsaveTracks, ids: track_ids(items) });
        assert(self@.writes =~= writes.push(
            RemoteWriteView { kind: WriteKind::UnsaveTracks, ids: ids_of(all) },
        ));
        if notify {
            self.refresh_due = true;
        }
    }

    /// Removes the playlist with the identifier `id` from the owned playlists
    /// and notes the remote delete.
    pub fn delete_playlist(&mut self, id: &String)
        ensures
            final(self)@ == old(self)@.delete_playlist(*id),
    {
        remove_playlist(&mut self.playlists, id);
        let ghost writes = self@.writes;
        let mut ids: Vec<String> = Vec::new();
        ids.push(id.clone());
        assert(ids@ =~= seq![*id]);
        self.outbox.push(RemoteWrite { kind: WriteKind::DeletePlaylist, ids });
        assert(self@.writes =~= writes.push(
            RemoteWriteView { kind: WriteKind::DeletePlaylist, ids: seq![*id] },
        ));
    }

    /// Hands out the remote writes that are owed, oldest first, and empties
    /// the outbox.
    pub fn take_writes(&mut self) -> (r: Vec<RemoteWrite>)
        ensures
            r@.map_values(|w: RemoteWrite| w@) == old(self)@.writes,
            final(self)@ == (LibraryView { writes: Seq::empty(), ..old(self)@ }),
    {
        let mut out: Vec<RemoteWrite> = Vec::new();
        out.append(&mut self.outbox);
        assert(out@ =~= old(self).outbox@);
        assert(self@.writes =~= Seq::empty());
        out
    }
}

/// Adding a track at the end adds its identifier and no other.
pub proof fn lemma_has_id_push(store: Seq<TrackView>, t: TrackView, id: Option<Seq<char>>)
    ensures
        has_id(store.push(t), id) <==> (opt_text(t.id) == id || has_id(store, id)),
{
    let more = store.push(t);
    if has_id(more, id) {
        let i = choose|i: int| 0 <= i < more.len() && opt_text((#[trigger] more[i]).id) == id;
        if i < store.len() {
            assert(opt_text(store[i].id) == id);
        }
    }
    if has_id(store, id) {
        let i = choose|i: int| 0 <= i < store.len() && opt_text((#[trigger] store[i]).id) == id;
        assert(opt_text(more[i].id) == id);
    }
    if opt_text(t.id) == id {
        assert(opt_text(more[store.len() as int].id) == id);
    }
}

/// Two runs together hold the identifiers of both.
pub proof fn lemma_has_id_concat(a: Seq<TrackView>, b: Seq<TrackView>, id: Option<Seq<char>>)
    ensures
        has_id(a + b, id) <==> (has_id(a, id) || has_id(b, id)),
{
    let both = a + b;
    if has_id(both, id) {
        let i = choose|i: int| 0 <= i < both.len() && opt_text((#[trigger] both[i]).id) == id;
        if i < a.len() {
            assert(opt_text(a[i].id) == id);
        } else {
            assert(opt_text(b[i - a.len()].id) == id);
        }
    }
    if has_id(a, id) {
        let i = choose|i: int| 0 <= i < a.len() && opt_text((#[trigger] a[i]).id) == id;
        assert(opt_text(both[i].id) == id);
    }
    if has_id(b, id) {
        let i = choose|i: int| 0 <= i < b.len() && opt_text((#[trigger] b[i]).id) == id;
        assert(opt_text(both[a.len() + i].id) == id);
    }
}

/// The new entries of a save are the identifiers that the items bring and the
/// store lacks.
pub proof fn lemma_fresh_ids(store: Seq<TrackView>, items: Seq<TrackView>, id: Option<Seq<char>>)
    ensures
        has_id(fresh(store, items), id) <==> (!has_id(store, id) && has_id(items, id)),
    decreases items.len(),
{
    if items.len() > 0 {
        let head = items.drop_last();
        let t = items.last();
        assert(items =~= head.push(t));
        lemma_fresh_ids(store, head, id);
        lemma_has_id_push(head, t, id);
        lemma_has_id_push(fresh(store, head), t, id);
    }
}

/// What an unsave keeps are the identifiers of the store that none of the
/// items has.
pub proof fn lemma_without_ids(
    store: Seq<TrackView>,
    items: Seq<TrackView>,
    id: Option<Seq<char>>,
)
    ensures
        has_id(without_ids(store, items), id) <==> (has_id(store, id) && !has_id(items, id)),
    decreases store.len(),
{
    if store.len() > 0 {
        let head = store.drop_last();
        let t = store.last();
        assert(store =~= head.push(t));
        lemma_without_ids(head, items, id);
        lemma_has_id_push(head, t, id);
        lemma_has_id_push(without_ids(head, items), t, id);
    }
}

/// After a save, a track is saved exactly if it was saved before or one of
/// the items has its identifier.
pub proof fn lemma_save_membership(
    l: LibraryView,
    items: Seq<TrackView>,
    notify: bool,
    id: Option<String>,
)
    ensures
        l.save_tracks(items, notify).is_saved(id) <==> (l.is_saved(id) || has_id(
            items,
            opt_text(id),
        )),
{
    lemma_fresh_ids(l.tracks, items, opt_text(id));
    lemma_has_id_concat(fresh(l.tracks, items), l.tracks, opt_text(id));
}

/// After an unsave, a track is saved exactly if it was saved before and none
/// of the items has its identifier.
pub proof fn lemma_unsave_membership(
    l: LibraryView,
    items: Seq<TrackView>,
    notify: bool,
    id: Option<String>,
)
    ensures
        l.unsave_tracks(items, notify).is_saved(id) <==> (l.is_saved(id) && !has_id(
            items,
            opt_text(id),
        )),
{
    lemma_without_ids(l.tracks, items, opt_text(id));
}

/// Flipping the saved state of a track flips it for that track and for no
/// other identifier.
pub proof fn lemma_toggle_membership(l: LibraryView, track: TrackView, id: Option<String>)
    ensures
        l.toggle_saved(track).is_saved(id) <==> (if opt_text(id) == opt_text(track.id) {
            !l.is_saved(id)
        } else {
            l.is_saved(id)
        }),
{
    let one = seq![track];
    assert(has_id(one, opt_text(id)) <==> opt_text(track.id) == opt_text(id)) by {
        lemma_has_id_push(Seq::empty(), track, opt_text(id));
        assert(Seq::<TrackView>::empty().push(track) =~= one);
    }
    lemma_save_membership(l, one, true, id);
    lemma_unsave_membership(l, one, true, id);
}

/// Flipping the saved state of one track twice in a row leaves every
/// identifier saved exactly as it was.
pub proof fn lemma_toggle_twice(l: LibraryView, track: TrackView, id: Option<String>)
    ensures
        l.toggle_saved(track).toggle_saved(track).is_saved(id) == l.is_saved(id),
{
    lemma_toggle_membership(l, track, id);
    lemma_toggle_membership(l.toggle_saved(track), track, id);
}

} // verus!
