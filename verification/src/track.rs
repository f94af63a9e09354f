//! The track record of the item model, its construction from catalog records,
//! and its presentation strings.

use vstd::prelude::*;
use vstd::string::*;
use crate::album::Album;
use crate::artist::Artist;
use crate::library::{track_views, Library, LibraryView};
use crate::playable::{Playable, PlayableView};
use crate::queue::{lemma_single_item_runs, Queue};
use crate::traits::ListItem;
use crate::text::{
    copy_opt, copy_strings, join, joined, opt_text, push_two_digits, same_text, text_or_empty,
    two_digits,
};
use crate::ui::recommendations::RecommendationsView;
use crate::ui::stack::Screen;
use crate::wire::{
    artist_ids, artist_names, cover_url, first_url, known_ids, names, FullAlbum, FullTrack,
    SavedTrack, SimplifiedTrack,
};

verus! {

/// A track of the catalog or of the user's collection.
///
/// `artist_ids` may be shorter than `artists`: an artist without an identifier
/// contributes a name only.
#[derive(Debug, PartialEq, Eq)]
pub struct Track {
    pub id: Option<String>,
    pub uri: String,
    pub title: String,
    pub track_number: u32,
    pub disc_number: i32,
    pub duration: u32,
    pub artists: Vec<String>,
    pub artist_ids: Vec<String>,
    pub album: Option<String>,
    pub album_id: Option<String>,
    pub album_artists: Vec<String>,
    pub cover_url: Option<String>,
    pub url: String,
    /// Milliseconds since the Unix epoch; present only for saved items.
    pub added_at: Option<i64>,
}

/// What a track holds, with its lists as sequences.
pub struct TrackView {
    pub id: Option<String>,
    pub uri: String,
    pub title: String,
    pub track_number: u32,
    pub disc_number: i32,
    pub duration: u32,
    pub artists: Seq<String>,
    pub artist_ids: Seq<String>,
    pub album: Option<String>,
    pub album_id: Option<String>,
    pub album_artists: Seq<String>,
    pub cover_url: Option<String>,
    pub url: String,
    pub added_at: Option<i64>,
}

impl View for Track {
    type V = TrackView;

    open spec fn view(&self) -> TrackView {
        TrackView {
            id: self.id,
            uri: self.uri,
            title: self.title,
            track_number: self.track_number,
            disc_number: self.disc_number,
            duration: self.duration,
            artists: self.artists@,
            artist_ids: self.artist_ids@,
            album: self.album,
            album_id: self.album_id,
            album_artists: self.album_artists@,
            cover_url: self.cover_url,
            url: self.url,
            added_at: self.added_at,
        }
    }
}

/// A duration in milliseconds as minutes and seconds, each zero-padded to two
/// digits; minutes do not roll over into hours.
pub open spec fn duration_text(ms: nat) -> Seq<char> {
    two_digits(ms / 60000) + seq![':'] + two_digits((ms / 1000) % 60)
}

/// The one-line label of a track: its artists, a dash, its title.
pub open spec fn label_text(artists: Seq<String>, title: Seq<char>) -> Seq<char> {
    joined(artists, ", "@) + " - "@ + title
}

/// The prefix of every track's public link.
pub open spec fn share_prefix() -> Seq<char> {
    "https://open.spotify.com/track/"@
}

impl Clone for Track {
    fn clone(&self) -> (r: Self)
        ensures
            r@ == self@,
    {
        Track {
            id: copy_opt(&self.id),
            uri: self.uri.clone(),
            title: self.title.clone(),
            track_number: self.track_number,
            disc_number: self.disc_number,
            duration: self.duration,
            artists: copy_strings(&self.artists),
            artist_ids: copy_strings(&self.artist_ids),
            album: copy_opt(&self.album),
            album_id: copy_opt(&self.album_id),
            album_artists: copy_strings(&self.album_artists),
            cover_url: copy_opt(&self.cover_url),
            url: self.url.clone(),
            added_at: self.added_at,
        }
    }
}

impl Track {
    /// What `from_simplified_track` makes of a listing entry and its album.
    pub open spec fn simplified_with_album(track: SimplifiedTrack, album: FullAlbum) -> TrackView {
        TrackView {
            id: track.id,
            uri: track.uri,
            title: track.name,
            track_number: track.track_number,
            disc_number: track.disc_number,
            duration: track.duration_ms,
            artists: names(track.artists@),
            artist_ids: known_ids(track.artists@),
            album: Some(album.name),
            album_id: Some(album.id),
            album_artists: names(album.artists@),
            cover_url: first_url(album.images@),
            url: track.uri,
            added_at: None,
        }
    }

    /// What `from_simplified` makes of a listing entry on its own.
    pub open spec fn simplified_alone(track: SimplifiedTrack) -> TrackView {
        TrackView {
            id: track.id,
            uri: track.uri,
            title: track.name,
            track_number: track.track_number,
            disc_number: track.disc_number,
            duration: track.duration_ms,
            artists: names(track.artists@),
            artist_ids: known_ids(track.artists@),
            album: None,
            album_id: None,
            album_artists: Seq::empty(),
            cover_url: None,
            url: track.uri,
            added_at: None,
        }
    }

    /// What `from_full_track` makes of a full track.
    pub open spec fn full(track: FullTrack) -> TrackView {
        TrackView {
            id: track.id,
            uri: track.uri,
            title: track.name,
            track_number: track.track_number,
            disc_number: track.disc_number,
            duration: track.duration_ms,
            artists: names(track.artists@),
            artist_ids: known_ids(track.artists@),
            album: Some(track.album.name),
            album_id: track.album.id,
            album_artists: names(track.album.artists@),
            cover_url: first_url(track.album.images@),
            url: track.uri,
            added_at: None,
        }
    }

    /// What `from_saved_track` makes of an entry of the saved-items listing.
    pub open spec fn saved(st: SavedTrack) -> TrackView {
        TrackView { added_at: Some(st.added_at), ..Track::full(st.track) }
    }

    /// A track of an album listing, completed with the album's own data.
    pub fn from_simplified_track(track: &SimplifiedTrack, album: &FullAlbum) -> (r: Track)
        ensures
            r@ == Track::simplified_with_album(*track, *album),
    {
        Track {
            id: copy_opt(&track.id),
            uri: track.uri.clone(),
            title: track.name.clone(),
            track_number: track.track_number,
            disc_number: track.disc_number,
            duration: track.duration_ms,
            artists: artist_names(&track.artists),
            artist_ids: artist_ids(&track.artists),
            album: Some(album.name.clone()),
            album_id: Some(album.id.clone()),
            album_artists: artist_names(&album.artists),
            cover_url: cover_url(&album.images),
            url: track.uri.clone(),
            added_at: None,
        }
    }

    /// A track of an album listing on its own: nothing is known of its album.
    pub fn from_simplified(track: &SimplifiedTrack) -> (r: Track)
        ensures
            r@ == Track::simplified_alone(*track),
    {
        let r = Track {
            id: copy_opt(&track.id),
            uri: track.uri.clone(),
            title: track.name.clone(),
            track_number: track.track_number,
            disc_number: track.disc_number,
            duration: track.duration_ms,
            artists: artist_names(&track.artists),
            artist_ids: artist_ids(&track.artists),
            album: None,
            album_id: None,
            album_artists: Vec::new(),
            cover_url: None,
            url: track.uri.clone(),
            added_at: None,
        };
        assert(r@.album_artists =~= Seq::empty());
        r
    }

    /// A track fetched with its album.
    pub fn from_full_track(track: &FullTrack) -> (r: Track)
        ensures
            r@ == Track::full(*track),
    {
        Track {
            id: copy_opt(&track.id),
            uri: track.uri.clone(),
            title: track.name.clone(),
            track_number: track.track_number,
            disc_number: track.disc_number,
            duration: track.duration_ms,
            artists: artist_names(&track.artists),
            artist_ids: artist_ids(&track.artists),
            album: Some(track.album.name.clone()),
            album_id: copy_opt(&track.album.id),
            album_artists: artist_names(&track.album.artists),
            cover_url: cover_url(&track.album.images),
            url: track.uri.clone(),
            added_at: None,
        }
    }

    /// A track of the saved-items listing: the full track, stamped with the
    /// moment it was saved.
    pub fn from_saved_track(st: &SavedTrack) -> (r: Track)
        ensures
            r@ == Track::saved(*st),
    {
        let mut track = Track::from_full_track(&st.track);
        track.added_at = Some(st.added_at);
        track
    }

    /// The track's length as `MM:SS`.
    pub fn duration_str(&self) -> (r: String)
        ensures
            r@ == duration_text(self.duration as nat),
    {
        let minutes: u32 = self.duration / 60_000;
        let seconds: u32 = (self.duration / 1000) % 60;
        let mut out = String::new();
        push_two_digits(&mut out, minutes);
        proof {
            reveal_strlit(":");
        }
        out.append(":");
        push_two_digits(&mut out, seconds);
        assert(out@ =~= duration_text(self.duration as nat));
        out
    }

    /// The track's one-line label: artists joined by commas, a dash, the title.
    pub fn to_string(&self) -> (r: String)
        ensures
            r@ == label_text(self.artists@, self.title@),
    {
        let mut out = join(&self.artists, ", ");
        out.append(" - ");
        out.append(self.title.as_str());
        out
    }

}

/// The mark in front of a saved track's length: a glyph and a blank, the
/// glyph depending on the font; nothing for a track that is not saved.
pub open spec fn saved_marker(saved: bool, nerdfont: bool) -> Seq<char> {
    if !saved {
        Seq::empty()
    } else if nerdfont {
        "\u{f62b} "@
    } else {
        "\u{2713} "@
    }
}

/// The tracks made of those fetches that succeeded, in the order asked.
pub open spec fn fetched_tracks(results: Seq<Option<FullTrack>>) -> Seq<TrackView>
    decreases results.len(),
{
    if results.len() == 0 {
        Seq::empty()
    } else {
        let head = fetched_tracks(results.drop_last());
        match results.last() {
            Some(ft) => head.push(Track::full(ft)),
            None => head,
        }
    }
}

impl Track {
    /// The track alone, as a list for the library's bulk operations.
    fn alone(&self) -> (r: Vec<Track>)
        ensures
            track_views(r@) == seq![self@],
    {
        let mut v: Vec<Track> = Vec::new();
        v.push(self.clone());
        assert(track_views(v@) =~= seq![self@]);
        v
    }

    /// The identifier to ask recommendations for; none for a track without
    /// one, which cannot seed any.
    pub fn recommendation_seed(&self) -> (r: Option<String>)
        ensures
            r == self.id,
    {
        copy_opt(&self.id)
    }

    /// The identifier of the track's album, to fetch it by; none for a track
    /// that names no album.
    pub fn album_request(&self) -> (r: Option<String>)
        ensures
            r == self.album_id,
    {
        copy_opt(&self.album_id)
    }
}

impl ListItem for Track {
    open spec fn id_text(&self) -> Option<Seq<char>> {
        opt_text(self.id)
    }

    open spec fn saved_in(&self, l: LibraryView) -> bool {
        l.is_saved(self.id)
    }

    open spec fn playables(&self) -> Seq<PlayableView> {
        seq![PlayableView::Track(self@)]
    }

    open spec fn as_tracks(&self) -> Seq<TrackView> {
        seq![self@]
    }

    open spec fn detail(&self) -> Option<Screen> {
        None
    }

    /// Whether the queue's current item has this track's identifier.
    fn is_playing(&self, queue: &Queue) -> (r: bool)
        ensures
            r == match queue@.current_item() {
                Some(item) => opt_text(item.id()) == opt_text(self.id),
                None => false,
            },
    {
        match queue.get_current() {
            Some(item) => {
                let id = item.id();
                same_text(&id, &self.id)
            },
            None => false,
        }
    }

    /// The left column of a list row: the label.
    fn display_left(&self) -> (r: String)
        ensures
            r@ == label_text(self.artists@, self.title@),
    {
        self.to_string()
    }

    /// The middle column of a list row: the album's name, unless the album
    /// column is switched off.
    fn display_center(&self, library: &Library) -> (r: String)
        ensures
            r@ == (if library@.cfg.album_column != Some(false) {
                text_or_empty(self.album)
            } else {
                Seq::empty()
            }),
    {
        let show = match library.cfg.album_column {
            Some(b) => b,
            None => true,
        };
        if show {
            match &self.album {
                Some(name) => name.clone(),
                None => String::new(),
            }
        } else {
            String::new()
        }
    }

    /// The right column of a list row: the saved mark, if the track is saved,
    /// and the track's length.
    fn display_right(&self, library: &Library) -> (r: String)
        ensures
            r@ == saved_marker(
                library@.is_saved(self.id),
                library@.cfg.use_nerdfont == Some(true),
            ) + duration_text(self.duration as nat),
    {
        let nerdfont = match library.cfg.use_nerdfont {
            Some(b) => b,
            None => false,
        };
        let saved = library.is_saved_track(&Playable::Track(self.clone()));
        let mut out = if saved {
            if nerdfont {
                String::from_str("\u{f62b} ")
            } else {
                String::from_str("\u{2713} ")
            }
        } else {
            String::new()
        };
        let length = self.duration_str();
        out.append(length.as_str());
        out
    }

    /// Puts the track right behind the current item and starts it.
    fn play(&self, queue: &mut Queue)
        ensures
            final(queue).wf(),
            final(queue)@ == old(queue)@.play_run(seq![PlayableView::Track(self@)]),
    {
        let mut run: Vec<Playable> = Vec::new();
        run.push(Playable::Track(self.clone()));
        assert(crate::playable::views(run@) =~= seq![PlayableView::Track(self@)]);
        let index = queue.append_next(run);
        queue.play(index, true, false);
    }

    /// Puts the track right behind the current item; playback goes on.
    fn play_next(&self, queue: &mut Queue)
        ensures
            final(queue).wf(),
            final(queue)@ == old(queue)@.insert_after_current(PlayableView::Track(self@)),
    {
        proof {
            lemma_single_item_runs(queue@, PlayableView::Track(self@));
        }
        queue.insert_after_current(Playable::Track(self.clone()));
    }

    /// Puts the track at the end of the queue; playback goes on.
    fn queue(&self, queue: &mut Queue)
        ensures
            final(queue).wf(),
            final(queue)@ == old(queue)@.append(PlayableView::Track(self@)),
    {
        proof {
            lemma_single_item_runs(queue@, PlayableView::Track(self@));
        }
        queue.append(Playable::Track(self.clone()));
    }

    /// Saves the track to the library.
    fn save(&self, library: &mut Library)
        ensures
            final(library)@ == old(library)@.save_tracks(seq![self@], true),
    {
        let items = self.alone();
        library.save_tracks(&items, true);
    }

    /// Takes the track out of the saved ones.
    fn unsave(&self, library: &mut Library)
        ensures
            final(library)@ == old(library)@.unsave_tracks(seq![self@], true),
    {
        let items = self.alone();
        library.unsave_tracks(&items, true);
    }

    /// Saves the track if it is not saved, and takes it out if it is.
    fn toggle_saved(&self, library: &mut Library)
        ensures
            final(library)@ == old(library)@.toggle_saved(self@),
    {
        let items = self.alone();
        if library.is_saved_track(&Playable::Track(self.clone())) {
            library.unsave_tracks(&items, true);
        } else {
            library.save_tracks(&items, true);
        }
    }

    /// The detail view of the track: a track has none.
    fn open(&self, _queue: &Queue, _library: &Library) -> (r: Option<Screen>)
        ensures
            r.is_none(),
    {
        None
    }

    /// The view over the tracks recommended for this one. `answer` is what
    /// the service gave: none where the request failed, else the outcome of
    /// each single fetch, none for a failed one. Failed fetches are left out.
    /// There is no view for a track without an identifier, a failed request,
    /// or an answer that leaves no track.
    fn open_recommendations(&self, answer: &Option<Vec<Option<FullTrack>>>) -> (r: Option<
        RecommendationsView,
    >)
        ensures
            match r {
                Some(view) => self.id.is_some() && answer.is_some() && track_views(
                    view.list.content@,
                ) == fetched_tracks(answer.unwrap()@) && view.list.content@.len() > 0
                    && view.list.selected == 0,
                None => self.id.is_none() || answer.is_none() || fetched_tracks(
                    answer.unwrap()@,
                ).len() == 0,
            },
    {
        if self.id.is_none() {
            return None;
        }
        match answer {
            Some(results) => {
                let mut tracks: Vec<Track> = Vec::new();
                let mut i: usize = 0;
                while i < results.len()
                    invariant
                        i <= results.len(),
                        track_views(tracks@) == fetched_tracks(results@.take(i as int)),
                    decreases results.len() - i,
                {
                    proof {
                        assert(results@.take(i + 1).drop_last() =~= results@.take(i as int));
                    }
                    match &results[i] {
                        Some(ft) => {
                            let ghost before = track_views(tracks@);
                            tracks.push(Track::from_full_track(ft));
                            assert(track_views(tracks@) =~= before.push(Track::full(*ft)));
                        },
                        None => {},
                    }
                    i += 1;
                }
                assert(results@.take(i as int) =~= results@);
                if tracks.len() == 0 {
                    None
                } else {
                    Some(RecommendationsView::new(tracks))
                }
            },
            None => None,
        }
    }

    /// The track's public link, for a track that has an identifier.
    fn share_url(&self) -> (r: Option<String>)
        ensures
            match self.id {
                Some(id) => r.is_some() && r.unwrap()@ == share_prefix() + id@,
                None => r.is_none(),
            },
    {
        match &self.id {
            Some(id) => {
                let mut out = String::from_str("https://open.spotify.com/track/");
                out.append(id.as_str());
                Some(out)
            },
            None => None,
        }
    }

    /// The track's album, made of what the service gave for its identifier;
    /// none for a track that names no album or where the fetch failed.
    fn album(&self, fetched: &Option<FullAlbum>) -> (r: Option<Album>)
        ensures
            match r {
                Some(album) => self.album_id.is_some() && fetched.is_some() && album@
                    == Album::full(fetched.unwrap()),
                None => self.album_id.is_none() || fetched.is_none(),
            },
    {
        if self.album_id.is_none() {
            return None;
        }
        match fetched {
            Some(fa) => Some(Album::from_full_album(fa)),
            None => None,
        }
    }

    /// The track's first artist; none where the track lacks a name or an
    /// identifier for one.
    fn artist(&self) -> (r: Option<Artist>)
        ensures
            match r {
                Some(artist) => self.artists@.len() > 0 && self.artist_ids@.len() > 0
                    && artist.id == self.artist_ids@[0] && artist.name == self.artists@[0],
                None => self.artists@.len() == 0 || self.artist_ids@.len() == 0,
            },
    {
        if self.artists.len() > 0 && self.artist_ids.len() > 0 {
            Some(Artist::new(self.artist_ids[0].clone(), self.artists[0].clone()))
        } else {
            None
        }
    }

    /// The track itself, as the facet that every list item offers.
    fn track(&self) -> (r: Option<Track>)
        ensures
            r.is_some(),
            r.unwrap()@ == self@,
    {
        Some(self.clone())
    }
}

/// An answer in which every single fetch failed leaves no track, and so
/// opens no view.
pub proof fn lemma_no_recommendations(results: Seq<Option<FullTrack>>)
    requires
        forall|i: int| 0 <= i < results.len() ==> results[i].is_none(),
    ensures
        fetched_tracks(results).len() == 0,
    decreases results.len(),
{
    if results.len() > 0 {
        lemma_no_recommendations(results.drop_last());
    }
}

/// Every construction from a catalog record keeps the record's identifier,
/// address and length, and names the artists in the record's order.
pub proof fn lemma_conversions_preserve(
    st: SimplifiedTrack,
    album: FullAlbum,
    ft: FullTrack,
    saved: SavedTrack,
    i: int,
)
    ensures
        Track::simplified_with_album(st, album).id == st.id,
        Track::simplified_with_album(st, album).uri == st.uri,
        Track::simplified_with_album(st, album).duration == st.duration_ms,
        Track::simplified_with_album(st, album).artists.len() == st.artists@.len(),
        0 <= i < st.artists@.len() ==> Track::simplified_with_album(st, album).artists[i]
            == st.artists@[i].name,
        Track::simplified_alone(st).id == st.id,
        Track::simplified_alone(st).uri == st.uri,
        Track::simplified_alone(st).duration == st.duration_ms,
        Track::simplified_alone(st).artists.len() == st.artists@.len(),
        0 <= i < st.artists@.len() ==> Track::simplified_alone(st).artists[i]
            == st.artists@[i].name,
        Track::full(ft).id == ft.id,
        Track::full(ft).uri == ft.uri,
        Track::full(ft).duration == ft.duration_ms,
        Track::full(ft).artists.len() == ft.artists@.len(),
        0 <= i < ft.artists@.len() ==> Track::full(ft).artists[i] == ft.artists@[i].name,
        Track::saved(saved).id == saved.track.id,
        Track::saved(saved).uri == saved.track.uri,
        Track::saved(saved).duration == saved.track.duration_ms,
        Track::saved(saved).artists == Track::full(saved.track).artists,
{
}

/// The length text depends on the length alone, so asking again, or asking
/// another track of the same length, gives the same text.
pub proof fn lemma_duration_text_stable(a: Track, b: Track)
    requires
        a.duration == b.duration,
    ensures
        duration_text(a.duration as nat) == duration_text(b.duration as nat),
{
}

} // verus!
