//! The capability set that every browsable item offers to list views.

use vstd::prelude::*;
use crate::album::Album;
use crate::artist::Artist;
use crate::library::{Library, LibraryView};
use crate::playable::PlayableView;
use crate::queue::Queue;
use crate::text::opt_text;
use crate::track::{Track, TrackView};
use crate::ui::recommendations::RecommendationsView;
use crate::ui::stack::Screen;
use crate::wire::{FullAlbum, FullTrack};

verus! {

/// What a list view may ask of an item, whatever kind of item it is. Every
/// operation is total: a kind that cannot supply a facet answers none. The
/// What the operations on queue and library do is stated here over the
/// item's playable entries and its tracks; what an item shows and which
/// facets it has is stated by the kind that implements it.
pub trait ListItem {
    /// The text of the item's identifier, if it has one.
    spec fn id_text(&self) -> Option<Seq<char>>;

    /// Whether the library counts the item among the saved ones.
    spec fn saved_in(&self, l: LibraryView) -> bool;

    /// What the item puts into the queue, in order: itself, or for a
    /// container its tracks.
    spec fn playables(&self) -> Seq<PlayableView>;

    /// The tracks that saving the item saves.
    spec fn as_tracks(&self) -> Seq<TrackView>;

    /// The view that drills into the item, if the item has more to show.
    spec fn detail(&self) -> Option<Screen>;

    /// Whether the item's identity matches the queue's current item.
    fn is_playing(&self, queue: &Queue) -> (r: bool)
        requires
            queue.wf(),
        ensures
            r == match queue@.current_item() {
                Some(item) => opt_text(item.id()) == self.id_text(),
                None => false,
            },
    ;

    /// The left column of a list row.
    fn display_left(&self) -> (r: String);

    /// The middle column of a list row.
    fn display_center(&self, library: &Library) -> (r: String);

    /// The right column of a list row.
    fn display_right(&self, library: &Library) -> (r: String);

    /// Puts the item right behind the current position and starts it.
    fn play(&self, queue: &mut Queue)
        requires
            old(queue).wf(),
        ensures
            final(queue).wf(),
            final(queue)@ == old(queue)@.play_run(self.playables()),
    ;

    /// Puts the item right behind the current position; playback goes on.
    fn play_next(&self, queue: &mut Queue)
        requires
            old(queue).wf(),
        ensures
            final(queue).wf(),
            final(queue)@ == old(queue)@.append_next(self.playables()),
    ;

    /// Puts the item at the end of the queue; playback goes on.
    fn queue(&self, queue: &mut Queue)
        requires
            old(queue).wf(),
        ensures
            final(queue).wf(),
            final(queue)@ == old(queue)@.append_all(self.playables()),
    ;

    /// Adds the item to the saved ones.
    fn save(&self, library: &mut Library)
        ensures
            final(library)@ == old(library)@.save_tracks(self.as_tracks(), true),
    ;

    /// Takes the item out of the saved ones.
    fn unsave(&self, library: &mut Library)
        ensures
            final(library)@ == old(library)@.unsave_tracks(self.as_tracks(), true),
    ;

    /// Saves the item if it is not saved, and takes it out if it is.
    fn toggle_saved(&self, library: &mut Library)
        ensures
            final(library)@ == (if self.saved_in(old(library)@) {
                old(library)@.unsave_tracks(self.as_tracks(), true)
            } else {
                old(library)@.save_tracks(self.as_tracks(), true)
            }),
    ;

    /// A view that drills into the item, if the item has more to show.
    fn open(&self, queue: &Queue, library: &Library) -> (r: Option<Screen>)
        ensures
            r == self.detail(),
    ;

    /// A view over items similar to this one, made of what the service
    /// answered; none if the item cannot seed a recommendation or the answer
    /// leaves nothing.
    fn open_recommendations(&self, answer: &Option<Vec<Option<FullTrack>>>) -> (r: Option<
        RecommendationsView,
    >);

    /// A link to the item for the outside world, if it has a stable
    /// identifier.
    fn share_url(&self) -> (r: Option<String>)
        ensures
            r.is_some() == self.id_text().is_some(),
    ;

    /// The item's album, made of what the service gave for it.
    fn album(&self, fetched: &Option<FullAlbum>) -> (r: Option<Album>);

    /// The item's artist.
    fn artist(&self) -> (r: Option<Artist>);

    /// The item as a track.
    fn track(&self) -> (r: Option<Track>);
}

} // verus!
