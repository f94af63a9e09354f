//! Anything that the play queue can hold.

use vstd::prelude::*;
use crate::text::copy_opt;
use crate::track::{Track, TrackView};

verus! {

/// An item of the play queue.
#[derive(Debug, PartialEq, Eq)]
pub enum Playable {
    Track(Track),
}

/// What a playable item holds.
pub enum PlayableView {
    Track(TrackView),
}

impl PlayableView {
    /// The catalog identifier of the item, if it has one.
    pub open spec fn id(self) -> Option<String> {
        match self {
            PlayableView::Track(t) => t.id,
        }
    }
}

impl View for Playable {
    type V = PlayableView;

    open spec fn view(&self) -> PlayableView {
        match self {
            Playable::Track(t) => PlayableView::Track(t@),
        }
    }
}

impl Clone for Playable {
    fn clone(&self) -> (r: Self)
        ensures
            r@ == self@,
    {
        match self {
            Playable::Track(t) => Playable::Track(t.clone()),
        }
    }
}

impl Playable {
    /// The catalog identifier of the item, if it has one.
    pub fn id(&self) -> (r: Option<String>)
        ensures
            r == self@.id(),
    {
        match self {
            Playable::Track(t) => copy_opt(&t.id),
        }
    }
}

/// The views of a run of items, in order.
pub open spec fn views(items: Seq<Playable>) -> Seq<PlayableView> {
    items.map_values(|p: Playable| p@)
}

} // verus!
