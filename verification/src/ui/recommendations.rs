//! The view over the tracks that the service recommends for a seed track.

use vstd::prelude::*;
use vstd::string::*;
use crate::command::{Command, CommandResult};
use crate::library::Library;
use crate::queue::Queue;
use crate::track::Track;
use crate::ui::listview::{list_answer, list_library, list_queue, selection_after, ListView};

verus! {

/// A track list titled "Similar Tracks".
#[derive(Debug, PartialEq, Eq)]
pub struct RecommendationsView {
    pub list: ListView<Track>,
}

impl RecommendationsView {
    /// A view over `content`, with its first row selected.
    pub fn new(content: Vec<Track>) -> (r: RecommendationsView)
        ensures
            r.list.content@ == content@,
            r.list.selected == 0,
    {
        RecommendationsView { list: ListView::new(content) }
    }

    /// The view's title.
    pub fn title(&self) -> (r: String)
        ensures
            r@ == "Similar Tracks"@,
    {
        String::from_str("Similar Tracks")
    }

    /// Hands every command to the track list, unchanged.
    pub fn on_command(&mut self, cmd: Command, queue: &mut Queue, library: &mut Library) -> (r:
        CommandResult)
        requires
            old(queue).wf(),
        ensures
            final(queue).wf(),
            final(self).list.content == old(self).list.content,
            final(self).list.selected == selection_after(
                old(self).list.content@.len() as int,
                old(self).list.selected as int,
                cmd,
            ),
            final(queue)@ == list_queue(
                old(self).list.content@,
                old(self).list.selected as int,
                cmd,
                old(queue)@,
            ),
            final(library)@ == list_library(
                old(self).list.content@,
                old(self).list.selected as int,
                cmd,
                old(library)@,
            ),
            r == list_answer(old(self).list.content@, old(self).list.selected as int, cmd),
    {
        self.list.on_command(cmd, queue, library)
    }
}

} // verus!
