//! The view over one of the library's playlist collections.

use vstd::prelude::*;
use crate::command::{Command, CommandResult, FollowUp};
use crate::library::{Library, LibraryView};
use crate::playlist::{Playlist, PlaylistType};
use crate::ui::listview::{move_selection, selection_after};
use crate::ui::modal::Modal;
use crate::ui::stack::Screen;

verus! {

/// A list of playlists. The view holds no copy of the collection: it reads
/// the library's own, which may be empty until refreshed, each time it acts.
#[derive(Debug, PartialEq, Eq)]
pub struct PlaylistsView {
    pub p_type: PlaylistType,
    pub selected: usize,
}

/// The collection of the library that a view of this kind shows.
pub open spec fn shown(p_type: PlaylistType, l: LibraryView) -> Seq<Playlist> {
    match p_type {
        PlaylistType::Library => l.playlists,
        PlaylistType::ForYou => l.foru,
    }
}

/// Whether a playlists view takes `cmd` for itself.
pub open spec fn playlists_consume(cmd: Command) -> bool {
    cmd == Command::Delete || cmd == Command::Up || cmd == Command::Down
}

impl PlaylistsView {
    /// A view of the chosen collection, with its first row selected.
    pub fn new(p_type: PlaylistType) -> (r: PlaylistsView)
        ensures
            r.p_type == p_type,
            r.selected == 0,
    {
        PlaylistsView { p_type, selected: 0 }
    }

    /// The collection that this view shows.
    pub fn list<'a>(&self, library: &'a Library) -> (r: &'a Vec<Playlist>)
        ensures
            r@ == shown(self.p_type, library@),
    {
        match self.p_type {
            PlaylistType::Library => &library.playlists,
            PlaylistType::ForYou => &library.foru,
        }
    }

    /// The dialog that asks whether to delete the owned playlist at the
    /// selected row; none where that row holds no owned playlist.
    pub fn delete_dialog(&self, library: &Library) -> (r: Option<Modal>)
        ensures
            match r {
                Some(dialog) => self.selected < library@.playlists.len() && dialog.playlist_id
                    == library@.playlists[self.selected as int].id,
                None => self.selected >= library@.playlists.len(),
            },
    {
        let store = library.items();
        if self.selected < store.len() {
            Some(Modal { playlist_id: store[self.selected].id.clone() })
        } else {
            None
        }
    }

    /// Handles a command: a delete is answered with the confirmation dialog
    /// to put on top, up and down move the selection, and everything else is
    /// declined. The library itself is never changed here.
    pub fn on_command(&mut self, cmd: Command, library: &Library) -> (r: CommandResult)
        ensures
            final(self).p_type == old(self).p_type,
            final(self).selected == selection_after(
                shown(old(self).p_type, library@).len() as int,
                old(self).selected as int,
                cmd,
            ),
            r.is_consumed() == playlists_consume(cmd),
            cmd == Command::Delete ==> match r {
                CommandResult::Consumed(Some(FollowUp::Push(Screen::Modal(dialog)))) => old(
                    self,
                ).selected < library@.playlists.len() && dialog.playlist_id
                    == library@.playlists[old(self).selected as int].id,
                CommandResult::Consumed(None) => old(self).selected >= library@.playlists.len(),
                _ => false,
            },
            cmd == Command::Up || cmd == Command::Down ==> r == CommandResult::Consumed(None),
            !playlists_consume(cmd) ==> r == CommandResult::Ignored,
    {
        match cmd {
            Command::Delete => {
                match self.delete_dialog(library) {
                    Some(dialog) => CommandResult::Consumed(Some(FollowUp::Push(Screen::Modal(dialog)))),
                    None => CommandResult::Consumed(None),
                }
            },
            Command::Up | Command::Down => {
                let len = self.list(library).len();
                self.selected = move_selection(len, self.selected, cmd);
                CommandResult::Consumed(None)
            },
            _ => CommandResult::Ignored,
        }
    }
}

} // verus!
