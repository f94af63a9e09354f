//! The dialog that asks before a playlist is deleted.

use vstd::prelude::*;
use crate::command::{Command, CommandResult, FollowUp};
use crate::library::{Library, LibraryView};

verus! {

/// A confirmation dialog for deleting one playlist. While it is on top of the
/// stack it takes every command.
#[derive(Debug, PartialEq, Eq)]
pub struct Modal {
    pub playlist_id: String,
}

impl Modal {
    /// The library after the dialog has seen `cmd`: confirming deletes the
    /// playlist, anything else changes nothing.
    pub open spec fn library_after(self, cmd: Command, l: LibraryView) -> LibraryView {
        if cmd == Command::Confirm {
            l.delete_playlist(self.playlist_id)
        } else {
            l
        }
    }

    /// Whether `cmd` closes the dialog.
    pub open spec fn closes(cmd: Command) -> bool {
        cmd == Command::Confirm || cmd == Command::Cancel
    }

    /// Handles a command: confirm deletes and closes, cancel closes, and
    /// every other command is swallowed.
    pub fn on_command(&self, cmd: Command, library: &mut Library) -> (r: CommandResult)
        ensures
            final(library)@ == self.library_after(cmd, old(library)@),
            if Modal::closes(cmd) {
                r == CommandResult::Consumed(Some(FollowUp::Pop))
            } else {
                r == CommandResult::Consumed(None)
            },
    {
        match cmd {
            Command::Confirm => {
                library.delete_playlist(&self.playlist_id);
                CommandResult::Consumed(Some(FollowUp::Pop))
            },
            Command::Cancel => CommandResult::Consumed(Some(FollowUp::Pop)),
            _ => CommandResult::Consumed(None),
        }
    }
}

} // verus!
