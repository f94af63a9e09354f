//! A list of items with one of them selected.

use vstd::prelude::*;
use crate::command::{Command, CommandResult, FollowUp};
use crate::library::{Library, LibraryView};
use crate::queue::{Queue, QueueView};
use crate::traits::ListItem;

verus! {

/// Where the selection stands after `cmd`, in a list of `len` rows: up and
/// down move it by one and stop at the ends.
pub open spec fn selection_after(len: int, selected: int, cmd: Command) -> int {
    if cmd == Command::Up && selected > 0 {
        selected - 1
    } else if cmd == Command::Down && selected + 1 < len {
        selected + 1
    } else {
        selected
    }
}

/// Whether a list of items takes `cmd` for itself.
pub open spec fn list_consumes(cmd: Command) -> bool {
    cmd == Command::Play || cmd == Command::PlayNext || cmd == Command::Queue || cmd
        == Command::Save || cmd == Command::Open || cmd == Command::Up || cmd == Command::Down
}

/// The queue after a list with `content` and `selected` has seen `cmd`.
pub open spec fn list_queue<T: ListItem>(
    content: Seq<T>,
    selected: int,
    cmd: Command,
    q: QueueView,
) -> QueueView {
    if 0 <= selected < content.len() {
        if cmd == Command::Play {
            q.play_run(content[selected].playables())
        } else if cmd == Command::PlayNext {
            q.append_next(content[selected].playables())
        } else if cmd == Command::Queue {
            q.append_all(content[selected].playables())
        } else {
            q
        }
    } else {
        q
    }
}

/// The library after a list with `content` and `selected` has seen `cmd`.
pub open spec fn list_library<T: ListItem>(
    content: Seq<T>,
    selected: int,
    cmd: Command,
    l: LibraryView,
) -> LibraryView {
    if 0 <= selected < content.len() && cmd == Command::Save {
        l.save_tracks(content[selected].as_tracks(), true)
    } else {
        l
    }
}

/// What a list with `content` and `selected` answers to `cmd`: opening an
/// item that has a detail view asks for that view to be put on top.
pub open spec fn list_answer<T: ListItem>(content: Seq<T>, selected: int, cmd: Command) -> CommandResult {
    if !list_consumes(cmd) {
        CommandResult::Ignored
    } else if cmd == Command::Open && 0 <= selected < content.len() {
        match content[selected].detail() {
            Some(screen) => CommandResult::Consumed(Some(FollowUp::Push(screen))),
            None => CommandResult::Consumed(None),
        }
    } else {
        CommandResult::Consumed(None)
    }
}

/// A list of rows and the index of the selected one.
#[derive(Debug, PartialEq, Eq)]
pub struct ListView<T> {
    pub content: Vec<T>,
    pub selected: usize,
}

impl<T> ListView<T> {
    /// A list over `content`, with its first row selected.
    pub fn new(content: Vec<T>) -> (r: ListView<T>)
        ensures
            r.content@ == content@,
            r.selected == 0,
    {
        ListView { content, selected: 0 }
    }

    /// The index of the selected row.
    pub fn get_selected_index(&self) -> (r: usize)
        ensures
            r == self.selected,
    {
        self.selected
    }
}

/// Moves a selection as `selection_after` says.
pub fn move_selection(len: usize, selected: usize, cmd: Command) -> (r: usize)
    ensures
        r == selection_after(len as int, selected as int, cmd),
{
    match cmd {
        Command::Up => if selected > 0 {
            selected - 1
        } else {
            selected
        },
        Command::Down => if selected < usize::MAX && selected + 1 < len {
            selected + 1
        } else {
            selected
        },
        _ => selected,
    }
}

impl<T: ListItem> ListView<T> {
    /// Handles a command on the selected item. Playing, queueing, saving and
    /// opening act on it; up and down move the selection; everything else is
    /// declined and changes nothing.
    pub fn on_command(&mut self, cmd: Command, queue: &mut Queue, library: &mut Library) -> (r:
        CommandResult)
        requires
            old(queue).wf(),
        ensures
            final(queue).wf(),
            final(self).content == old(self).content,
            final(self).selected == selection_after(
                old(self).content@.len() as int,
                old(self).selected as int,
                cmd,
            ),
            final(queue)@ == list_queue(
                old(self).content@,
                old(self).selected as int,
                cmd,
                old(queue)@,
            ),
            final(library)@ == list_library(
                old(self).content@,
                old(self).selected as int,
                cmd,
                old(library)@,
            ),
            r == list_answer(old(self).content@, old(self).selected as int, cmd),
    {
        let here = self.selected < self.content.len();
        match cmd {
            Command::Play => {
                if here {
                    self.content[self.selected].play(queue);
                }
                CommandResult::Consumed(None)
            },
            Command::PlayNext => {
                if here {
                    self.content[self.selected].play_next(queue);
                }
                CommandResult::Consumed(None)
            },
            Command::Queue => {
                if here {
                    self.content[self.selected].queue(queue);
                }
                CommandResult::Consumed(None)
            },
            Command::Save => {
                if here {
                    self.content[self.selected].save(library);
                }
                CommandResult::Consumed(None)
            },
            Command::Open => {
                if here {
                    match self.content[self.selected].open(queue, library) {
                        Some(screen) => CommandResult::Consumed(Some(FollowUp::Push(screen))),
                        None => CommandResult::Consumed(None),
                    }
                } else {
                    CommandResult::Consumed(None)
                }
            },
            Command::Up | Command::Down => {
                self.selected = move_selection(self.content.len(), self.selected, cmd);
                CommandResult::Consumed(None)
            },
            _ => CommandResult::Ignored,
        }
    }
}

} // verus!
