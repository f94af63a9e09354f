//! The stack of views and the routing of a command through it, top first.

use vstd::prelude::*;
use crate::command::{Command, CommandResult, FollowUp};
use crate::library::{Library, LibraryView};
use crate::queue::{Queue, QueueView};
use crate::ui::listview::{
    list_answer, list_consumes, list_library, list_queue, selection_after, ListView,
};
use crate::ui::modal::Modal;
use crate::ui::playlists::{playlists_consume, shown, PlaylistsView};
use crate::ui::recommendations::RecommendationsView;

verus! {

/// A view of the stack.
#[derive(Debug, PartialEq, Eq)]
pub enum Screen {
    Playlists(PlaylistsView),
    Recommendations(RecommendationsView),
    Modal(Modal),
}

impl Screen {
    /// Whether this view takes `cmd` for itself. A dialog takes everything.
    pub open spec fn consumes(self, cmd: Command) -> bool {
        match self {
            Screen::Playlists(_) => playlists_consume(cmd),
            Screen::Recommendations(_) => list_consumes(cmd),
            Screen::Modal(_) => true,
        }
    }

    /// What this view answers to `cmd`, the library being `l`.
    pub open spec fn answer(self, cmd: Command, l: LibraryView) -> CommandResult {
        match self {
            Screen::Playlists(v) => if cmd == Command::Delete {
                if v.selected < l.playlists.len() {
                    CommandResult::Consumed(
                        Some(
                            FollowUp::Push(
                                Screen::Modal(
                                    Modal { playlist_id: l.playlists[v.selected as int].id },
                                ),
                            ),
                        ),
                    )
                } else {
                    CommandResult::Consumed(None)
                }
            } else if playlists_consume(cmd) {
                CommandResult::Consumed(None)
            } else {
                CommandResult::Ignored
            },
            Screen::Recommendations(v) => list_answer(
                v.list.content@,
                v.list.selected as int,
                cmd,
            ),
            Screen::Modal(_) => if Modal::closes(cmd) {
                CommandResult::Consumed(Some(FollowUp::Pop))
            } else {
                CommandResult::Consumed(None)
            },
        }
    }

    /// This view after it has seen `cmd`, the library being `l`.
    pub open spec fn after(self, cmd: Command, l: LibraryView) -> Screen {
        match self {
            Screen::Playlists(v) => Screen::Playlists(
                PlaylistsView {
                    p_type: v.p_type,
                    selected: selection_after(
                        shown(v.p_type, l).len() as int,
                        v.selected as int,
                        cmd,
                    ) as usize,
                },
            ),
            Screen::Recommendations(v) => Screen::Recommendations(
                RecommendationsView {
                    list: ListView {
                        content: v.list.content,
                        selected: selection_after(
                            v.list.content@.len() as int,
                            v.list.selected as int,
                            cmd,
                        ) as usize,
                    },
                },
            ),
            Screen::Modal(m) => Screen::Modal(m),
        }
    }

    /// The queue after this view has seen `cmd`.
    pub open spec fn queue_after(self, cmd: Command, q: QueueView) -> QueueView {
        match self {
            Screen::Recommendations(v) => list_queue(
                v.list.content@,
                v.list.selected as int,
                cmd,
                q,
            ),
            _ => q,
        }
    }

    /// The library after this view has seen `cmd`.
    pub open spec fn library_after(self, cmd: Command, l: LibraryView) -> LibraryView {
        match self {
            Screen::Playlists(_) => l,
            Screen::Recommendations(v) => list_library(
                v.list.content@,
                v.list.selected as int,
                cmd,
                l,
            ),
            Screen::Modal(m) => m.library_after(cmd, l),
        }
    }

    /// Offers `cmd` to this view.
    pub fn on_command(&mut self, cmd: Command, queue: &mut Queue, library: &mut Library) -> (r:
        CommandResult)
        requires
            old(queue).wf(),
        ensures
            final(queue).wf(),
            r == old(self).answer(cmd, old(library)@),
            r.is_consumed() == old(self).consumes(cmd),
            *final(self) == old(self).after(cmd, old(library)@),
            final(queue)@ == old(self).queue_after(cmd, old(queue)@),
            final(library)@ == old(self).library_after(cmd, old(library)@),
    {
        match self {
            Screen::Playlists(v) => v.on_command(cmd, library),
            Screen::Recommendations(v) => v.on_command(cmd, queue, library),
            Screen::Modal(m) => m.on_command(cmd, library),
        }
    }
}

/// Whether `i` is the topmost view of `views` that takes `cmd`.
pub open spec fn is_consumer(views: Seq<Screen>, cmd: Command, i: int) -> bool {
    &&& 0 <= i < views.len()
    &&& views[i].consumes(cmd)
    &&& forall|j: int| i < j < views.len() ==> !(#[trigger] views[j]).consumes(cmd)
}

/// Whether no view of `views` takes `cmd`.
pub open spec fn all_decline(views: Seq<Screen>, cmd: Command) -> bool {
    forall|j: int| 0 <= j < views.len() ==> !(#[trigger] views[j]).consumes(cmd)
}

/// The stack after its view `i` has consumed `cmd`: that view has acted, and
/// its follow-up, if any, is carried out.
pub open spec fn stack_after(views: Seq<Screen>, i: int, cmd: Command, l: LibraryView) -> Seq<Screen> {
    let handled = views.update(i, views[i].after(cmd, l));
    match views[i].answer(cmd, l) {
        CommandResult::Consumed(Some(FollowUp::Push(screen))) => handled.push(screen),
        CommandResult::Consumed(Some(FollowUp::Pop)) => handled.remove(i),
        _ => handled,
    }
}

/// The views on screen, bottom first: the last one is on top and is offered
/// input first.
#[derive(Debug, PartialEq, Eq)]
pub struct ViewStack {
    pub views: Vec<Screen>,
}

impl ViewStack {
    /// An empty stack.
    pub fn new() -> (r: ViewStack)
        ensures
            r.views@.len() == 0,
    {
        ViewStack { views: Vec::new() }
    }

    /// Puts `view` on top.
    pub fn push(&mut self, view: Screen)
        ensures
            final(self).views@ == old(self).views@.push(view),
    {
        self.views.push(view);
    }

    /// Takes the top view off, if there is one.
    pub fn pop(&mut self) -> (r: Option<Screen>)
        ensures
            match r {
                Some(view) => old(self).views@.len() > 0 && view == old(self).views@.last()
                    && final(self).views@ == old(self).views@.drop_last(),
                None => old(self).views@.len() == 0 && final(self).views@ == old(self).views@,
            },
    {
        self.views.pop()
    }

    /// Offers `cmd` to the views from the top down until one consumes it, and
    /// gives the index of that view. A command that every view declines is
    /// dropped: nothing changes and there is no index.
    pub fn on_command(&mut self, cmd: Command, queue: &mut Queue, library: &mut Library) -> (r:
        Option<usize>)
        requires
            old(queue).wf(),
        ensures
            final(queue).wf(),
            match r {
                Some(i) => {
                    &&& is_consumer(old(self).views@, cmd, i as int)
                    &&& final(self).views@ == stack_after(
                        old(self).views@,
                        i as int,
                        cmd,
                        old(library)@,
                    )
                    &&& final(queue)@ == old(self).views@[i as int].queue_after(cmd, old(queue)@)
                    &&& final(library)@ == old(self).views@[i as int].library_after(
                        cmd,
                        old(library)@,
                    )
                },
                None => {
                    &&& all_decline(old(self).views@, cmd)
                    &&& final(self).views@ == old(self).views@
                    &&& final(queue)@ == old(queue)@
                    &&& final(library)@ == old(library)@
                },
            },
    {
        let mut i: usize = self.views.len();
        while i > 0
            invariant
                i <= self.views@.len(),
                self.views@ == old(self).views@,
                queue.wf(),
                queue@ == old(queue)@,
                library@ == old(library)@,
                forall|j: int| i <= j < self.views@.len() ==> !(#[trigger] self.views@[j]).consumes(cmd),
            decreases i,
        {
            i -= 1;
            let ghost before = self.views@;
            let mut view = self.views.remove(i);
            let result = view.on_command(cmd, queue, library);
            self.views.insert(i, view);
            assert(self.views@ =~= before.update(i as int, before[i as int].after(cmd, old(library)@)));
            match result {
                CommandResult::Consumed(follow_up) => {
                    match follow_up {
                        Some(FollowUp::Push(screen)) => {
                            self.views.push(screen);
                        },
                        Some(FollowUp::Pop) => {
                            let _gone = self.views.remove(i);
                        },
                        None => {},
                    }
                    return Some(i);
                },
                CommandResult::Ignored => {
                    assert(before[i as int].after(cmd, old(library)@) == before[i as int]);
                    assert(self.views@ =~= before);
                },
            }
        }
        None
    }
}

/// A command that a view consumes is never offered further down: every view
/// below the consumer is afterwards what it was.
pub proof fn lemma_consumed_stops(
    views: Seq<Screen>,
    i: int,
    cmd: Command,
    l: LibraryView,
    j: int,
)
    requires
        is_consumer(views, cmd, i),
        0 <= j < i,
    ensures
        stack_after(views, i, cmd, l).len() > j,
        stack_after(views, i, cmd, l)[j] == views[j],
{
}

/// A dialog on top of the stack owns the input: it is the consumer of every
/// command, and on confirm or cancel it leaves the stack, so that the views
/// beneath it stand as they were.
pub proof fn lemma_dialog_owns_input(views: Seq<Screen>, cmd: Command, l: LibraryView)
    requires
        views.len() > 0,
        views.last() is Modal,
    ensures
        is_consumer(views, cmd, views.len() - 1),
        Modal::closes(cmd) ==> stack_after(views, views.len() - 1, cmd, l) == views.drop_last(),
        !Modal::closes(cmd) ==> stack_after(views, views.len() - 1, cmd, l) == views,
{
    let top = views.len() - 1;
    assert(views.update(top, views[top].after(cmd, l)) =~= views);
    assert(views.remove(top) =~= views.drop_last());
}

/// The consumer of a command is unique: it is the topmost view that takes it.
pub proof fn lemma_consumer_unique(views: Seq<Screen>, cmd: Command, i: int, k: int)
    requires
        is_consumer(views, cmd, i),
        is_consumer(views, cmd, k),
    ensures
        i == k,
{
}

/// A view that declines a command is left as it was, and so are the queue and
/// the library.
pub proof fn lemma_declined_changes_nothing(
    view: Screen,
    cmd: Command,
    q: QueueView,
    l: LibraryView,
)
    requires
        !view.consumes(cmd),
    ensures
        view.answer(cmd, l) == CommandResult::Ignored,
        view.after(cmd, l) == view,
        view.queue_after(cmd, q) == q,
        view.library_after(cmd, l) == l,
{
}

} // verus!
