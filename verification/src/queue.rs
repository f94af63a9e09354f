//! The play queue: what plays, in what order, and at what position.

use vstd::prelude::*;
use crate::playable::{views, Playable, PlayableView};

verus! {

/// Whether the player is running.
#[derive(Clone, Copy, Debug, PartialEq, Eq, Structural)]
pub enum PlayState {
    Stopped,
    Playing,
    Paused,
}

/// What happens when the current item ends.
#[derive(Clone, Copy, Debug, PartialEq, Eq, Structural)]
pub enum RepeatSetting {
    Off,
    Track,
    Playlist,
}

/// The queue as a mathematical value.
pub struct QueueView {
    pub items: Seq<PlayableView>,
    pub current: Option<int>,
    pub state: PlayState,
    pub shuffle: bool,
    pub repeat: RepeatSetting,
    pub reshuffle_due: bool,
    pub repeat_bypassed: bool,
}

impl QueueView {
    /// The position, if set, points at an item.
    pub open spec fn wf(self) -> bool {
        match self.current {
            Some(i) => 0 <= i < self.items.len(),
            None => true,
        }
    }

    /// Where an item goes that is to play next: right behind the current one,
    /// or at the end while no position is set.
    pub open spec fn insert_point(self) -> int {
        match self.current {
            Some(i) => i + 1,
            None => self.items.len() as int,
        }
    }

    /// The item at the current position.
    pub open spec fn current_item(self) -> Option<PlayableView> {
        match self.current {
            Some(i) => Some(self.items[i]),
            None => None,
        }
    }

    /// The queue with `item` at its end.
    pub open spec fn append(self, item: PlayableView) -> QueueView {
        QueueView { items: self.items.push(item), ..self }
    }

    /// The queue with `run` right behind the current position.
    pub open spec fn append_next(self, run: Seq<PlayableView>) -> QueueView {
        let at = self.insert_point();
        QueueView {
            items: self.items.subrange(0, at) + run + self.items.subrange(
                at,
                self.items.len() as int,
            ),
            ..self
        }
    }

    /// The queue with `run` at its end.
    pub open spec fn append_all(self, run: Seq<PlayableView>) -> QueueView {
        QueueView { items: self.items + run, ..self }
    }

    /// The queue after `run` was put right behind the current position and
    /// its first item started.
    pub open spec fn play_run(self, run: Seq<PlayableView>) -> QueueView {
        self.append_next(run).play(self.insert_point(), true, false)
    }

    /// The queue with `item` right behind the current position.
    pub open spec fn insert_after_current(self, item: PlayableView) -> QueueView {
        QueueView { items: self.items.insert(self.insert_point(), item), ..self }
    }

    /// The queue after a request to play the item at `index`. An index past
    /// the end moves nothing; a new shuffle order is due whenever one was
    /// asked for while shuffling.
    pub open spec fn play(self, index: int, reshuffle: bool, ignore_repeat: bool) -> QueueView {
        let due = self.reshuffle_due || (reshuffle && self.shuffle);
        if 0 <= index < self.items.len() {
            QueueView {
                current: Some(index),
                state: PlayState::Playing,
                reshuffle_due: due,
                repeat_bypassed: ignore_repeat,
                ..self
            }
        } else {
            QueueView { reshuffle_due: due, ..self }
        }
    }

    /// The queue without the item at `index`. The position follows its item;
    /// where the current item itself leaves, the next one takes its place, and
    /// the queue stops with no position if it was the last.
    pub open spec fn remove(self, index: int) -> QueueView {
        if 0 <= index < self.items.len() {
            let items = self.items.remove(index);
            match self.current {
                Some(c) => if index < c {
                    QueueView { items, current: Some(c - 1), ..self }
                } else if index == c && c == self.items.len() - 1 {
                    QueueView { items, current: None, state: PlayState::Stopped, ..self }
                } else {
                    QueueView { items, ..self }
                },
                None => QueueView { items, ..self },
            }
        } else {
            self
        }
    }
}

/// The play queue. `current`, when set, is the index of an item of `queue`.
#[derive(Debug, PartialEq, Eq)]
pub struct Queue {
    pub queue: Vec<Playable>,
    pub current: Option<usize>,
    pub state: PlayState,
    pub shuffle: bool,
    pub repeat: RepeatSetting,
    /// A new shuffle order was asked for and has not been drawn yet.
    pub reshuffle_due: bool,
    /// The last transition was made regardless of repeat-one.
    pub repeat_bypassed: bool,
}

impl View for Queue {
    type V = QueueView;

    open spec fn view(&self) -> QueueView {
        QueueView {
            items: views(self.queue@),
            current: match self.current {
                Some(i) => Some(i as int),
                None => None,
            },
            state: self.state,
            shuffle: self.shuffle,
            repeat: self.repeat,
            reshuffle_due: self.reshuffle_due,
            repeat_bypassed: self.repeat_bypassed,
        }
    }
}

impl Queue {
    /// The position, if set, points at an item.
    pub open spec fn wf(&self) -> bool {
        self@.wf()
    }

    /// An empty, stopped queue.
    pub fn new() -> (r: Queue)
        ensures
            r.wf(),
            r@.items.len() == 0,
            r@.current.is_none(),
            r@.state == PlayState::Stopped,
            !r@.shuffle,
            r@.repeat == RepeatSetting::Off,
            !r@.reshuffle_due,
            !r@.repeat_bypassed,
    {
        Queue {
            queue: Vec::new(),
            current: None,
            state: PlayState::Stopped,
            shuffle: false,
            repeat: RepeatSetting::Off,
            reshuffle_due: false,
            repeat_bypassed: false,
        }
    }

    /// The number of items.
    pub fn len(&self) -> (r: usize)
        ensures
            r == self@.items.len(),
    {
        self.queue.len()
    }

    /// The current position.
    pub fn get_current_index(&self) -> (r: Option<usize>)
        ensures
            r == self.current,
    {
        self.current
    }

    /// Adds `item` at the end; position and play state stay.
    pub fn append(&mut self, item: Playable)
        requires
            old(self).wf(),
        ensures
            final(self).wf(),
            final(self)@ == old(self)@.append(item@),
    {
        self.queue.push(item);
        assert(views(self.queue@) =~= old(self)@.items.push(item@));
    }

    /// Inserts `items` as one run right behind the current position and gives
    /// the index of the first of them.
    pub fn append_next(&mut self, items: Vec<Playable>) -> (index: usize)
        requires
            old(self).wf(),
        ensures
            final(self).wf(),
            index == old(self)@.insert_point(),
            final(self)@ == old(self)@.append_next(views(items@)),
    {
        let end: usize = self.queue.len();
        assert(self@.items.len() == end);
        let first: usize = match self.current {
            Some(i) => i + 1,
            None => end,
        };
        let mut run = items;
        let mut tail = self.queue.split_off(first);
        self.queue.append(&mut run);
        self.queue.append(&mut tail);
        assert(views(self.queue@) =~= old(self)@.append_next(views(items@)).items);
        first
    }

    /// Inserts `item` right behind the current position; nothing else moves.
    pub fn insert_after_current(&mut self, item: Playable)
        requires
            old(self).wf(),
        ensures
            final(self).wf(),
            final(self)@ == old(self)@.insert_after_current(item@),
    {
        let end: usize = self.queue.len();
        assert(self@.items.len() == end);
        let at: usize = match self.current {
            Some(i) => i + 1,
            None => end,
        };
        self.queue.insert(at, item);
        assert(views(self.queue@) =~= old(self)@.items.insert(at as int, item@));
    }

    /// Makes `index` the current position and starts playback. With
    /// `reshuffle`, a shuffling queue notes that a new order is due;
    /// `ignore_repeat` marks the transition as made regardless of repeat-one.
    pub fn play(&mut self, index: usize, reshuffle: bool, ignore_repeat: bool)
        requires
            old(self).wf(),
        ensures
            final(self).wf(),
            final(self)@ == old(self)@.play(index as int, reshuffle, ignore_repeat),
    {
        if index < self.queue.len() {
            self.current = Some(index);
            self.state = PlayState::Playing;
            self.repeat_bypassed = ignore_repeat;
        }
        if reshuffle && self.shuffle {
            self.reshuffle_due = true;
        }
    }

    /// The item at the current position; none while the queue is empty or no
    /// position is set.
    pub fn get_current(&self) -> (r: Option<Playable>)
        requires
            self.wf(),
        ensures
            match self@.current_item() {
                Some(item) => r.is_some() && r.unwrap()@ == item,
                None => r.is_none(),
            },
    {
        match self.current {
            Some(i) => Some(self.queue[i].clone()),
            None => None,
        }
    }

    /// Takes the item at `index` out of the queue.
    pub fn remove(&mut self, index: usize)
        requires
            old(self).wf(),
        ensures
            final(self).wf(),
            final(self)@ == old(self)@.remove(index as int),
    {
        if index < self.queue.len() {
            let last: usize = self.queue.len() - 1;
            let _gone = self.queue.remove(index);
            assert(views(self.queue@) =~= old(self)@.items.remove(index as int));
            match self.current {
                Some(c) => {
                    if index < c {
                        self.current = Some(c - 1);
                    } else if index == c && c == last {
                        self.current = None;
                        self.state = PlayState::Stopped;
                    }
                },
                None => {},
            }
        }
    }
}

/// Putting one item behind the current position is inserting a run of one;
/// putting one item at the end is appending a run of one.
pub proof fn lemma_single_item_runs(q: QueueView, item: PlayableView)
    requires
        q.wf(),
    ensures
        q.insert_after_current(item) == q.append_next(seq![item]),
        q.append(item) == q.append_all(seq![item]),
{
    let at = q.insert_point();
    assert(q.items.insert(at, item) =~= q.items.subrange(0, at) + seq![item] + q.items.subrange(
        at,
        q.items.len() as int,
    ));
    assert(q.items.push(item) =~= q.items + seq![item]);
}

/// Playing the index that `append_next` gave makes the first inserted item the
/// current one.
pub proof fn lemma_append_next_then_play(
    q: QueueView,
    run: Seq<PlayableView>,
    reshuffle: bool,
    ignore_repeat: bool,
)
    requires
        q.wf(),
        run.len() > 0,
    ensures
        q.append_next(run).play(q.insert_point(), reshuffle, ignore_repeat).current_item()
            == Some(run[0]),
        q.append_next(run).play(q.insert_point(), reshuffle, ignore_repeat).state
            == PlayState::Playing,
{
}

/// Playing index 0 of a queue that was empty before one append makes the
/// appended item current and the queue playing.
pub proof fn lemma_append_to_empty_then_play(
    q: QueueView,
    item: PlayableView,
    reshuffle: bool,
    ignore_repeat: bool,
)
    requires
        q.wf(),
        q.items.len() == 0,
    ensures
        q.append(item).play(0, reshuffle, ignore_repeat).current_item() == Some(item),
        q.append(item).play(0, reshuffle, ignore_repeat).state == PlayState::Playing,
{
}

/// Inserting behind the current item leaves the current item in place and
/// puts the new one right after it.
pub proof fn lemma_insert_after_current_keeps_current(q: QueueView, item: PlayableView)
    requires
        q.wf(),
        q.current.is_some(),
    ensures
        q.insert_after_current(item).current_item() == q.current_item(),
        q.insert_after_current(item).items[q.current.unwrap() + 1] == item,
        q.insert_after_current(item).items.len() == q.items.len() + 1,
        q.insert_after_current(item).state == q.state,
{
}

/// Taking out the current item hands the position to the item that followed
/// it, or to none if it was the last.
pub proof fn lemma_remove_current(q: QueueView)
    requires
        q.wf(),
        q.current.is_some(),
    ensures
        q.remove(q.current.unwrap()).wf(),
        q.current.unwrap() + 1 < q.items.len() ==> q.remove(q.current.unwrap()).current_item()
            == Some(q.items[q.current.unwrap() + 1]),
        q.current.unwrap() + 1 == q.items.len() ==> q.remove(
            q.current.unwrap(),
        ).current_item().is_none(),
{
}

} // verus!
