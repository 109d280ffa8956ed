//! Telling a response that was read to its end from one that was abandoned.
//!
//! The agent instance cannot see that a client has gone away. The wrapper around the outbound
//! sequence of response items can: it is discarded either after the sequence has signalled
//! its end, or before. [`DrainWatch`] is the memory of that wrapper. It asks for the agent
//! instance to be cancelled exactly when the wrapper is discarded before the end was seen.

use vstd::prelude::*;

verus! {

/// What happens to the wrapper of an outbound sequence.
#[derive(Clone, Copy, Debug, PartialEq, Eq, Structural)]
pub enum StreamEvent {
    /// The sequence has handed out an item.
    Item,
    /// The sequence has signalled that no item is left.
    End,
    /// The wrapper is discarded.
    Discard,
}

/// What the one who discards the wrapper has to do.
#[derive(Clone, Copy, Debug, PartialEq, Eq, Structural)]
pub enum Disposal {
    /// Cancel the agent instance: its client is gone.
    Cancel,
    /// Nothing: the response was read to its end, or the cancellation was asked for before.
    Nothing,
}

/// The state of a watch: whether the end of the sequence was seen, and whether the wrapper
/// was discarded.
pub struct WatchView {
    pub drained: bool,
    pub discarded: bool,
}

impl WatchView {
    /// The state of a new watch.
    pub open spec fn fresh() -> WatchView {
        WatchView { drained: false, discarded: false }
    }

    /// The state after `event`.
    pub open spec fn after(self, event: StreamEvent) -> WatchView {
        match event {
            StreamEvent::Item => self,
            StreamEvent::End => WatchView { drained: true, ..self },
            StreamEvent::Discard => WatchView { discarded: true, ..self },
        }
    }

    /// Whether `event` calls for a cancellation in this state: the first discard does, unless
    /// the end was seen.
    pub open spec fn cancels(self, event: StreamEvent) -> bool {
        event == StreamEvent::Discard && !self.drained && !self.discarded
    }

    /// The number of cancellations that `events` call for, one after the other, from this
    /// state on.
    pub open spec fn cancellations(self, events: Seq<StreamEvent>) -> nat
        decreases events.len(),
    {
        if events.len() == 0 {
            0
        } else {
            (if self.cancels(events.first()) {
                1nat
            } else {
                0nat
            }) + self.after(events.first()).cancellations(events.drop_first())
        }
    }
}

/// The memory of the wrapper around one outbound sequence.
pub struct DrainWatch {
    drained: bool,
    discarded: bool,
}

impl View for DrainWatch {
    type V = WatchView;

    closed spec fn view(&self) -> WatchView {
        WatchView { drained: self.drained, discarded: self.discarded }
    }
}

impl DrainWatch {
    /// A watch on a sequence of which nothing was read yet.
    pub fn new() -> (watch: Self)
        ensures
            watch@ == WatchView::fresh(),
    {
        DrainWatch { drained: false, discarded: false }
    }

    /// Whether the end of the sequence was seen.
    pub fn drained(&self) -> (drained: bool)
        ensures
            drained == self@.drained,
    {
        self.drained
    }

    /// Notes that the sequence has handed out an item.
    pub fn item(&mut self)
        ensures
            final(self)@ == old(self)@.after(StreamEvent::Item),
    {
    }

    /// Notes that the sequence has signalled its end.
    pub fn end(&mut self)
        ensures
            final(self)@ == old(self)@.after(StreamEvent::End),
    {
        self.drained = true;
    }

    /// Notes that the wrapper is discarded, and says what is to be done about it.
    pub fn discard(&mut self) -> (disposal: Disposal)
        ensures
            final(self)@ == old(self)@.after(StreamEvent::Discard),
            disposal == (if old(self)@.cancels(StreamEvent::Discard) {
                Disposal::Cancel
            } else {
                Disposal::Nothing
            }),
    {
        let disposal = if !self.drained && !self.discarded {
            Disposal::Cancel
        } else {
            Disposal::Nothing
        };
        self.discarded = true;
        disposal
    }
}

/// Once the wrapper is discarded, nothing calls for a cancellation any more.
pub proof fn law_no_cancellation_after_discard(state: WatchView, events: Seq<StreamEvent>)
    requires
        state.discarded,
    ensures
        state.cancellations(events) == 0,
    decreases events.len(),
{
    if events.len() > 0 {
        law_no_cancellation_after_discard(state.after(events.first()), events.drop_first());
    }
}

/// Once the end of the sequence was seen, nothing calls for a cancellation any more.
pub proof fn law_no_cancellation_after_end(state: WatchView, events: Seq<StreamEvent>)
    requires
        state.drained,
    ensures
        state.cancellations(events) == 0,
    decreases events.len(),
{
    if events.len() > 0 {
        law_no_cancellation_after_end(state.after(events.first()), events.drop_first());
    }
}

/// Over the whole life of a wrapper, whatever happens to it and in whatever order, the agent
/// instance is cancelled once where the wrapper is discarded before the sequence has
/// signalled its end, and not at all where the end comes first or the wrapper is never
/// discarded.
///
/// `first` is the position of the first event that is an end or a discard, `events.len()`
/// where there is none.
pub proof fn law_cancel_once_on_disconnect(events: Seq<StreamEvent>, first: int)
    requires
        0 <= first <= events.len(),
        forall|i: int| 0 <= i < first ==> events[i] == StreamEvent::Item,
        first < events.len() ==> events[first] != StreamEvent::Item,
    ensures
        WatchView::fresh().cancellations(events) == (if first < events.len() && events[first]
            == StreamEvent::Discard {
            1nat
        } else {
            0nat
        }),
    decreases events.len(),
{
    let start = WatchView::fresh();
    if events.len() > 0 {
        let rest = events.drop_first();
        if first == 0 {
            if events[0] == StreamEvent::Discard {
                law_no_cancellation_after_discard(start.after(events[0]), rest);
            } else {
                law_no_cancellation_after_end(start.after(events[0]), rest);
            }
        } else {
            assert(start.after(events[0]) == start);
            law_cancel_once_on_disconnect(rest, first - 1);
        }
    }
}

} // verus!
