//! Decisions of the event loop: which window event stays pending while a
//! batch of them arrives, what the loop does with the pending one, and how
//! it reacts to messages of the pipeline bus.

use vstd::prelude::*;

verus! {

/// An event of the window. `S` is the set of window states that comes with
/// a configure event; the loop hands it on unread.
#[derive(Debug)]
pub enum WindowEvent<S> {
    /// The window was given a new state, and possibly a new size.
    Configure { new_size: Option<(u32, u32)>, states: S },
    /// The user asked to close the window.
    Close,
    /// The decorations must be drawn again.
    Refresh,
}

impl<S> WindowEvent<S> {
    /// How urgent an event is: a close request goes before a configure
    /// event, which goes before a refresh.
    pub open spec fn priority(self) -> int {
        match self {
            WindowEvent::Refresh => 0,
            WindowEvent::Configure { .. } => 1,
            WindowEvent::Close => 2,
        }
    }
}

/// A new event takes the place of the pending one unless the pending one
/// is more urgent.
pub open spec fn replaces<S>(evt: WindowEvent<S>, pending: Option<WindowEvent<S>>) -> bool {
    match pending {
        None => true,
        Some(p) => evt.priority() >= p.priority(),
    }
}

/// The pending event once `evt` has arrived.
pub open spec fn queued<S>(pending: Option<WindowEvent<S>>, evt: WindowEvent<S>) -> Option<
    WindowEvent<S>,
> {
    if replaces(evt, pending) {
        Some(evt)
    } else {
        pending
    }
}

/// The pending event once all of `events` have arrived in order, with
/// nothing pending before.
pub open spec fn queued_all<S>(events: Seq<WindowEvent<S>>) -> Option<WindowEvent<S>>
    decreases events.len(),
{
    if events.len() == 0 {
        None
    } else {
        queued(queued_all(events.drop_last()), events.last())
    }
}

/// Decides whether `evt` takes the place of the pending event.
pub fn should_replace<S>(evt: &WindowEvent<S>, pending: &Option<WindowEvent<S>>) -> (replace: bool)
    ensures
        replace == replaces(*evt, *pending),
{
    match (evt, pending) {
        (_, None) => true,
        (_, Some(WindowEvent::Refresh)) => true,
        (WindowEvent::Configure { .. }, Some(WindowEvent::Configure { .. })) => true,
        (WindowEvent::Close, _) => true,
        _ => false,
    }
}

/// Takes in an event of the window: it becomes the pending one unless a
/// more urgent one is pending already.
pub fn queue_event<S>(pending: &mut Option<WindowEvent<S>>, evt: WindowEvent<S>)
    ensures
        *final(pending) == queued(*old(pending), evt),
{
    if should_replace(&evt, pending) {
        *pending = Some(evt);
    }
}

/// After a batch of events the pending one is the last of those with the
/// highest priority in the batch.
pub proof fn lemma_queue_keeps_last_most_urgent<S>(events: Seq<WindowEvent<S>>)
    requires
        events.len() > 0,
    ensures
        exists|i: int|
            {
                &&& 0 <= i < events.len()
                &&& queued_all(events) == Some(#[trigger] events[i])
                &&& forall|j: int| 0 <= j < events.len() ==> events[j].priority() <= events[i].priority()
                &&& forall|j: int| i < j < events.len() ==> events[j].priority() < events[i].priority()
            },
    decreases events.len(),
{
    let last = events.len() - 1;
    let front = events.drop_last();
    if front.len() == 0 {
        assert(queued_all(front) == None::<WindowEvent<S>>);
        assert(queued_all(events) == Some(events[last]));
    } else {
        lemma_queue_keeps_last_most_urgent(front);
        let i = choose|i: int|
            {
                &&& 0 <= i < front.len()
                &&& queued_all(front) == Some(#[trigger] front[i])
                &&& forall|j: int| 0 <= j < front.len() ==> front[j].priority() <= front[i].priority()
                &&& forall|j: int| i < j < front.len() ==> front[j].priority() < front[i].priority()
            };
        assert(forall|j: int| 0 <= j < front.len() ==> front[j] == events[j]);
        if replaces(events[last], queued_all(front)) {
            assert(queued_all(events) == Some(events[last]));
        } else {
            assert(queued_all(events) == Some(events[i]));
        }
    }
}

/// What the loop does before it waits for events again.
#[derive(Debug)]
pub enum LoopStep<S> {
    /// Leave the loop.
    Exit,
    /// Draw the decorations again and commit the surface.
    Refresh,
    /// Resize the window if a size came with the event, report its states,
    /// draw the decorations again and redraw the contents in `dimensions`.
    Reconfigure { resize: Option<(u32, u32)>, states: S, dimensions: (u32, u32) },
    /// Nothing is pending.
    Idle,
}

/// The step that handles the pending event `action` for a window whose
/// contents have the size `dimensions`.
pub open spec fn step_for<S>(action: Option<WindowEvent<S>>, dimensions: (u32, u32)) -> LoopStep<S> {
    match action {
        Some(WindowEvent::Close) => LoopStep::Exit,
        Some(WindowEvent::Refresh) => LoopStep::Refresh,
        Some(WindowEvent::Configure { new_size, states }) => LoopStep::Reconfigure {
            resize: new_size,
            states,
            dimensions: match new_size {
                Some(size) => size,
                None => dimensions,
            },
        },
        None => LoopStep::Idle,
    }
}

/// Decides what the loop does with the pending event.
pub fn next_step<S>(action: Option<WindowEvent<S>>, dimensions: (u32, u32)) -> (step: LoopStep<S>)
    ensures
        step == step_for(action, dimensions),
{
    match action {
        Some(WindowEvent::Close) => LoopStep::Exit,
        Some(WindowEvent::Refresh) => LoopStep::Refresh,
        Some(WindowEvent::Configure { new_size, states }) => {
            let new_dimensions = match new_size {
                Some(size) => size,
                None => dimensions,
            };
            LoopStep::Reconfigure { resize: new_size, states, dimensions: new_dimensions }
        },
        None => LoopStep::Idle,
    }
}

/// Kind of a message on the bus of the pipeline.
#[derive(Clone, Copy, Debug, PartialEq, Eq, Structural)]
pub enum BusMessage {
    /// The stream has ended.
    Eos,
    /// An element reported an error.
    Error,
    /// Any other message.
    Other,
}

/// What the watcher of the bus does about a message, besides reporting it.
#[derive(Clone, Copy, Debug, PartialEq, Eq, Structural)]
pub struct BusReaction {
    /// Shut the pipeline down.
    pub stop_pipeline: bool,
    /// Stay on the bus for further messages.
    pub keep_watching: bool,
}

/// Decides the reaction to a message on the bus: an error stops the
/// pipeline, and the watcher stays on the bus whatever came.
pub fn on_bus_message(message: BusMessage) -> (reaction: BusReaction)
    ensures
        reaction.stop_pipeline == (message == BusMessage::Error),
        reaction.keep_watching,
{
    match message {
        BusMessage::Error => BusReaction { stop_pipeline: true, keep_watching: true },
        _ => BusReaction { stop_pipeline: false, keep_watching: true },
    }
}

} // verus!
