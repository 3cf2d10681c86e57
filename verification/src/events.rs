//! Events and the event adapter: the queue plus routing rules that turn
//! host-originated or widget-originated input into entity-targeted, ordered
//! deliveries.
//!
//! Every push records the target entity and the routing mode. A *direct*
//! event is delivered to exactly one entity with no propagation; a *bubbling*
//! event is delivered to its target and is then available to the target's
//! ancestors while the event-state pass processes it. Delivery order always
//! matches push order; delivery itself happens on the next event-state pass,
//! never within the push.

use vstd::prelude::*;

use crate::geometry::Point;
use crate::tree::Entity;

verus! {

/// Whether a button is being pressed or released.
#[derive(Clone, Copy, PartialEq, Eq, Structural, Debug)]
pub enum ButtonState {
    Up,
    Down,
}

/// The mouse button a mouse event speaks of.
#[derive(Clone, Copy, PartialEq, Eq, Structural, Debug)]
pub enum MouseButton {
    Left,
    Middle,
    Right,
}

/// A keyboard callback payload: key code plus press state.
#[derive(Clone, Copy, PartialEq, Eq, Structural, Debug)]
pub struct KeyEvent {
    pub state: ButtonState,
    pub key: u64,
}

/// A mouse-button callback payload.
#[derive(Clone, Copy, PartialEq, Eq, Structural, Debug)]
pub struct MouseEvent {
    pub state: ButtonState,
    pub button: MouseButton,
    pub position: Point,
}

/// One tree event, as it travels through the queue.
pub enum Event {
    MouseMove { position: Point },
    MouseDown { position: Point, button: MouseButton },
    MouseUp { position: Point, button: MouseButton },
    GlobalMouseUp { position: Point, button: MouseButton },
    Scroll { delta: Point },
    KeyDown { event: KeyEvent },
    KeyUp { event: KeyEvent },
    TextInput { text: String },
    DropFile { file_name: String, position: Point },
    DropText { text: String, position: Point },
    ActiveChanged { active: bool },
    Resize { width: u64, height: u64 },
    Quit,
}

/// How a queued event is routed once the event-state pass picks it up.
#[derive(Clone, Copy, PartialEq, Eq, Structural, Debug)]
pub enum Route {
    /// Delivered to exactly the target, with no propagation.
    Direct,
    /// Delivered to the target, then available to the target's ancestors.
    Bubble,
}

/// One entry of the queue: an event bound for `target` under `route`.
pub struct QueuedEvent {
    pub target: Entity,
    pub event: Event,
    pub route: Route,
}

/// The per-window event queue. Arrival order is kept; nothing is dropped
/// while the window lives, and entries still queued at teardown vanish with
/// the adapter, unobserved.
pub struct EventAdapter {
    pub queue: Vec<QueuedEvent>,
}

impl EventAdapter {
    pub fn new() -> (r: EventAdapter)
        ensures
            r.queue.len() == 0,
    {
        EventAdapter { queue: Vec::new() }
    }

    pub fn len(&self) -> (r: usize)
        ensures
            r == self.queue.len(),
    {
        self.queue.len()
    }

    /// Enqueues `event` for bubbling delivery starting at `target`.
    pub fn push_event(&mut self, target: Entity, event: Event)
        ensures
            final(self).queue@ == old(self).queue@.push(
                QueuedEvent { target, event, route: Route::Bubble },
            ),
    {
        self.queue.push(QueuedEvent { target, event, route: Route::Bubble });
    }

    /// Enqueues `event` for exactly-once delivery at `target`, bypassing
    /// propagation; meant for window-scoped events where bubbling has no
    /// meaning.
    pub fn push_event_direct(&mut self, target: Entity, event: Event)
        ensures
            final(self).queue@ == old(self).queue@.push(
                QueuedEvent { target, event, route: Route::Direct },
            ),
    {
        self.queue.push(QueuedEvent { target, event, route: Route::Direct });
    }
}

} // verus!
