//! The per-window context provider: the bundle of shared services — event
//! adapter, message adapter, cached mouse position, the registries filled
//! while widgets are built, and the optional raw platform window handle —
//! threaded into every system and into widget construction. One instance is
//! constructed per window and passed explicitly; there is no process-wide
//! singleton.

use vstd::prelude::*;

use crate::events::EventAdapter;
use crate::geometry::Point;
use crate::requests::{Localization, ShellRequest, WindowRequest};
use crate::tree::Entity;
use crate::widgets::{HandlerKind, LayoutKind, RenderKind};

verus! {

/// The two sending halves a window uses for cross-window and host
/// requests: messages out to the shell's event loop, and requests to the
/// shell on behalf of this window.
pub struct MessageAdapter {
    pub window_sender: std::sync::mpsc::Sender<WindowRequest>,
    pub shell_sender: std::sync::mpsc::Sender<ShellRequest>,
}

/// The shared per-window state. Lifetime equals the window's lifetime; the
/// strict sequential pipeline makes one system at a time its single writer.
pub struct ContextProvider {
    /// The window's event queue.
    pub event_adapter: EventAdapter,
    /// The request channels toward the host shell.
    pub message_adapter: MessageAdapter,
    /// The mouse position cached on every move callback, so that non-move
    /// events can report a position without re-querying the host.
    pub mouse_position: Point,
    /// Render objects declared by built widgets, per entity.
    pub render_objects: Vec<(Entity, RenderKind)>,
    /// Layout objects declared by built widgets, per entity.
    pub layouts: Vec<(Entity, LayoutKind)>,
    /// Event handlers declared by built widgets, per entity.
    pub handlers: Vec<(Entity, HandlerKind)>,
    /// Entities that carry a long-lived state object.
    pub states: Vec<Entity>,
    /// The raw platform window handle, once the host shell assigns it.
    pub raw_window_handle: Option<raw_window_handle::RawWindowHandle>,
    /// The application name the window was created under.
    pub app_name: String,
    /// The localization choice, if any.
    pub localization: Option<Localization>,
}

impl ContextProvider {
    /// A fresh provider: empty queue, empty registries, origin mouse
    /// position, no raw handle yet.
    pub fn new(
        window_sender: std::sync::mpsc::Sender<WindowRequest>,
        shell_sender: std::sync::mpsc::Sender<ShellRequest>,
        app_name: String,
        localization: Option<Localization>,
    ) -> (r: ContextProvider)
        ensures
            r.event_adapter.queue.len() == 0,
            r.mouse_position == (Point { x: 0u64, y: 0u64 }),
            r.render_objects.len() == 0,
            r.layouts.len() == 0,
            r.handlers.len() == 0,
            r.states.len() == 0,
            r.raw_window_handle is None,
            r.app_name == app_name,
            r.localization == localization,
    {
        ContextProvider {
            event_adapter: EventAdapter::new(),
            message_adapter: MessageAdapter { window_sender, shell_sender },
            mouse_position: Point::new(0, 0),
            render_objects: Vec::new(),
            layouts: Vec::new(),
            handlers: Vec::new(),
            states: Vec::new(),
            raw_window_handle: None,
            app_name,
            localization,
        }
    }
}

/// The raw window handle type of the host platform, carried through
/// opaquely: the core stores and hands it back, never reads it.
#[verifier::external_type_specification]
#[verifier::external_body]
pub struct ExRawWindowHandle(raw_window_handle::RawWindowHandle);

} // verus!
