//! The window adapter: the implementation of the host shell's
//! window-callback contract. Every platform event is translated into an
//! event-adapter push — direct routing for window-scoped events (active
//! change, resize, quit), bubbling for content-scoped events (mouse,
//! keyboard, scroll, text, drops) — and one adapter tick is exactly one
//! pipeline pass. The adapter also bridges clipboard state between the
//! registry's clipboard service and the host's clipboard slot.

use vstd::prelude::*;

use crate::components::{ComponentKey, ComponentValue};
use crate::context::ContextProvider;
use crate::events::{Event, KeyEvent, MouseEvent, ButtonState, QueuedEvent, Route};
use crate::geometry::Rectangle;
use crate::requests::{Localization, ShellRequest, WindowRequest};
use crate::services::{opt_str_clone, opt_str_equal, Clipboard, Registry, Service, Settings};
use crate::theming::{fonts_eq, FontDef, Theme};
use crate::tree::{lemma_overlay_apart_from_root, Entity};
use crate::widgets::{BuildContext, Overlay};
use crate::world::{RenderContext, World};

verus! {

/// The view of an optional clipboard text.
pub open spec fn opt_view(v: Option<String>) -> Option<Seq<char>> {
    match v {
        Some(s) => Some(s@),
        None => None,
    }
}

/// The clipboard synchronization rule, over (internal value, cached value,
/// host slot), answering the three values after one synchronization. If
/// the internal value has diverged from the cache, a widget wrote since
/// the last sync, so the internal value is authoritative: it overwrites
/// the host slot and becomes the cache. Otherwise a filled host slot is
/// newer: it is pushed into the internal store and cached. Otherwise
/// nothing changes. Last writer wins, without timestamps.
pub open spec fn clipboard_sync(
    internal: Option<Seq<char>>,
    cached: Option<Seq<char>>,
    slot: Option<Seq<char>>,
) -> (Option<Seq<char>>, Option<Seq<char>>, Option<Seq<char>>) {
    if internal != cached {
        (internal, internal, internal)
    } else if slot is Some {
        (slot, slot, slot)
    } else {
        (internal, cached, slot)
    }
}

/// Synchronizing twice on the same host slot changes nothing the second
/// time: the rule is idempotent.
pub proof fn lemma_clipboard_sync_idempotent(
    internal: Option<Seq<char>>,
    cached: Option<Seq<char>>,
    slot: Option<Seq<char>>,
)
    ensures
        ({
            let once = clipboard_sync(internal, cached, slot);
            clipboard_sync(once.0, once.1, once.2) == once
        }),
{
}

/// The internal clipboard value a registry holds, where its clipboard
/// service is registered.
pub open spec fn registry_clip(reg: Registry) -> Option<Seq<char>> {
    match reg.lookup("clipboard"@) {
        Some(Service::Clipboard(c)) => opt_view(c.value),
        _ => None,
    }
}

/// Represents a window: its entity tree wrapped in the scheduler, its
/// shared context, its service registry, and the clipboard value cached
/// at the last synchronization.
pub struct WindowAdapter {
    pub world: World,
    pub ctx: ContextProvider,
    pub registry: Registry,
    pub old_clipboard_value: Option<String>,
}

/// Everything of the adapter except the event queue is unchanged.
pub open spec fn same_except_queue(pre: WindowAdapter, post: WindowAdapter) -> bool {
    &&& post.world == pre.world
    &&& post.registry == pre.registry
    &&& post.old_clipboard_value == pre.old_clipboard_value
    &&& post.ctx.message_adapter == pre.ctx.message_adapter
    &&& post.ctx.mouse_position == pre.ctx.mouse_position
    &&& post.ctx.render_objects == pre.ctx.render_objects
    &&& post.ctx.layouts == pre.ctx.layouts
    &&& post.ctx.handlers == pre.ctx.handlers
    &&& post.ctx.states == pre.ctx.states
    &&& post.ctx.raw_window_handle == pre.ctx.raw_window_handle
    &&& post.ctx.app_name == pre.ctx.app_name
    &&& post.ctx.localization == pre.ctx.localization
}

impl WindowAdapter {
    /// The adapter's running invariant, established by the construction
    /// protocol: a well-formed tree with a root, and a clipboard service
    /// registered under its name.
    pub open spec fn wf(self) -> bool {
        &&& self.world.tree.wf()
        &&& self.world.tree.root is Some
        &&& self.registry.lookup("clipboard"@) matches Some(Service::Clipboard(_))
    }

    /// The root entity events are targeted at.
    pub open spec fn spec_root(self) -> Entity {
        self.world.tree.root->0
    }

    /// Creates a new window adapter.
    pub fn new(world: World, ctx: ContextProvider, registry: Registry) -> (r: WindowAdapter)
        ensures
            r.world == world,
            r.ctx == ctx,
            r.registry == registry,
            r.old_clipboard_value is None,
    {
        WindowAdapter { world, ctx, registry, old_clipboard_value: None }
    }

    fn root(&self) -> (r: Entity)
        requires
            self.world.tree.root is Some,
        ensures
            r == self.spec_root(),
    {
        match self.world.tree.root() {
            Option::Some(r) => r,
            Option::None => {
                proof {
                    assert(false);
                }
                Entity(0)
            },
        }
    }

    /// The host reports the window gained or lost focus: queued directly
    /// at the root, since focus changes do not bubble.
    pub fn active(&mut self, active: bool)
        requires
            old(self).wf(),
        ensures
            final(self).wf(),
            final(self).ctx.event_adapter.queue@ == old(self).ctx.event_adapter.queue@.push(
                QueuedEvent {
                    target: old(self).spec_root(),
                    event: Event::ActiveChanged { active },
                    route: Route::Direct,
                },
            ),
            same_except_queue(*old(self), *final(self)),
    {
        let root = self.root();
        self.ctx.event_adapter.push_event_direct(root, Event::ActiveChanged { active });
    }

    /// The host offers its clipboard slot for synchronization; the
    /// adapter applies the last-writer-wins rule against the registry's
    /// clipboard service and its own cache.
    pub fn clipboard_update(&mut self, value: &mut Option<String>)
        requires
            old(self).wf(),
        ensures
            final(self).wf(),
            ({
                let once = clipboard_sync(
                    registry_clip(old(self).registry),
                    opt_view(old(self).old_clipboard_value),
                    opt_view(*old(value)),
                );
                registry_clip(final(self).registry) == once.0 && opt_view(
                    final(self).old_clipboard_value,
                ) == once.1 && opt_view(*final(value)) == once.2
            }),
            forall|n: Seq<char>|
                n != "clipboard"@ ==> final(self).registry.lookup(n) == old(self).registry.lookup(
                    n,
                ),
            final(self).world == old(self).world,
            final(self).ctx == old(self).ctx,
    {
        let internal: Option<String> = match self.registry.get("clipboard") {
            Option::Some(Service::Clipboard(c)) => c.get(),
            _ => {
                proof {
                    assert(false);
                }
                None
            },
        };
        // The internal value diverged from the cache: a widget wrote, so
        // the internal value overwrites the host slot.
        if !opt_str_equal(&internal, &self.old_clipboard_value) {
            *value = internal;
            self.old_clipboard_value = opt_str_clone(value);
            return ;
        }
        // The host slot carries a value: push it into the registry's
        // clipboard service and cache it.
        let slot = opt_str_clone(value);
        match slot {
            Option::Some(v) => {
                let pushed = v.clone();
                self.registry.register(
                    "clipboard".to_owned(),
                    Service::Clipboard(Clipboard { value: Some(pushed) }),
                );
                self.old_clipboard_value = Some(v);
            },
            Option::None => {},
        }
    }

    /// The host dropped a file on the window: bubbles from the root,
    /// reporting the cached mouse position.
    pub fn file_drop_event(&mut self, file_name: String)
        requires
            old(self).wf(),
        ensures
            final(self).wf(),
            final(self).ctx.event_adapter.queue@ == old(self).ctx.event_adapter.queue@.push(
                QueuedEvent {
                    target: old(self).spec_root(),
                    event: Event::DropFile { file_name, position: old(self).ctx.mouse_position },
                    route: Route::Bubble,
                },
            ),
            same_except_queue(*old(self), *final(self)),
    {
        let root = self.root();
        let position = self.ctx.mouse_position;
        self.ctx.event_adapter.push_event(root, Event::DropFile { file_name, position });
    }

    /// The host dropped text on the window: bubbles from the root,
    /// reporting the cached mouse position.
    pub fn text_drop_event(&mut self, text: String)
        requires
            old(self).wf(),
        ensures
            final(self).wf(),
            final(self).ctx.event_adapter.queue@ == old(self).ctx.event_adapter.queue@.push(
                QueuedEvent {
                    target: old(self).spec_root(),
                    event: Event::DropText { text, position: old(self).ctx.mouse_position },
                    route: Route::Bubble,
                },
            ),
            same_except_queue(*old(self), *final(self)),
    {
        let root = self.root();
        let position = self.ctx.mouse_position;
        self.ctx.event_adapter.push_event(root, Event::DropText { text, position });
    }

    /// A key went up or down: bubbles the matching key event from the
    /// root.
    pub fn key_event(&mut self, event: KeyEvent)
        requires
            old(self).wf(),
        ensures
            final(self).wf(),
            final(self).ctx.event_adapter.queue@ == old(self).ctx.event_adapter.queue@.push(
                QueuedEvent {
                    target: old(self).spec_root(),
                    event: (match event.state {
                        ButtonState::Up => Event::KeyUp { event },
                        ButtonState::Down => Event::KeyDown { event },
                    }),
                    route: Route::Bubble,
                },
            ),
            same_except_queue(*old(self), *final(self)),
    {
        let root = self.root();
        match event.state {
            ButtonState::Up => self.ctx.event_adapter.push_event(root, Event::KeyUp { event }),
            ButtonState::Down => self.ctx.event_adapter.push_event(
                root,
                Event::KeyDown { event },
            ),
        }
    }

    /// The mouse moved: the position is cached for non-move events, and a
    /// move event bubbles from the root.
    pub fn mouse(&mut self, x: u64, y: u64)
        requires
            old(self).wf(),
        ensures
            final(self).wf(),
            final(self).ctx.mouse_position == (crate::geometry::Point { x, y }),
            final(self).ctx.event_adapter.queue@ == old(self).ctx.event_adapter.queue@.push(
                QueuedEvent {
                    target: old(self).spec_root(),
                    event: Event::MouseMove { position: crate::geometry::Point { x, y } },
                    route: Route::Bubble,
                },
            ),
            final(self).world == old(self).world,
            final(self).registry == old(self).registry,
            final(self).old_clipboard_value == old(self).old_clipboard_value,
            final(self).ctx.message_adapter == old(self).ctx.message_adapter,
            final(self).ctx.render_objects == old(self).ctx.render_objects,
            final(self).ctx.layouts == old(self).ctx.layouts,
            final(self).ctx.handlers == old(self).ctx.handlers,
            final(self).ctx.states == old(self).ctx.states,
            final(self).ctx.raw_window_handle == old(self).ctx.raw_window_handle,
            final(self).ctx.app_name == old(self).ctx.app_name,
            final(self).ctx.localization == old(self).ctx.localization,
    {
        let root = self.root();
        let position = crate::geometry::Point::new(x, y);
        self.ctx.mouse_position = position;
        self.ctx.event_adapter.push_event(root, Event::MouseMove { position });
    }

    /// A mouse button went up or down: a release bubbles both the
    /// targeted release and the global release, in that order; a press
    /// bubbles one press event.
    pub fn mouse_event(&mut self, event: MouseEvent)
        requires
            old(self).wf(),
        ensures
            final(self).wf(),
            event.state is Up ==> final(self).ctx.event_adapter.queue@ == old(
                self,
            ).ctx.event_adapter.queue@.push(
                QueuedEvent {
                    target: old(self).spec_root(),
                    event: Event::MouseUp { position: event.position, button: event.button },
                    route: Route::Bubble,
                },
            ).push(
                QueuedEvent {
                    target: old(self).spec_root(),
                    event: Event::GlobalMouseUp { position: event.position, button: event.button },
                    route: Route::Bubble,
                },
            ),
            event.state is Down ==> final(self).ctx.event_adapter.queue@ == old(
                self,
            ).ctx.event_adapter.queue@.push(
                QueuedEvent {
                    target: old(self).spec_root(),
                    event: Event::MouseDown { position: event.position, button: event.button },
                    route: Route::Bubble,
                },
            ),
            same_except_queue(*old(self), *final(self)),
    {
        let root = self.root();
        match event.state {
            ButtonState::Up => {
                self.ctx.event_adapter.push_event(
                    root,
                    Event::MouseUp { position: event.position, button: event.button },
                );
                self.ctx.event_adapter.push_event(
                    root,
                    Event::GlobalMouseUp { position: event.position, button: event.button },
                );
            },
            ButtonState::Down => self.ctx.event_adapter.push_event(
                root,
                Event::MouseDown { position: event.position, button: event.button },
            ),
        }
    }

    /// The mouse position cached by the last move callback.
    pub fn mouse_position(&self) -> (r: crate::geometry::Point)
        ensures
            r == self.ctx.mouse_position,
    {
        self.ctx.mouse_position
    }

    /// The host asks the window to quit: queued directly at the root.
    pub fn quit_event(&mut self)
        requires
            old(self).wf(),
        ensures
            final(self).wf(),
            final(self).ctx.event_adapter.queue@ == old(self).ctx.event_adapter.queue@.push(
                QueuedEvent {
                    target: old(self).spec_root(),
                    event: Event::Quit,
                    route: Route::Direct,
                },
            ),
            same_except_queue(*old(self), *final(self)),
    {
        let root = self.root();
        self.ctx.event_adapter.push_event_direct(root, Event::Quit);
    }

    /// The host resized the window: queued directly at the root; the next
    /// event-state pass rebinds the root bounds to the new extent.
    pub fn resize(&mut self, width: u64, height: u64)
        requires
            old(self).wf(),
        ensures
            final(self).wf(),
            final(self).ctx.event_adapter.queue@ == old(self).ctx.event_adapter.queue@.push(
                QueuedEvent {
                    target: old(self).spec_root(),
                    event: Event::Resize { width, height },
                    route: Route::Direct,
                },
            ),
            same_except_queue(*old(self), *final(self)),
    {
        let root = self.root();
        self.ctx.event_adapter.push_event_direct(root, Event::Resize { width, height });
    }

    /// The host scrolled: bubbles a scroll event from the root.
    pub fn scroll(&mut self, delta_x: u64, delta_y: u64)
        requires
            old(self).wf(),
        ensures
            final(self).wf(),
            final(self).ctx.event_adapter.queue@ == old(self).ctx.event_adapter.queue@.push(
                QueuedEvent {
                    target: old(self).spec_root(),
                    event: Event::Scroll {
                        delta: crate::geometry::Point { x: delta_x, y: delta_y },
                    },
                    route: Route::Bubble,
                },
            ),
            same_except_queue(*old(self), *final(self)),
    {
        let root = self.root();
        let delta = crate::geometry::Point::new(delta_x, delta_y);
        self.ctx.event_adapter.push_event(root, Event::Scroll { delta });
    }

    /// The host assigns the raw platform handle of the created window.
    pub fn set_raw_window_handle(&mut self, raw_window_handle: raw_window_handle::RawWindowHandle)
        requires
            old(self).wf(),
        ensures
            final(self).wf(),
            final(self).ctx.raw_window_handle == Some(raw_window_handle),
            final(self).ctx.event_adapter == old(self).ctx.event_adapter,
            final(self).world == old(self).world,
            final(self).registry == old(self).registry,
            final(self).old_clipboard_value == old(self).old_clipboard_value,
            final(self).ctx.message_adapter == old(self).ctx.message_adapter,
            final(self).ctx.mouse_position == old(self).ctx.mouse_position,
            final(self).ctx.render_objects == old(self).ctx.render_objects,
            final(self).ctx.layouts == old(self).ctx.layouts,
            final(self).ctx.handlers == old(self).ctx.handlers,
            final(self).ctx.states == old(self).ctx.states,
            final(self).ctx.app_name == old(self).ctx.app_name,
            final(self).ctx.localization == old(self).ctx.localization,
    {
        self.ctx.raw_window_handle = Some(raw_window_handle);
    }

    /// The host delivered composed text input: bubbles from the root.
    pub fn text_input(&mut self, text: String)
        requires
            old(self).wf(),
        ensures
            final(self).wf(),
            final(self).ctx.event_adapter.queue@ == old(self).ctx.event_adapter.queue@.push(
                QueuedEvent {
                    target: old(self).spec_root(),
                    event: Event::TextInput { text },
                    route: Route::Bubble,
                },
            ),
            same_except_queue(*old(self), *final(self)),
    {
        let root = self.root();
        self.ctx.event_adapter.push_event(root, Event::TextInput { text });
    }

    /// One adapter tick is exactly one pipeline pass over the window's
    /// tree, drawn into the host-supplied render context.
    pub fn run(&mut self, render_context: &mut RenderContext)
        requires
            old(self).wf(),
        ensures
            final(self).wf(),
            final(self).world.init_done,
            old(self).world.init_done ==> final(self).world.journal@ == old(
                self,
            ).world.journal@ + seq![
                crate::world::Stage::EventState,
                crate::world::Stage::Layout,
                crate::world::Stage::PostLayout,
                crate::world::Stage::Render,
            ],
            !old(self).world.init_done ==> final(self).world.journal@ == old(
                self,
            ).world.journal@ + seq![
                crate::world::Stage::Init,
                crate::world::Stage::EventState,
                crate::world::Stage::Layout,
                crate::world::Stage::PostLayout,
                crate::world::Stage::Render,
            ],
            final(self).world.components.entries@ == crate::world::apply_events(
                old(self).world.components.entries@,
                old(self).ctx.event_adapter.queue@,
            ),
            final(self).world.deliveries@ == old(self).world.deliveries@
                + crate::world::deliveries_of(old(self).ctx.event_adapter.queue@),
            final(self).ctx.event_adapter.queue@.len() == 0,
            final(self).world.arranged == crate::world::bounds_in(
                crate::world::apply_events(
                    old(self).world.components.entries@,
                    old(self).ctx.event_adapter.queue@,
                ),
                old(self).spec_root(),
            ),
            final(render_context).frames@.len() == old(render_context).frames@.len() + 1,
            forall|i: int|
                0 <= i < old(render_context).frames@.len() ==> final(render_context).frames@[i]
                    == old(render_context).frames@[i],
            final(render_context).frames@.last().root_bounds == crate::world::bounds_in(
                crate::world::apply_events(
                    old(self).world.components.entries@,
                    old(self).ctx.event_adapter.queue@,
                ),
                old(self).spec_root(),
            ),
            final(render_context).frames@.last().draw_order@ == (match old(
                self,
            ).world.tree.overlay {
                Some(ov) => seq![old(self).spec_root(), ov],
                None => seq![old(self).spec_root()],
            }),
            final(self).world.tree == old(self).world.tree,
            final(self).registry == old(self).registry,
            final(self).old_clipboard_value == old(self).old_clipboard_value,
            final(self).ctx.message_adapter == old(self).ctx.message_adapter,
            final(self).ctx.mouse_position == old(self).ctx.mouse_position,
            final(self).ctx.raw_window_handle == old(self).ctx.raw_window_handle,
            final(self).ctx.app_name == old(self).ctx.app_name,
            final(self).ctx.localization == old(self).ctx.localization,
    {
        self.world.run(&mut self.ctx, render_context);
    }
}

/// The snapshot handed to the host shell to create the OS window, taken
/// once at construction from the root entity's components.
pub struct WindowSettings {
    pub title: String,
    pub borderless: bool,
    pub resizable: bool,
    pub always_on_top: bool,
    pub position: (u64, u64),
    pub size: (u64, u64),
    pub fonts: Vec<FontDef>,
}

/// Why the bootstrap refused a built window. Each case is a violated
/// construction precondition, surfaced as an unrecoverable signal rather
/// than a silent degradation.
#[derive(Debug)]
pub enum CreateWindowError {
    /// The built tree carries no overlay entity.
    MissingOverlay,
    /// The returned root entity is not a live, detached, non-overlay
    /// entity of the built tree.
    InvalidRoot,
    /// A window-settings component the builder was responsible for is not
    /// bound at the root entity.
    MissingComponent(ComponentKey),
}

/// The returned root entity can become the tree's root.
pub open spec fn root_candidate_ok(bc: BuildContext, window: Entity) -> bool {
    &&& bc.tree.spec_contains(window)
    &&& bc.tree.is_detached(window)
    &&& bc.tree.overlay != Some(window)
}

/// The component the settings snapshot reads under `key` is bound at
/// `window` with the kind the snapshot expects.
pub open spec fn component_present(bc: BuildContext, window: Entity, key: ComponentKey) -> bool {
    match key {
        ComponentKey::Constraint => bc.components.lookup(ComponentKey::Constraint, window)
            matches Some(ComponentValue::Constraint(_)),
        ComponentKey::Position => bc.components.lookup(ComponentKey::Position, window)
            matches Some(ComponentValue::Point(_)),
        ComponentKey::Title => bc.components.lookup(ComponentKey::Title, window) matches Some(
            ComponentValue::Text(_),
        ),
        ComponentKey::Borderless => bc.components.lookup(ComponentKey::Borderless, window)
            matches Some(ComponentValue::Flag(_)),
        ComponentKey::Resizable => bc.components.lookup(ComponentKey::Resizable, window)
            matches Some(ComponentValue::Flag(_)),
        ComponentKey::AlwaysOnTop => bc.components.lookup(ComponentKey::AlwaysOnTop, window)
            matches Some(ComponentValue::Flag(_)),
        _ => true,
    }
}

/// Every component the settings snapshot reads is bound at `window`.
pub open spec fn window_snapshot_ok(bc: BuildContext, window: Entity) -> bool {
    &&& component_present(bc, window, ComponentKey::Constraint)
    &&& component_present(bc, window, ComponentKey::Position)
    &&& component_present(bc, window, ComponentKey::Title)
    &&& component_present(bc, window, ComponentKey::Borderless)
    &&& component_present(bc, window, ComponentKey::Resizable)
    &&& component_present(bc, window, ComponentKey::AlwaysOnTop)
}

/// Finishes the construction protocol on a built tree: checks the root
/// the builder returned, takes the window-settings snapshot from its
/// components, attaches the theme and the initial bounds, installs the
/// root, and wraps everything into a runnable adapter. Succeeds exactly
/// when the builder left an overlay, a usable root entity and every
/// component the snapshot reads.
pub fn finish_window(
    bc: BuildContext,
    window: Entity,
    registry: Registry,
    receiver: std::sync::mpsc::Receiver<WindowRequest>,
) -> (r: Result<
    (WindowAdapter, WindowSettings, std::sync::mpsc::Receiver<WindowRequest>),
    CreateWindowError,
>)
    requires
        bc.wf(),
        registry.lookup("clipboard"@) matches Some(Service::Clipboard(_)),
    ensures
        r is Ok <==> bc.tree.overlay is Some && root_candidate_ok(bc, window)
            && window_snapshot_ok(bc, window),
        bc.tree.overlay is None ==> r == Err::<
            (WindowAdapter, WindowSettings, std::sync::mpsc::Receiver<WindowRequest>),
            CreateWindowError,
        >(CreateWindowError::MissingOverlay),
        bc.tree.overlay is Some && !root_candidate_ok(bc, window) ==> r == Err::<
            (WindowAdapter, WindowSettings, std::sync::mpsc::Receiver<WindowRequest>),
            CreateWindowError,
        >(CreateWindowError::InvalidRoot),
        r matches Err(CreateWindowError::MissingComponent(k)) ==> !component_present(
            bc,
            window,
            k,
        ),
        r matches Ok(t) ==> t.0.wf() && t.0.world.tree.root == Some(window)
            && t.0.world.tree.overlay == bc.tree.overlay && t.0.registry == registry
            && t.0.ctx == bc.ctx && t.0.old_clipboard_value is None && !t.0.world.init_done
            && !t.0.world.cleanup_done && t.0.world.journal@.len() == 0
            && t.0.world.deliveries@.len() == 0,
        r matches Ok(t) ==> !t.0.world.tree.is_ancestor_of(window, bc.tree.overlay->0)
            && !t.0.world.tree.is_ancestor_of(bc.tree.overlay->0, window) && window
            != bc.tree.overlay->0,
        r matches Ok(t) ==> (bc.components.lookup(ComponentKey::Title, window) matches Some(
            ComponentValue::Text(s),
        ) && t.1.title@ == s@),
        r matches Ok(t) ==> bc.components.lookup(ComponentKey::Borderless, window) == Some(
            ComponentValue::Flag(t.1.borderless),
        ) && bc.components.lookup(ComponentKey::Resizable, window) == Some(
            ComponentValue::Flag(t.1.resizable),
        ) && bc.components.lookup(ComponentKey::AlwaysOnTop, window) == Some(
            ComponentValue::Flag(t.1.always_on_top),
        ),
        r matches Ok(t) ==> (bc.components.lookup(ComponentKey::Position, window) matches Some(
            ComponentValue::Point(p),
        ) && t.1.position == (p.x, p.y)),
        r matches Ok(t) ==> (bc.components.lookup(ComponentKey::Constraint, window) matches Some(
            ComponentValue::Constraint(c),
        ) && t.1.size == (c.width, c.height) && t.0.world.components.lookup(
            ComponentKey::Bounds,
            window,
        ) == Some(
            ComponentValue::Rectangle(
                Rectangle { x: 0u64, y: 0u64, width: c.width, height: c.height },
            ),
        )),
        r matches Ok(t) ==> (t.0.world.components.lookup(ComponentKey::Theme, window)
            matches Some(ComponentValue::Theme(th)) && fonts_eq(th.fonts@, bc.theme.fonts@)),
        r matches Ok(t) ==> fonts_eq(t.1.fonts@, bc.theme.fonts@),
        r matches Ok(t) ==> forall|k: ComponentKey, e: Entity|
            !((k == ComponentKey::Theme || k == ComponentKey::Bounds) && e == window)
                ==> t.0.world.components.lookup(k, e) == bc.components.lookup(k, e),
{
    let BuildContext { mut tree, mut components, ctx, theme } = bc;
    let overlay = match tree.overlay() {
        Option::Some(ov) => ov,
        Option::None => {
            return Err(CreateWindowError::MissingOverlay);
        },
    };
    if !tree.contains(window) {
        return Err(CreateWindowError::InvalidRoot);
    }
    match tree.parent_of(window) {
        Option::Some(_) => {
            return Err(CreateWindowError::InvalidRoot);
        },
        Option::None => {},
    }
    if overlay == window {
        return Err(CreateWindowError::InvalidRoot);
    }
    let constraint = match components.get(ComponentKey::Constraint, window) {
        Option::Some(ComponentValue::Constraint(c)) => *c,
        _ => {
            return Err(CreateWindowError::MissingComponent(ComponentKey::Constraint));
        },
    };
    let position = match components.get(ComponentKey::Position, window) {
        Option::Some(ComponentValue::Point(p)) => *p,
        _ => {
            return Err(CreateWindowError::MissingComponent(ComponentKey::Position));
        },
    };
    let title = match components.get(ComponentKey::Title, window) {
        Option::Some(ComponentValue::Text(s)) => s.clone(),
        _ => {
            return Err(CreateWindowError::MissingComponent(ComponentKey::Title));
        },
    };
    let borderless = match components.get(ComponentKey::Borderless, window) {
        Option::Some(ComponentValue::Flag(b)) => *b,
        _ => {
            return Err(CreateWindowError::MissingComponent(ComponentKey::Borderless));
        },
    };
    let resizable = match components.get(ComponentKey::Resizable, window) {
        Option::Some(ComponentValue::Flag(b)) => *b,
        _ => {
            return Err(CreateWindowError::MissingComponent(ComponentKey::Resizable));
        },
    };
    let always_on_top = match components.get(ComponentKey::AlwaysOnTop, window) {
        Option::Some(ComponentValue::Flag(b)) => *b,
        _ => {
            return Err(CreateWindowError::MissingComponent(ComponentKey::AlwaysOnTop));
        },
    };
    tree.set_root(window);
    // Consume the theme: its fonts go into the settings snapshot, a copy
    // of it becomes the root's theme component.
    let theme_component = theme.duplicate();
    components.register(ComponentKey::Theme, window, ComponentValue::Theme(theme_component));
    components.register(
        ComponentKey::Bounds,
        window,
        ComponentValue::Rectangle(
            Rectangle::new(0, 0, constraint.width(), constraint.height()),
        ),
    );
    let settings = WindowSettings {
        title,
        borderless,
        resizable,
        always_on_top,
        position: (position.x(), position.y()),
        size: (constraint.width(), constraint.height()),
        fonts: theme.fonts,
    };
    let world = World::from_parts(tree, components);
    let adapter = WindowAdapter::new(world, ctx, registry);
    proof {
        lemma_overlay_apart_from_root(adapter.world.tree);
    }
    Ok((adapter, settings, receiver))
}

/// Uses the caller-supplied builder to create a new window: assembles the
/// tree, the registry with its settings and clipboard services, and the
/// context provider; builds the overlay and then the root through the
/// builder; snapshots the window settings from the root's components; and
/// wires the result into a runnable adapter. An empty application name
/// registers the settings service anonymously, without a name-derived
/// persistence path.
pub fn create_window<F: FnOnce(BuildContext) -> (BuildContext, Entity)>(
    app_name: String,
    theme: Theme,
    request_sender: std::sync::mpsc::Sender<ShellRequest>,
    create_fn: F,
    localization: Option<Localization>,
) -> (r: Result<
    (WindowAdapter, WindowSettings, std::sync::mpsc::Receiver<WindowRequest>),
    CreateWindowError,
>)
    requires
        forall|bc: BuildContext| bc.wf() ==> call_requires(create_fn, (bc,)),
        forall|bc: BuildContext, bc2: BuildContext, w: Entity|
            call_ensures(create_fn, (bc,), (bc2, w)) ==> bc2.wf() && fonts_eq(
                bc2.theme.fonts@,
                bc.theme.fonts@,
            ),
    ensures
        r matches Ok(t) ==> t.0.wf() && t.0.world.tree.root is Some && t.0.world.tree.overlay
            is Some,
        r matches Ok(t) ==> !t.0.world.tree.is_ancestor_of(
            t.0.world.tree.root->0,
            t.0.world.tree.overlay->0,
        ) && !t.0.world.tree.is_ancestor_of(t.0.world.tree.overlay->0, t.0.world.tree.root->0)
            && t.0.world.tree.root->0 != t.0.world.tree.overlay->0,
        r matches Ok(t) ==> !t.0.world.init_done && t.0.world.journal@.len() == 0
            && t.0.world.deliveries@.len() == 0 && t.0.old_clipboard_value is None,
        r matches Ok(t) ==> (t.0.registry.lookup("clipboard"@) matches Some(
            Service::Clipboard(c),
        ) && c.value is None),
        r matches Ok(t) ==> (app_name@ == Seq::<char>::empty() ==> (t.0.registry.lookup(
            "settings"@,
        ) matches Some(Service::Settings(s)) && s.app_name is None)),
        r matches Ok(t) ==> (app_name@ != Seq::<char>::empty() ==> (t.0.registry.lookup(
            "settings"@,
        ) matches Some(Service::Settings(s)) && s.app_name matches Some(n) && n@ == app_name@)),
        r matches Ok(t) ==> (t.0.world.components.lookup(ComponentKey::Title, t.0.spec_root())
            matches Some(ComponentValue::Text(s)) && t.1.title@ == s@),
        r matches Ok(t) ==> t.0.world.components.lookup(ComponentKey::Borderless, t.0.spec_root())
            == Some(ComponentValue::Flag(t.1.borderless)) && t.0.world.components.lookup(
            ComponentKey::Resizable,
            t.0.spec_root(),
        ) == Some(ComponentValue::Flag(t.1.resizable)) && t.0.world.components.lookup(
            ComponentKey::AlwaysOnTop,
            t.0.spec_root(),
        ) == Some(ComponentValue::Flag(t.1.always_on_top)),
        r matches Ok(t) ==> (t.0.world.components.lookup(ComponentKey::Position, t.0.spec_root())
            matches Some(ComponentValue::Point(p)) && t.1.position == (p.x, p.y)),
        r matches Ok(t) ==> (t.0.world.components.lookup(
            ComponentKey::Constraint,
            t.0.spec_root(),
        ) matches Some(ComponentValue::Constraint(c)) && t.1.size == (c.width, c.height)
            && t.0.world.components.lookup(ComponentKey::Bounds, t.0.spec_root()) == Some(
            ComponentValue::Rectangle(
                Rectangle { x: 0u64, y: 0u64, width: c.width, height: c.height },
            ),
        )),
        r matches Ok(t) ==> (t.0.world.components.lookup(ComponentKey::Theme, t.0.spec_root())
            matches Some(ComponentValue::Theme(th)) && fonts_eq(th.fonts@, theme.fonts@)),
        r matches Ok(t) ==> fonts_eq(t.1.fonts@, theme.fonts@),
        r is Err ==> exists|bc: BuildContext, bc2: BuildContext, w: Entity|
            call_ensures(create_fn, (bc,), (bc2, w)) && !(bc2.tree.overlay is Some
                && root_candidate_ok(bc2, w) && window_snapshot_ok(bc2, w)),
{
    let ghost entry_fonts = theme.fonts@;
    let tree = crate::tree::Tree::new();
    let components = crate::components::ComponentStore::new();
    let (sender, receiver) = std::sync::mpsc::channel();
    let mut registry = Registry::new();
    let context_provider = ContextProvider::new(
        sender,
        request_sender,
        app_name.clone(),
        localization,
    );
    // Register the window's settings service: anonymous under an empty
    // application name, named otherwise.
    if app_name.as_str().is_empty() {
        proof {
            assert(app_name@ =~= Seq::<char>::empty());
        }
        registry.register("settings".to_owned(), Service::Settings(Settings::new()));
    } else {
        registry.register(
            "settings".to_owned(),
            Service::Settings(Settings::from_name(app_name)),
        );
    }
    // Register a dedicated window-assigned clipboard.
    registry.register("clipboard".to_owned(), Service::Clipboard(Clipboard::new()));
    proof {
        reveal_strlit("settings");
        reveal_strlit("clipboard");
        assert("settings"@.len() == 8);
        assert("clipboard"@.len() == 9);
        assert("settings"@ != "clipboard"@);
    }
    // Build the overlay first, so overlay rendering is always layered
    // above root content once root-dependent systems run.
    let mut bc = BuildContext { tree, components, ctx: context_provider, theme };
    let overlay = bc.build_template(Overlay::create());
    bc.tree.set_overlay(overlay);
    // Build the root entity through the caller-supplied builder.
    proof {
        assert(bc.wf());
        assert(call_requires(create_fn, (bc,)));
        assert(fonts_eq(bc.theme.fonts@, entry_fonts));
    }
    let ghost handed = bc;
    let (bc2, window) = create_fn(bc);
    let ghost built = bc2;
    proof {
        assert(call_ensures(create_fn, (handed,), (built, window)));
        assert(built.wf());
    }
    let result = finish_window(bc2, window, registry, receiver);
    proof {
        if result is Err {
            assert(call_ensures(create_fn, (handed,), (built, window)) && !(built.tree.overlay
                is Some && root_candidate_ok(built, window) && window_snapshot_ok(
                built,
                window,
            )));
        }
        if result is Ok {
            let t = result->Ok_0;
            assert(fonts_eq(built.theme.fonts@, entry_fonts));
            crate::theming::lemma_fonts_eq_trans(t.1.fonts@, built.theme.fonts@, entry_fonts);
            let tv = t.0.world.components.lookup(ComponentKey::Theme, t.0.spec_root());
            match tv {
                Some(ComponentValue::Theme(th)) => {
                    crate::theming::lemma_fonts_eq_trans(
                        th.fonts@,
                        built.theme.fonts@,
                        entry_fonts,
                    );
                },
                _ => {},
            }
        }
    }
    result
}

} // verus!
