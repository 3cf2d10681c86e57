use orbtk_core::components::{ComponentKey, ComponentStore, ComponentValue};
use orbtk_core::events::{ButtonState, Event, KeyEvent, MouseButton, MouseEvent, Route};
use orbtk_core::geometry::{Constraint, Point, Rectangle};
use orbtk_core::requests::{Localization, ShellRequest};
use orbtk_core::services::{Clipboard, Service};
use orbtk_core::theming::{FontDef, Theme};
use orbtk_core::tree::{Entity, Tree};
use orbtk_core::widgets::{BuildContext, Template};
use orbtk_core::window_adapter::{
    create_window, CreateWindowError, WindowAdapter, WindowSettings,
};
use orbtk_core::world::{RenderContext, Stage};
use raw_window_handle::{RawWindowHandle, WebWindowHandle};

fn demo_theme() -> Theme {
    Theme::new(vec![FontDef {
        family: String::from("MainFont"),
        source: String::from("fonts/main.ttf"),
    }])
}

fn window_template(title: &str) -> Template {
    Template::default()
        .with_property(ComponentKey::Title, ComponentValue::Text(String::from(title)))
        .with_property(ComponentKey::Borderless, ComponentValue::Flag(false))
        .with_property(ComponentKey::Resizable, ComponentValue::Flag(true))
        .with_property(ComponentKey::AlwaysOnTop, ComponentValue::Flag(false))
        .with_property(
            ComponentKey::Position,
            ComponentValue::Point(Point::new(100.0f64.to_bits(), 50.0f64.to_bits())),
        )
        .with_property(
            ComponentKey::Constraint,
            ComponentValue::Constraint(Constraint::new(800.0f64.to_bits(), 600.0f64.to_bits())),
        )
        .with_debug_name("Window")
}

fn build_demo_root(mut bc: BuildContext) -> (BuildContext, Entity) {
    let window = bc.build_template(window_template("Demo"));
    (bc, window)
}

fn demo_window(app_name: &str) -> (WindowAdapter, WindowSettings) {
    let (shell_tx, _shell_rx) = std::sync::mpsc::channel::<ShellRequest>();
    let (adapter, settings, _receiver) = create_window(
        String::from(app_name),
        demo_theme(),
        shell_tx,
        build_demo_root,
        None,
    )
    .expect("window construction");
    (adapter, settings)
}

#[test]
fn created_window_has_root_and_separate_overlay() {
    let (adapter, _settings) = demo_window("demo");
    let root = adapter.world.tree.root.expect("root");
    let overlay = adapter.world.tree.overlay.expect("overlay");
    assert_ne!(root, overlay);
    assert!(adapter.world.tree.parent_of(root).is_none());
    assert!(adapter.world.tree.parent_of(overlay).is_none());
}

#[test]
fn created_window_settings_snapshot_reads_root_components() {
    let (adapter, settings) = demo_window("demo");
    assert_eq!(settings.title.as_str(), "Demo");
    assert!(!settings.borderless);
    assert!(settings.resizable);
    assert!(!settings.always_on_top);
    assert_eq!(f64::from_bits(settings.position.0), 100.0);
    assert_eq!(f64::from_bits(settings.position.1), 50.0);
    assert_eq!(f64::from_bits(settings.size.0), 800.0);
    assert_eq!(f64::from_bits(settings.size.1), 600.0);
    assert_eq!(settings.fonts.len(), 1);
    assert_eq!(settings.fonts[0].family.as_str(), "MainFont");
    let root = adapter.world.tree.root.expect("root");
    match adapter.world.components.get(ComponentKey::Bounds, root) {
        Some(ComponentValue::Rectangle(r)) => {
            assert_eq!(*r, Rectangle::new(0, 0, 800.0f64.to_bits(), 600.0f64.to_bits()));
        }
        _ => panic!("bounds component missing"),
    }
    match adapter.world.components.get(ComponentKey::Theme, root) {
        Some(ComponentValue::Theme(th)) => assert_eq!(th.fonts[0].family.as_str(), "MainFont"),
        _ => panic!("theme component missing"),
    }
}

#[test]
fn empty_app_name_registers_anonymous_settings() {
    let (adapter, _settings) = demo_window("");
    match adapter.registry.get("settings") {
        Some(Service::Settings(s)) => assert!(s.is_anonymous()),
        _ => panic!("settings service missing"),
    }
}

#[test]
fn named_app_registers_named_settings() {
    let (adapter, _settings) = demo_window("editor");
    match adapter.registry.get("settings") {
        Some(Service::Settings(s)) => {
            assert!(!s.is_anonymous());
            assert_eq!(s.app_name.as_deref(), Some("editor"));
        }
        _ => panic!("settings service missing"),
    }
}

#[test]
fn missing_title_component_is_reported() {
    let (shell_tx, _shell_rx) = std::sync::mpsc::channel::<ShellRequest>();
    let result = create_window(
        String::from("demo"),
        demo_theme(),
        shell_tx,
        |mut bc: BuildContext| {
            let window = bc.build_template(
                Template::default()
                    .with_property(
                        ComponentKey::Constraint,
                        ComponentValue::Constraint(Constraint::new(1, 1)),
                    )
                    .with_property(
                        ComponentKey::Position,
                        ComponentValue::Point(Point::new(0, 0)),
                    ),
            );
            (bc, window)
        },
        None,
    );
    match result {
        Err(CreateWindowError::MissingComponent(ComponentKey::Title)) => {}
        _ => panic!("expected the missing title to be reported"),
    }
}

#[test]
fn builder_dropping_the_overlay_is_reported() {
    let (shell_tx, _shell_rx) = std::sync::mpsc::channel::<ShellRequest>();
    let result = create_window(
        String::from("demo"),
        demo_theme(),
        shell_tx,
        |bc: BuildContext| {
            let mut fresh = BuildContext {
                tree: Tree::new(),
                components: ComponentStore::new(),
                ctx: bc.ctx,
                theme: bc.theme,
            };
            let window = fresh.build_template(window_template("Demo"));
            (fresh, window)
        },
        None,
    );
    assert!(matches!(result, Err(CreateWindowError::MissingOverlay)));
}

#[test]
fn builder_returning_a_dead_entity_is_reported() {
    let (shell_tx, _shell_rx) = std::sync::mpsc::channel::<ShellRequest>();
    let result = create_window(
        String::from("demo"),
        demo_theme(),
        shell_tx,
        |bc: BuildContext| (bc, Entity(999)),
        None,
    );
    assert!(matches!(result, Err(CreateWindowError::InvalidRoot)));
}

#[test]
fn tick_runs_stages_in_fixed_order() {
    let (mut adapter, _settings) = demo_window("demo");
    let mut rc = RenderContext::new();
    adapter.run(&mut rc);
    assert_eq!(
        adapter.world.journal,
        vec![Stage::Init, Stage::EventState, Stage::Layout, Stage::PostLayout, Stage::Render],
    );
    adapter.run(&mut rc);
    assert_eq!(
        adapter.world.journal,
        vec![
            Stage::Init,
            Stage::EventState,
            Stage::Layout,
            Stage::PostLayout,
            Stage::Render,
            Stage::EventState,
            Stage::Layout,
            Stage::PostLayout,
            Stage::Render,
        ],
    );
    assert_eq!(rc.frames.len(), 2);
}

#[test]
fn direct_resize_updates_bounds_before_render_of_same_tick() {
    let (mut adapter, _settings) = demo_window("demo");
    adapter.resize(1024.0f64.to_bits(), 768.0f64.to_bits());
    let mut rc = RenderContext::new();
    adapter.run(&mut rc);
    let expected = Rectangle::new(0, 0, 1024.0f64.to_bits(), 768.0f64.to_bits());
    assert_eq!(adapter.world.arranged, Some(expected));
    assert_eq!(rc.frames[0].root_bounds, Some(expected));
}

#[test]
fn rendered_frame_draws_overlay_above_root() {
    let (mut adapter, _settings) = demo_window("demo");
    let mut rc = RenderContext::new();
    adapter.run(&mut rc);
    let root = adapter.world.tree.root.expect("root");
    let overlay = adapter.world.tree.overlay.expect("overlay");
    assert_eq!(rc.frames[0].draw_order, vec![root, overlay]);
}

#[test]
fn direct_event_is_delivered_exactly_once_at_its_target() {
    let (mut adapter, _settings) = demo_window("demo");
    let root = adapter.world.tree.root.expect("root");
    adapter.active(true);
    let mut rc = RenderContext::new();
    adapter.run(&mut rc);
    assert_eq!(adapter.world.deliveries.len(), 1);
    let delivery = &adapter.world.deliveries[0];
    assert_eq!(delivery.target, root);
    assert_eq!(delivery.route, Route::Direct);
    assert!(matches!(delivery.event, Event::ActiveChanged { active: true }));
}

#[test]
fn deliveries_keep_push_order_across_ticks() {
    let (mut adapter, _settings) = demo_window("demo");
    adapter.text_input(String::from("a"));
    adapter.text_input(String::from("b"));
    let mut rc = RenderContext::new();
    adapter.run(&mut rc);
    adapter.text_input(String::from("c"));
    adapter.run(&mut rc);
    let texts: Vec<&str> = adapter
        .world
        .deliveries
        .iter()
        .map(|d| match &d.event {
            Event::TextInput { text } => text.as_str(),
            _ => panic!("unexpected delivery"),
        })
        .collect();
    assert_eq!(texts, vec!["a", "b", "c"]);
}

#[test]
fn mouse_moves_cache_latest_position_and_queue_in_order() {
    let (mut adapter, _settings) = demo_window("demo");
    let root = adapter.world.tree.root.expect("root");
    adapter.mouse(10.0f64.to_bits(), 20.0f64.to_bits());
    adapter.mouse(30.0f64.to_bits(), 40.0f64.to_bits());
    assert_eq!(
        adapter.mouse_position(),
        Point::new(30.0f64.to_bits(), 40.0f64.to_bits()),
    );
    let queue = &adapter.ctx.event_adapter.queue;
    assert_eq!(queue.len(), 2);
    assert_eq!(queue[0].target, root);
    assert_eq!(queue[0].route, Route::Bubble);
    assert!(matches!(
        queue[0].event,
        Event::MouseMove { position } if position == Point::new(10.0f64.to_bits(), 20.0f64.to_bits())
    ));
    assert!(matches!(
        queue[1].event,
        Event::MouseMove { position } if position == Point::new(30.0f64.to_bits(), 40.0f64.to_bits())
    ));
}

#[test]
fn mouse_release_queues_targeted_then_global_release() {
    let (mut adapter, _settings) = demo_window("demo");
    adapter.mouse_event(MouseEvent {
        state: ButtonState::Up,
        button: MouseButton::Left,
        position: Point::new(1, 2),
    });
    let queue = &adapter.ctx.event_adapter.queue;
    assert_eq!(queue.len(), 2);
    assert!(matches!(
        queue[0].event,
        Event::MouseUp { button: MouseButton::Left, .. }
    ));
    assert!(matches!(
        queue[1].event,
        Event::GlobalMouseUp { button: MouseButton::Left, .. }
    ));
}

#[test]
fn key_events_map_press_state_to_event_kind() {
    let (mut adapter, _settings) = demo_window("demo");
    adapter.key_event(KeyEvent { state: ButtonState::Down, key: 65 });
    adapter.key_event(KeyEvent { state: ButtonState::Up, key: 65 });
    let queue = &adapter.ctx.event_adapter.queue;
    assert!(matches!(queue[0].event, Event::KeyDown { event: KeyEvent { key: 65, .. } }));
    assert!(matches!(queue[1].event, Event::KeyUp { event: KeyEvent { key: 65, .. } }));
}

#[test]
fn drops_report_the_cached_mouse_position() {
    let (mut adapter, _settings) = demo_window("demo");
    adapter.mouse(7, 9);
    adapter.file_drop_event(String::from("notes.txt"));
    adapter.text_drop_event(String::from("hello"));
    let queue = &adapter.ctx.event_adapter.queue;
    assert!(matches!(
        &queue[1].event,
        Event::DropFile { file_name, position } if file_name == "notes.txt" && *position == Point::new(7, 9)
    ));
    assert!(matches!(
        &queue[2].event,
        Event::DropText { text, position } if text == "hello" && *position == Point::new(7, 9)
    ));
}

#[test]
fn quit_and_scroll_events_are_queued_with_their_routes() {
    let (mut adapter, _settings) = demo_window("demo");
    adapter.quit_event();
    adapter.scroll(3, 4);
    let queue = &adapter.ctx.event_adapter.queue;
    assert_eq!(queue[0].route, Route::Direct);
    assert!(matches!(queue[0].event, Event::Quit));
    assert_eq!(queue[1].route, Route::Bubble);
    assert!(matches!(queue[1].event, Event::Scroll { delta } if delta == Point::new(3, 4)));
}

#[test]
fn raw_window_handle_is_stored_in_the_context() {
    let (mut adapter, _settings) = demo_window("demo");
    assert!(adapter.ctx.raw_window_handle.is_none());
    adapter.set_raw_window_handle(RawWindowHandle::Web(WebWindowHandle::new(7)));
    assert!(adapter.ctx.raw_window_handle.is_some());
}

fn internal_clipboard(adapter: &WindowAdapter) -> Option<String> {
    match adapter.registry.get("clipboard") {
        Some(Service::Clipboard(c)) => c.get(),
        _ => panic!("clipboard service missing"),
    }
}

#[test]
fn diverged_internal_clipboard_overwrites_host_slot() {
    let (mut adapter, _settings) = demo_window("demo");
    adapter.registry.register(
        String::from("clipboard"),
        Service::Clipboard(Clipboard { value: Some(String::from("A")) }),
    );
    let mut slot = Some(String::from("B"));
    adapter.clipboard_update(&mut slot);
    assert_eq!(slot.as_deref(), Some("A"));
    assert_eq!(adapter.old_clipboard_value.as_deref(), Some("A"));
    assert_eq!(internal_clipboard(&adapter).as_deref(), Some("A"));
    // Synchronizing again with the same inputs changes nothing.
    adapter.clipboard_update(&mut slot);
    assert_eq!(slot.as_deref(), Some("A"));
    assert_eq!(adapter.old_clipboard_value.as_deref(), Some("A"));
    assert_eq!(internal_clipboard(&adapter).as_deref(), Some("A"));
}

#[test]
fn host_slot_value_wins_when_internal_matches_cache() {
    let (mut adapter, _settings) = demo_window("demo");
    let mut slot = Some(String::from("B"));
    adapter.clipboard_update(&mut slot);
    assert_eq!(slot.as_deref(), Some("B"));
    assert_eq!(adapter.old_clipboard_value.as_deref(), Some("B"));
    assert_eq!(internal_clipboard(&adapter).as_deref(), Some("B"));
    adapter.clipboard_update(&mut slot);
    assert_eq!(slot.as_deref(), Some("B"));
    assert_eq!(internal_clipboard(&adapter).as_deref(), Some("B"));
}

#[test]
fn empty_clipboard_sync_changes_nothing() {
    let (mut adapter, _settings) = demo_window("demo");
    let mut slot: Option<String> = None;
    adapter.clipboard_update(&mut slot);
    assert!(slot.is_none());
    assert!(adapter.old_clipboard_value.is_none());
    assert!(internal_clipboard(&adapter).is_none());
}

#[test]
fn localization_choice_is_recorded_in_the_context() {
    let (shell_tx, _shell_rx) = std::sync::mpsc::channel::<ShellRequest>();
    let (adapter, _settings, _receiver) = create_window(
        String::from("demo"),
        demo_theme(),
        shell_tx,
        build_demo_root,
        Some(Localization::new(String::from("de_DE"))),
    )
    .expect("window construction");
    match &adapter.ctx.localization {
        Some(l) => assert_eq!(l.language.as_str(), "de_DE"),
        None => panic!("localization missing"),
    }
}

#[test]
fn cleanup_journals_the_teardown_stage() {
    let (mut adapter, _settings) = demo_window("demo");
    adapter.world.cleanup();
    assert!(adapter.world.cleanup_done);
    assert_eq!(adapter.world.journal, vec![Stage::Cleanup]);
}
