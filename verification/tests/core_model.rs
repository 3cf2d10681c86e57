use orbtk_core::components::{ComponentKey, ComponentStore, ComponentValue};
use orbtk_core::context::ContextProvider;
use orbtk_core::events::{Event, EventAdapter, Route};
use orbtk_core::geometry::{Constraint, Offset, Point, Rectangle};
use orbtk_core::services::{Clipboard, Registry, Service, Settings};
use orbtk_core::theming::{FontDef, Theme};
use orbtk_core::tree::{Entity, Tree};
use orbtk_core::widgets::{BuildContext, LayoutKind, Overlay, ParentType, ScrollViewer, Template};

fn fresh_build_context() -> BuildContext {
    let (window_tx, _window_rx) = std::sync::mpsc::channel();
    let (shell_tx, _shell_rx) = std::sync::mpsc::channel();
    BuildContext {
        tree: Tree::new(),
        components: ComponentStore::new(),
        ctx: ContextProvider::new(window_tx, shell_tx, String::from("demo"), None),
        theme: Theme::new(Vec::new()),
    }
}

#[test]
fn tree_starts_empty() {
    let tree = Tree::new();
    assert_eq!(tree.len(), 0);
    assert!(tree.root().is_none());
    assert!(tree.overlay().is_none());
}

#[test]
fn build_template_creates_detached_entity() {
    let mut bc = fresh_build_context();
    let e = bc.build_template(Template::default());
    assert_eq!(e, Entity(0));
    assert_eq!(bc.tree.len(), 1);
    assert!(bc.tree.parent_of(e).is_none());
}

#[test]
fn append_child_links_parent_and_child() {
    let mut bc = fresh_build_context();
    let parent = bc.build_template(Template::default());
    let child = bc.build_template(Template::default());
    assert!(bc.append_child(parent, child));
    assert_eq!(bc.tree.parent_of(child), Some(parent));
    assert_eq!(bc.tree.children_of(parent).as_slice(), &[child]);
}

#[test]
fn append_child_rejects_second_parent() {
    let mut bc = fresh_build_context();
    let a = bc.build_template(Template::default());
    let b = bc.build_template(Template::default());
    let c = bc.build_template(Template::default());
    assert!(bc.append_child(a, c));
    assert!(!bc.append_child(b, c));
    assert_eq!(bc.tree.parent_of(c), Some(a));
}

#[test]
fn append_child_rejects_overlay_and_unknown_entities() {
    let mut bc = fresh_build_context();
    let a = bc.build_template(Template::default());
    let ov = bc.build_template(Template::default());
    bc.tree.set_overlay(ov);
    assert!(!bc.append_child(a, ov));
    assert!(!bc.append_child(a, Entity(17)));
    assert!(!bc.append_child(a, a));
}

#[test]
fn component_store_last_registration_wins() {
    let mut store = ComponentStore::new();
    let e = Entity(0);
    store.register(ComponentKey::Title, e, ComponentValue::Text(String::from("first")));
    store.register(ComponentKey::Title, e, ComponentValue::Text(String::from("second")));
    match store.get(ComponentKey::Title, e) {
        Some(ComponentValue::Text(s)) => assert_eq!(s.as_str(), "second"),
        _ => panic!("title component missing"),
    }
    assert!(store.get(ComponentKey::Bounds, e).is_none());
}

#[test]
fn component_store_keys_are_independent_per_entity() {
    let mut store = ComponentStore::new();
    store.register(ComponentKey::Borderless, Entity(0), ComponentValue::Flag(true));
    store.register(ComponentKey::Borderless, Entity(1), ComponentValue::Flag(false));
    match store.get(ComponentKey::Borderless, Entity(0)) {
        Some(ComponentValue::Flag(b)) => assert!(*b),
        _ => panic!("flag missing"),
    }
    match store.get(ComponentKey::Borderless, Entity(1)) {
        Some(ComponentValue::Flag(b)) => assert!(!*b),
        _ => panic!("flag missing"),
    }
}

#[test]
fn registry_answers_last_registered_service() {
    let mut registry = Registry::new();
    registry.register(String::from("settings"), Service::Settings(Settings::new()));
    registry.register(
        String::from("settings"),
        Service::Settings(Settings::from_name(String::from("editor"))),
    );
    match registry.get("settings") {
        Some(Service::Settings(s)) => assert!(!s.is_anonymous()),
        _ => panic!("settings service missing"),
    }
    assert!(registry.get("clipboard").is_none());
}

#[test]
fn clipboard_service_holds_its_value() {
    let mut clipboard = Clipboard::new();
    assert!(clipboard.get().is_none());
    clipboard.set(String::from("copied"));
    assert_eq!(clipboard.get().as_deref(), Some("copied"));
}

#[test]
fn event_adapter_keeps_push_order_and_routes() {
    let mut adapter = EventAdapter::new();
    adapter.push_event(Entity(0), Event::TextInput { text: String::from("a") });
    adapter.push_event_direct(Entity(1), Event::Quit);
    assert_eq!(adapter.len(), 2);
    assert_eq!(adapter.queue[0].target, Entity(0));
    assert_eq!(adapter.queue[0].route, Route::Bubble);
    assert!(matches!(&adapter.queue[0].event, Event::TextInput { text } if text == "a"));
    assert_eq!(adapter.queue[1].target, Entity(1));
    assert_eq!(adapter.queue[1].route, Route::Direct);
    assert!(matches!(adapter.queue[1].event, Event::Quit));
}

#[test]
fn scroll_viewer_template_declares_scroll_layout() {
    let t = ScrollViewer::create();
    assert_eq!(t.parent_type, ParentType::Single);
    assert_eq!(t.layout, LayoutKind::Scroll);
    assert_eq!(t.properties.len(), 1);
    assert_eq!(t.properties[0].key, ComponentKey::Offset);
    assert!(matches!(t.properties[0].value, ComponentValue::Offset(Offset { x: 0, y: 0 })));
    assert_eq!(t.debug_name.as_str(), "ScrollViewer");
}

#[test]
fn overlay_template_takes_many_children() {
    let t = Overlay::create();
    assert_eq!(t.parent_type, ParentType::Multi);
    assert_eq!(t.layout, LayoutKind::Fixed);
    assert_eq!(t.debug_name.as_str(), "Overlay");
}

#[test]
fn geometry_values_round_trip_host_words() {
    let p = Point::new(3.5f64.to_bits(), 0.25f64.to_bits());
    assert_eq!(f64::from_bits(p.x()), 3.5);
    assert_eq!(f64::from_bits(p.y()), 0.25);
    let c = Constraint::new(800.0f64.to_bits(), 600.0f64.to_bits());
    assert_eq!(f64::from_bits(c.width()), 800.0);
    assert_eq!(f64::from_bits(c.height()), 600.0);
    let r = Rectangle::new(0, 0, c.width(), c.height());
    assert_eq!(f64::from_bits(r.width), 800.0);
    assert_eq!(f64::from_bits(r.x), 0.0);
}

#[test]
fn theme_duplicate_copies_fonts() {
    let theme = Theme::new(vec![FontDef {
        family: String::from("MainFont"),
        source: String::from("fonts/main.ttf"),
    }]);
    let copy = theme.duplicate();
    assert_eq!(copy.fonts.len(), 1);
    assert_eq!(copy.fonts[0].family.as_str(), "MainFont");
    assert_eq!(copy.fonts[0].source.as_str(), "fonts/main.ttf");
}
