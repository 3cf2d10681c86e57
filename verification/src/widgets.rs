//! The widget-facing build layer: templates describing one widget each, and
//! the build context through which templates become entities with
//! components. Concrete widget implementations are external collaborators;
//! the two widgets the core itself ships are the overlay — the dedicated
//! always-on-top entity every window carries — and the scroll viewer.

use vstd::prelude::*;

use crate::components::{ComponentKey, ComponentStore, ComponentValue};
use crate::context::ContextProvider;
use crate::geometry::Offset;
use crate::theming::Theme;
use crate::tree::{Entity, Tree};

verus! {

/// How many children a widget accepts, declared by its template.
#[derive(Clone, Copy, PartialEq, Eq, Structural, Debug)]
pub enum ParentType {
    /// The widget takes no children.
    Leaf,
    /// The widget takes exactly one child.
    Single,
    /// The widget takes any number of children.
    Multi,
}

/// The layout object a widget declares.
#[derive(Clone, Copy, PartialEq, Eq, Structural, Debug)]
pub enum LayoutKind {
    /// Children keep the bounds their components give them.
    Fixed,
    /// Children are shifted by the widget's scroll offset.
    Scroll,
}

/// The render object a widget declares.
#[derive(Clone, Copy, PartialEq, Eq, Structural, Debug)]
pub enum RenderKind {
    Shape,
    Text,
}

/// The event-handler family a widget declares.
#[derive(Clone, Copy, PartialEq, Eq, Structural, Debug)]
pub enum HandlerKind {
    Mouse,
    Keyboard,
    Window,
}

/// One property a template attaches: a component identifier and its value.
pub struct TemplateProperty {
    pub key: ComponentKey,
    pub value: ComponentValue,
}

/// The declaration of one widget: what the build context materializes into
/// an entity.
pub struct Template {
    pub parent_type: ParentType,
    pub layout: LayoutKind,
    pub render: Option<RenderKind>,
    pub handler: Option<HandlerKind>,
    pub has_state: bool,
    pub properties: Vec<TemplateProperty>,
    pub debug_name: String,
}

impl Default for Template {
    /// A bare widget: any number of children, fixed layout, no render
    /// object, no handler, no state object, no properties.
    fn default() -> (r: Template)
        ensures
            r.parent_type == ParentType::Multi,
            r.layout == LayoutKind::Fixed,
            r.render is None,
            r.handler is None,
            !r.has_state,
            r.properties@.len() == 0,
            r.debug_name@ == Seq::<char>::empty(),
    {
        Template {
            parent_type: ParentType::Multi,
            layout: LayoutKind::Fixed,
            render: None,
            handler: None,
            has_state: false,
            properties: Vec::new(),
            debug_name: String::new(),
        }
    }
}

impl Template {
    pub fn as_parent_type(self, parent_type: ParentType) -> (r: Template)
        ensures
            r == (Template { parent_type, ..self }),
    {
        Template { parent_type, ..self }
    }

    pub fn with_layout_object(self, layout: LayoutKind) -> (r: Template)
        ensures
            r == (Template { layout, ..self }),
    {
        Template { layout, ..self }
    }

    pub fn with_render_object(self, render: RenderKind) -> (r: Template)
        ensures
            r == (Template { render: Some(render), ..self }),
    {
        Template { render: Some(render), ..self }
    }

    pub fn with_property(self, key: ComponentKey, value: ComponentValue) -> (r: Template)
        ensures
            r.properties@ == self.properties@.push(TemplateProperty { key, value }),
            r.parent_type == self.parent_type,
            r.layout == self.layout,
            r.render == self.render,
            r.handler == self.handler,
            r.has_state == self.has_state,
            r.debug_name == self.debug_name,
    {
        let Template { parent_type, layout, render, handler, has_state, mut properties, debug_name }
            = self;
        properties.push(TemplateProperty { key, value });
        Template { parent_type, layout, render, handler, has_state, properties, debug_name }
    }

    pub fn with_debug_name(self, debug_name: &str) -> (r: Template)
        ensures
            r.debug_name@ == debug_name@,
            r.parent_type == self.parent_type,
            r.layout == self.layout,
            r.render == self.render,
            r.handler == self.handler,
            r.has_state == self.has_state,
            r.properties == self.properties,
    {
        let Template { parent_type, layout, render, handler, has_state, properties, debug_name: _ }
            = self;
        Template {
            parent_type,
            layout,
            render,
            handler,
            has_state,
            properties,
            debug_name: debug_name.to_owned(),
        }
    }
}

/// The dedicated always-on-top widget every window carries. Its entity is
/// attached as the tree's overlay, never below the root, and is drawn
/// after all normal content.
pub struct Overlay;

impl Overlay {
    pub fn create() -> (r: Template)
        ensures
            r.parent_type == ParentType::Multi,
            r.layout == LayoutKind::Fixed,
            r.debug_name@ == "Overlay"@,
    {
        Template::default().with_debug_name("Overlay")
    }
}

/// A layout widget that adds a vertical and horizontal offset to its
/// single child, used to scroll content larger than the viewer.
pub struct ScrollViewer;

impl ScrollViewer {
    pub fn create() -> (r: Template)
        ensures
            r.parent_type == ParentType::Single,
            r.layout == LayoutKind::Scroll,
            r.properties@.len() == 1,
            r.properties@[0].key == ComponentKey::Offset,
            r.properties@[0].value == ComponentValue::Offset(Offset { x: 0u64, y: 0u64 }),
            r.debug_name@ == "ScrollViewer"@,
    {
        Template::default()
            .as_parent_type(ParentType::Single)
            .with_property(ComponentKey::Offset, ComponentValue::Offset(Offset::default()))
            .with_layout_object(LayoutKind::Scroll)
            .with_debug_name("ScrollViewer")
    }
}

/// No later property of `props`, strictly between `j` and `upto`, reuses
/// the component identifier of the property at `j`.
pub open spec fn key_is_last(props: Seq<TemplateProperty>, j: int, upto: int) -> bool {
    forall|k: int| j < k < upto ==> (#[trigger] props[k]).key != props[j].key
}

/// The builder interface handed to widget construction: it owns the tree,
/// the component store, the context provider and the theme while the
/// window's content is being built, and hands them back to the bootstrap
/// afterwards.
pub struct BuildContext {
    pub tree: Tree,
    pub components: ComponentStore,
    pub ctx: ContextProvider,
    pub theme: Theme,
}

impl BuildContext {
    /// The builder keeps the tree well-formed at every step.
    pub open spec fn wf(self) -> bool {
        self.tree.wf()
    }

    /// Materializes one template: a fresh entity carrying the template's
    /// properties and debug name, with its layout object — and its render
    /// object, handler and state object, where declared — registered in
    /// the context provider.
    #[verifier::rlimit(60)]
    pub fn build_template(&mut self, template: Template) -> (r: Entity)
        requires
            old(self).wf(),
        ensures
            final(self).wf(),
            r == Entity(old(self).tree.nodes.len() as usize),
            final(self).tree.nodes.len() == old(self).tree.nodes.len() + 1,
            final(self).tree.parent_of_spec(r) is None,
            final(self).tree.root == old(self).tree.root,
            final(self).tree.overlay == old(self).tree.overlay,
            forall|e: Entity|
                old(self).tree.spec_contains(e) ==> final(self).tree.parent_of_spec(e) == old(
                    self,
                ).tree.parent_of_spec(e),
            forall|i: int|
                0 <= i < template.properties@.len()
                    ==> final(self).components.lookup((#[trigger] template.properties@[i]).key, r)
                    is Some,
            forall|i: int|
                0 <= i < template.properties@.len() && (#[trigger] template.properties@[i]).key
                    != ComponentKey::Name && key_is_last(
                    template.properties@,
                    i,
                    template.properties@.len() as int,
                ) ==> final(self).components.lookup(template.properties@[i].key, r) == Some(
                    template.properties@[i].value,
                ),
            final(self).components.lookup(ComponentKey::Name, r) matches Some(
                ComponentValue::Text(n),
            ) && n@ == template.debug_name@,
            forall|k: ComponentKey, e: Entity|
                e != r ==> final(self).components.lookup(k, e) == old(self).components.lookup(k, e),
            final(self).ctx.layouts@ == old(self).ctx.layouts@.push((r, template.layout)),
            final(self).ctx.event_adapter == old(self).ctx.event_adapter,
            final(self).ctx.mouse_position == old(self).ctx.mouse_position,
            final(self).ctx.raw_window_handle == old(self).ctx.raw_window_handle,
            final(self).theme == old(self).theme,
    {
        let Template { parent_type: _, layout, render, handler, has_state, properties, debug_name } =
            template;
        let e = self.tree.create_entity();
        let ghost tree_built = self.tree;
        let mut properties = properties;
        let ghost props = properties@;
        let ghost mut i: int = 0;
        while properties.len() > 0
            invariant
                self.wf(),
                self.tree == tree_built,
                0 <= i,
                i + properties@.len() == props.len(),
                properties@ == props.skip(i),
                forall|j: int|
                    0 <= j < i ==> self.components.lookup((#[trigger] props[j]).key, e) is Some,
                forall|j: int|
                    0 <= j < i && key_is_last(props, j, i) ==> self.components.lookup(
                        (#[trigger] props[j]).key,
                        e,
                    ) == Some(props[j].value),
                forall|k: ComponentKey, e2: Entity|
                    e2 != e ==> self.components.lookup(k, e2) == old(self).components.lookup(
                        k,
                        e2,
                    ),
                self.ctx == old(self).ctx,
                self.theme == old(self).theme,
            decreases properties@.len(),
        {
            let p = properties.remove(0);
            proof {
                assert(props.skip(i)[0] == p);
                assert(props.skip(i).skip(1) =~= props.skip(i + 1));
            }
            let ghost pre_store = self.components;
            self.components.register(p.key, e, p.value);
            proof {
                assert forall|j: int|
                    0 <= j < i + 1 implies self.components.lookup(
                    (#[trigger] props[j]).key,
                    e,
                ) is Some by {}
                assert forall|j: int|
                    0 <= j < i + 1 && key_is_last(props, j, i + 1) implies self.components.lookup(
                    (#[trigger] props[j]).key,
                    e,
                ) == Some(props[j].value) by {
                    if j == i {
                        assert(props[j] == p);
                    } else {
                        assert(props[i] == p);
                        assert(props[i].key != props[j].key);
                        assert(key_is_last(props, j, i));
                        assert(pre_store.lookup(props[j].key, e) == Some(props[j].value));
                    }
                }
            }
            proof {
                i = i + 1;
            }
        }
        self.components.register(ComponentKey::Name, e, ComponentValue::Text(debug_name));
        self.ctx.layouts.push((e, layout));
        match render {
            Option::Some(rk) => self.ctx.render_objects.push((e, rk)),
            Option::None => {},
        }
        match handler {
            Option::Some(hk) => self.ctx.handlers.push((e, hk)),
            Option::None => {},
        }
        if has_state {
            self.ctx.states.push(e);
        }
        proof {
            assert forall|j: int|
                0 <= j < props.len() implies self.components.lookup(
                (#[trigger] props[j]).key,
                e,
            ) is Some by {}
            assert forall|j: int|
                0 <= j < props.len() && (#[trigger] props[j]).key != ComponentKey::Name
                    && key_is_last(props, j, props.len() as int) implies self.components.lookup(
                props[j].key,
                e,
            ) == Some(props[j].value) by {}
        }
        e
    }

    /// Attaches `child` under `parent`, guarding the builder-layer rules:
    /// both handles must be live, the child must have been created after
    /// its parent and not yet attached anywhere, and neither the root nor
    /// the overlay may become a child. Answers whether the attachment was
    /// accepted.
    pub fn append_child(&mut self, parent: Entity, child: Entity) -> (ok: bool)
        requires
            old(self).wf(),
        ensures
            final(self).wf(),
            ok == (old(self).tree.spec_contains(child) && parent.0 < child.0 && old(
                self,
            ).tree.is_detached(child) && old(self).tree.root != Some(child) && old(
                self,
            ).tree.overlay != Some(child)),
            ok ==> final(self).tree.parent_of_spec(child) == Some(parent),
            !ok ==> *final(self) == *old(self),
            final(self).tree.nodes.len() == old(self).tree.nodes.len(),
            final(self).tree.root == old(self).tree.root,
            final(self).tree.overlay == old(self).tree.overlay,
            final(self).components == old(self).components,
            final(self).ctx == old(self).ctx,
            final(self).theme == old(self).theme,
    {
        if !self.tree.contains(child) {
            return false;
        }
        if !(parent.0 < child.0) {
            return false;
        }
        match self.tree.parent_of(child) {
            Option::Some(_) => {
                return false;
            },
            Option::None => {},
        }
        match self.tree.root() {
            Option::Some(r) => {
                if r == child {
                    return false;
                }
            },
            Option::None => {},
        }
        match self.tree.overlay() {
            Option::Some(o) => {
                if o == child {
                    return false;
                }
            },
            Option::None => {},
        }
        self.tree.append_child(parent, child);
        true
    }
}

} // verus!
