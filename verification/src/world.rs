//! The system pipeline: the scheduler that runs a window's systems against
//! its tree. The stages are a fixed enumeration — event-and-state handling,
//! layout, post-layout state resolution, rendering — executed synchronously
//! and sequentially in exactly that order once per tick; the initialization
//! stage runs once before the first tick and the cleanup stage once at
//! teardown. Nothing is skipped and nothing is reordered: layout must see
//! the tree state produced by this tick's events, and rendering must see
//! final post-layout geometry.

use vstd::prelude::*;

use crate::components::{lookup_seq, ComponentEntry, ComponentKey, ComponentStore, ComponentValue};
use crate::context::ContextProvider;
use crate::events::{Event, QueuedEvent, Route};
use crate::geometry::Rectangle;
use crate::tree::{Entity, Tree};

verus! {

/// The stages of the pipeline, in their fixed execution order.
#[derive(Clone, Copy, PartialEq, Eq, Structural, Debug)]
pub enum Stage {
    Init,
    EventState,
    Layout,
    PostLayout,
    Render,
    Cleanup,
}

/// One delivery performed by the event-state stage. A `Direct` delivery is
/// handed to exactly its target and propagates nowhere; a `Bubble` delivery
/// is handed to its target and is then observable by the target's
/// ancestors while the stage processes it.
pub struct Delivery {
    pub target: Entity,
    pub route: Route,
    pub event: Event,
}

/// The delivery a queued event becomes once the event-state stage picks it
/// up: same target, same route, same payload.
pub open spec fn queued_to_delivery(qe: QueuedEvent) -> Delivery {
    Delivery { target: qe.target, route: qe.route, event: qe.event }
}

/// The deliveries one event-state pass appends for a drained queue, in
/// queue order.
pub open spec fn deliveries_of(q: Seq<QueuedEvent>) -> Seq<Delivery> {
    q.map_values(|qe: QueuedEvent| queued_to_delivery(qe))
}

/// The component binding a queued event writes while being delivered: a
/// direct resize rebinds its target's bounds to the new extent at the
/// origin; every other event writes nothing at this layer.
pub open spec fn resize_entry(qe: QueuedEvent) -> Option<ComponentEntry> {
    match qe.event {
        Event::Resize { width, height } => if qe.route is Direct {
            Some(
                ComponentEntry {
                    key: ComponentKey::Bounds,
                    entity: qe.target,
                    value: ComponentValue::Rectangle(
                        Rectangle { x: 0u64, y: 0u64, width, height },
                    ),
                },
            )
        } else {
            None
        },
        _ => None,
    }
}

/// The component bindings after one event-state pass has delivered `q`, in
/// queue order, starting from `entries`.
pub open spec fn apply_events(entries: Seq<ComponentEntry>, q: Seq<QueuedEvent>) -> Seq<
    ComponentEntry,
>
    decreases q.len(),
{
    if q.len() == 0 {
        entries
    } else {
        let stepped = match resize_entry(q.first()) {
            Some(en) => entries.push(en),
            None => entries,
        };
        apply_events(stepped, q.drop_first())
    }
}

/// The bounds the layout stage reads for `e` from the bindings `entries`.
pub open spec fn bounds_in(entries: Seq<ComponentEntry>, e: Entity) -> Option<Rectangle> {
    match lookup_seq(entries, ComponentKey::Bounds, e) {
        Some(ComponentValue::Rectangle(r)) => Some(r),
        _ => None,
    }
}

/// One drawn frame: the entities in back-to-front draw order — the overlay,
/// when present, strictly after the root's content — and the root geometry
/// the frame was drawn with.
pub struct Frame {
    pub draw_order: Vec<Entity>,
    pub root_bounds: Option<Rectangle>,
}

/// The render target owned and supplied by the host shell; each tick
/// appends the frame it drew.
pub struct RenderContext {
    pub frames: Vec<Frame>,
}

impl RenderContext {
    pub fn new() -> (r: RenderContext)
        ensures
            r.frames.len() == 0,
    {
        RenderContext { frames: Vec::new() }
    }
}

/// The scheduler: owns the tree and the component store and drives the
/// fixed stage pipeline. The journal records every stage executed, in
/// order, and is how the ordering contract is stated.
pub struct World {
    pub tree: Tree,
    pub components: ComponentStore,
    pub deliveries: Vec<Delivery>,
    pub journal: Vec<Stage>,
    pub init_done: bool,
    pub cleanup_done: bool,
    pub arranged: Option<Rectangle>,
}

impl World {
    /// Wraps a built tree and its components into a scheduler that has run
    /// nothing yet.
    pub fn from_parts(tree: Tree, components: ComponentStore) -> (r: World)
        ensures
            r.tree == tree,
            r.components == components,
            r.deliveries.len() == 0,
            r.journal.len() == 0,
            !r.init_done,
            !r.cleanup_done,
            r.arranged is None,
    {
        World {
            tree,
            components,
            deliveries: Vec::new(),
            journal: Vec::new(),
            init_done: false,
            cleanup_done: false,
            arranged: None,
        }
    }

    /// The initialization stage: runs once before the first event-state
    /// pass. Materializing the state objects the build step registered
    /// belongs to the widget layer; at this layer the stage marks the
    /// boundary.
    fn run_init(&mut self)
        ensures
            final(self).init_done,
            final(self).journal@ == old(self).journal@.push(Stage::Init),
            final(self).tree == old(self).tree,
            final(self).components == old(self).components,
            final(self).deliveries == old(self).deliveries,
            final(self).cleanup_done == old(self).cleanup_done,
            final(self).arranged == old(self).arranged,
    {
        self.init_done = true;
        self.journal.push(Stage::Init);
    }

    /// The event-and-state stage: drains the queue front to back,
    /// delivering every event in push order, and applies direct resizes to
    /// their target's bounds.
    fn run_event_state(&mut self, ctx: &mut ContextProvider)
        ensures
            final(self).components.entries@ == apply_events(
                old(self).components.entries@,
                old(ctx).event_adapter.queue@,
            ),
            final(self).deliveries@ == old(self).deliveries@ + deliveries_of(
                old(ctx).event_adapter.queue@,
            ),
            final(ctx).event_adapter.queue@.len() == 0,
            final(self).journal@ == old(self).journal@.push(Stage::EventState),
            final(self).tree == old(self).tree,
            final(self).init_done == old(self).init_done,
            final(self).cleanup_done == old(self).cleanup_done,
            final(self).arranged == old(self).arranged,
            final(ctx).message_adapter == old(ctx).message_adapter,
            final(ctx).mouse_position == old(ctx).mouse_position,
            final(ctx).render_objects == old(ctx).render_objects,
            final(ctx).layouts == old(ctx).layouts,
            final(ctx).handlers == old(ctx).handlers,
            final(ctx).states == old(ctx).states,
            final(ctx).raw_window_handle == old(ctx).raw_window_handle,
            final(ctx).app_name == old(ctx).app_name,
            final(ctx).localization == old(ctx).localization,
    {
        self.journal.push(Stage::EventState);
        while ctx.event_adapter.queue.len() > 0
            invariant
                apply_events(self.components.entries@, ctx.event_adapter.queue@) == apply_events(
                    old(self).components.entries@,
                    old(ctx).event_adapter.queue@,
                ),
                self.deliveries@ + deliveries_of(ctx.event_adapter.queue@) == old(self).deliveries@
                    + deliveries_of(old(ctx).event_adapter.queue@),
                self.journal@ == old(self).journal@.push(Stage::EventState),
                self.tree == old(self).tree,
                self.init_done == old(self).init_done,
                self.cleanup_done == old(self).cleanup_done,
                self.arranged == old(self).arranged,
                ctx.message_adapter == old(ctx).message_adapter,
                ctx.mouse_position == old(ctx).mouse_position,
                ctx.render_objects == old(ctx).render_objects,
                ctx.layouts == old(ctx).layouts,
                ctx.handlers == old(ctx).handlers,
                ctx.states == old(ctx).states,
                ctx.raw_window_handle == old(ctx).raw_window_handle,
                ctx.app_name == old(ctx).app_name,
                ctx.localization == old(ctx).localization,
            decreases ctx.event_adapter.queue@.len(),
        {
            let ghost q = ctx.event_adapter.queue@;
            let ghost entries_before = self.components.entries@;
            let ghost deliveries_before = self.deliveries@;
            let qe = ctx.event_adapter.queue.remove(0);
            proof {
                assert(ctx.event_adapter.queue@ =~= q.drop_first());
                assert(q.first() == qe);
            }
            if qe.route == Route::Direct {
                match &qe.event {
                    Event::Resize { width, height } => {
                        let bounds = Rectangle::new(0, 0, *width, *height);
                        self.components.register(
                            ComponentKey::Bounds,
                            qe.target,
                            ComponentValue::Rectangle(bounds),
                        );
                    },
                    _ => {},
                }
            }
            proof {
                match resize_entry(qe) {
                    Some(en) => {
                        assert(self.components.entries@ == entries_before.push(en));
                    },
                    None => {
                        assert(self.components.entries@ == entries_before);
                    },
                }
            }
            self.deliveries.push(
                Delivery { target: qe.target, route: qe.route, event: qe.event },
            );
            proof {
                assert(self.deliveries@ =~= deliveries_before + seq![queued_to_delivery(qe)]);
                assert(deliveries_of(q) =~= seq![queued_to_delivery(qe)] + deliveries_of(
                    q.drop_first(),
                ));
                assert(self.deliveries@ + deliveries_of(ctx.event_adapter.queue@)
                    =~= deliveries_before + deliveries_of(q));
            }
        }
        proof {
            assert(deliveries_of(ctx.event_adapter.queue@) =~= Seq::<Delivery>::empty());
            assert(self.deliveries@ + Seq::<Delivery>::empty() =~= self.deliveries@);
        }
    }

    /// The layout stage: reads the geometry the event stage left on the
    /// root entity's bounds and arranges the tree against it. Arranging
    /// concrete widgets belongs to their layout objects; at this layer the
    /// stage fixes which geometry this tick renders with.
    fn run_layout(&mut self)
        requires
            old(self).tree.root is Some,
        ensures
            final(self).arranged == bounds_in(
                old(self).components.entries@,
                old(self).tree.root->0,
            ),
            final(self).journal@ == old(self).journal@.push(Stage::Layout),
            final(self).tree == old(self).tree,
            final(self).components == old(self).components,
            final(self).deliveries == old(self).deliveries,
            final(self).init_done == old(self).init_done,
            final(self).cleanup_done == old(self).cleanup_done,
    {
        self.journal.push(Stage::Layout);
        let root = match self.tree.root() {
            Option::Some(r) => r,
            Option::None => {
                proof {
                    assert(false);
                }
                Entity(0)
            },
        };
        self.arranged = match self.components.get(ComponentKey::Bounds, root) {
            Option::Some(v) => match v {
                ComponentValue::Rectangle(r) => Some(*r),
                _ => None,
            },
            Option::None => None,
        };
    }

    /// The post-layout-state stage: the hook on which state objects
    /// observe final geometry before rendering. The observations belong to
    /// the widget layer; at this layer the stage fixes its place in the
    /// order.
    fn run_post_layout(&mut self)
        ensures
            final(self).journal@ == old(self).journal@.push(Stage::PostLayout),
            final(self).tree == old(self).tree,
            final(self).components == old(self).components,
            final(self).deliveries == old(self).deliveries,
            final(self).init_done == old(self).init_done,
            final(self).cleanup_done == old(self).cleanup_done,
            final(self).arranged == old(self).arranged,
    {
        self.journal.push(Stage::PostLayout);
    }

    /// The render stage: draws one frame into the host-supplied render
    /// context — the root's content first, the overlay strictly after it,
    /// so overlay content always appears above normal content — using the
    /// geometry the layout stage arranged.
    fn run_render(&mut self, rc: &mut RenderContext)
        requires
            old(self).tree.root is Some,
        ensures
            final(self).journal@ == old(self).journal@.push(Stage::Render),
            final(rc).frames@.len() == old(rc).frames@.len() + 1,
            forall|i: int|
                0 <= i < old(rc).frames@.len() ==> final(rc).frames@[i] == old(rc).frames@[i],
            final(rc).frames@.last().root_bounds == old(self).arranged,
            final(rc).frames@.last().draw_order@ == (match old(self).tree.overlay {
                Some(ov) => seq![old(self).tree.root->0, ov],
                None => seq![old(self).tree.root->0],
            }),
            final(self).tree == old(self).tree,
            final(self).components == old(self).components,
            final(self).deliveries == old(self).deliveries,
            final(self).init_done == old(self).init_done,
            final(self).cleanup_done == old(self).cleanup_done,
            final(self).arranged == old(self).arranged,
    {
        self.journal.push(Stage::Render);
        let root = match self.tree.root() {
            Option::Some(r) => r,
            Option::None => {
                proof {
                    assert(false);
                }
                Entity(0)
            },
        };
        let mut draw_order: Vec<Entity> = Vec::new();
        draw_order.push(root);
        match self.tree.overlay() {
            Option::Some(ov) => {
                draw_order.push(ov);
            },
            Option::None => {},
        }
        let root_bounds = match &self.arranged {
            Option::Some(r) => Some(*r),
            Option::None => None,
        };
        rc.frames.push(Frame { draw_order, root_bounds });
        proof {
            match old(self).tree.overlay {
                Some(ov) => {
                    assert(rc.frames@.last().draw_order@ =~= seq![old(self).tree.root->0, ov]);
                },
                None => {
                    assert(rc.frames@.last().draw_order@ =~= seq![old(self).tree.root->0]);
                },
            }
        }
    }

    /// One tick: exactly one pass through event-and-state handling, then
    /// layout, then post-layout state resolution, then rendering, in that
    /// order; the initialization stage runs first if it has not run yet.
    /// The journal clause states the ordering contract; the remaining
    /// clauses state each stage's effect on what the next stages saw.
    pub fn run(&mut self, ctx: &mut ContextProvider, rc: &mut RenderContext)
        requires
            old(self).tree.root is Some,
        ensures
            final(self).init_done,
            old(self).init_done ==> final(self).journal@ == old(self).journal@ + seq![
                Stage::EventState,
                Stage::Layout,
                Stage::PostLayout,
                Stage::Render,
            ],
            !old(self).init_done ==> final(self).journal@ == old(self).journal@ + seq![
                Stage::Init,
                Stage::EventState,
                Stage::Layout,
                Stage::PostLayout,
                Stage::Render,
            ],
            final(self).components.entries@ == apply_events(
                old(self).components.entries@,
                old(ctx).event_adapter.queue@,
            ),
            final(self).deliveries@ == old(self).deliveries@ + deliveries_of(
                old(ctx).event_adapter.queue@,
            ),
            final(ctx).event_adapter.queue@.len() == 0,
            final(self).arranged == bounds_in(
                apply_events(old(self).components.entries@, old(ctx).event_adapter.queue@),
                old(self).tree.root->0,
            ),
            final(rc).frames@.len() == old(rc).frames@.len() + 1,
            forall|i: int|
                0 <= i < old(rc).frames@.len() ==> final(rc).frames@[i] == old(rc).frames@[i],
            final(rc).frames@.last().root_bounds == bounds_in(
                apply_events(old(self).components.entries@, old(ctx).event_adapter.queue@),
                old(self).tree.root->0,
            ),
            final(rc).frames@.last().draw_order@ == (match old(self).tree.overlay {
                Some(ov) => seq![old(self).tree.root->0, ov],
                None => seq![old(self).tree.root->0],
            }),
            final(self).tree == old(self).tree,
            final(self).cleanup_done == old(self).cleanup_done,
            final(ctx).message_adapter == old(ctx).message_adapter,
            final(ctx).mouse_position == old(ctx).mouse_position,
            final(ctx).render_objects == old(ctx).render_objects,
            final(ctx).layouts == old(ctx).layouts,
            final(ctx).handlers == old(ctx).handlers,
            final(ctx).states == old(ctx).states,
            final(ctx).raw_window_handle == old(ctx).raw_window_handle,
            final(ctx).app_name == old(ctx).app_name,
            final(ctx).localization == old(ctx).localization,
    {
        if !self.init_done {
            self.run_init();
        }
        self.run_event_state(ctx);
        self.run_layout();
        self.run_post_layout();
        self.run_render(rc);
        proof {
            if old(self).init_done {
                assert(self.journal@ =~= old(self).journal@ + seq![
                    Stage::EventState,
                    Stage::Layout,
                    Stage::PostLayout,
                    Stage::Render,
                ]);
            } else {
                assert(self.journal@ =~= old(self).journal@ + seq![
                    Stage::Init,
                    Stage::EventState,
                    Stage::Layout,
                    Stage::PostLayout,
                    Stage::Render,
                ]);
            }
        }
    }

    /// The cleanup stage: the teardown boundary. Events still queued when
    /// a window is torn down are discarded unobserved, by design.
    pub fn cleanup(&mut self)
        ensures
            final(self).cleanup_done,
            final(self).journal@ == old(self).journal@.push(Stage::Cleanup),
            final(self).tree == old(self).tree,
            final(self).components == old(self).components,
            final(self).deliveries == old(self).deliveries,
            final(self).init_done == old(self).init_done,
            final(self).arranged == old(self).arranged,
    {
        self.cleanup_done = true;
        self.journal.push(Stage::Cleanup);
    }
}

/// Direct routing delivers exactly once, with no propagation: a drained
/// queue produces exactly one delivery per queued event, and the event
/// queued at a position with direct routing becomes the delivery at that
/// same position — same target, same payload, still direct, so no ancestor
/// of the target observes it.
pub proof fn lemma_direct_delivered_exactly_once(q: Seq<QueuedEvent>, i: int)
    requires
        0 <= i < q.len(),
        q[i].route is Direct,
    ensures
        deliveries_of(q).len() == q.len(),
        deliveries_of(q)[i] == queued_to_delivery(q[i]),
        deliveries_of(q)[i].target == q[i].target,
        deliveries_of(q)[i].route is Direct,
        deliveries_of(q)[i].event == q[i].event,
{
}

/// Delivery order matches push order across one or more ticks: in the
/// delivery log after two event passes, every event of the first drained
/// queue stands at its push position, strictly before every event of the
/// second drained queue, which stands at its own push position in turn.
pub proof fn lemma_fifo_across_passes(
    base: Seq<Delivery>,
    q1: Seq<QueuedEvent>,
    q2: Seq<QueuedEvent>,
)
    ensures
        ({
            let log = base + deliveries_of(q1) + deliveries_of(q2);
            &&& log.len() == base.len() + q1.len() + q2.len()
            &&& forall|i: int|
                0 <= i < q1.len() ==> log[base.len() + i] == queued_to_delivery(q1[i])
            &&& forall|j: int|
                0 <= j < q2.len() ==> log[base.len() + q1.len() + j] == queued_to_delivery(q2[j])
        }),
{
    let log = base + deliveries_of(q1) + deliveries_of(q2);
    assert forall|i: int|
        0 <= i < q1.len() implies log[base.len() + i] == queued_to_delivery(q1[i]) by {
        assert(log[base.len() + i] == deliveries_of(q1)[i]);
    }
    assert forall|j: int|
        0 <= j < q2.len() implies log[base.len() + q1.len() + j] == queued_to_delivery(
        q2[j],
    ) by {
        assert(log[base.len() + q1.len() + j] == deliveries_of(q2)[j]);
    }
}

} // verus!
