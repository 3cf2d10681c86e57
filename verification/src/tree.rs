//! The entity tree: an arena of nodes indexed by integer handles, with
//! parent/child adjacency, one designated root and at most one overlay.
//!
//! Entities are created in arena order and a child is always attached to an
//! entity created before it, so every parent handle is strictly smaller than
//! the child handle; cycles are impossible by construction. The root and the
//! overlay are never attached as children: the overlay is a sibling layer of
//! the root, drawn after all normal content, never part of the root's
//! descendant set.

use vstd::prelude::*;

verus! {

/// An opaque handle for one node of the widget tree. All entity state lives
/// outside the tree, in the component store, keyed by this handle.
#[derive(Clone, Copy, PartialEq, Eq, Structural, Debug)]
pub struct Entity(pub usize);

/// One arena slot: the adjacency of a single entity.
pub struct Node {
    pub parent: Option<Entity>,
    pub children: Vec<Entity>,
}

/// The ownership structure of a window's entities.
pub struct Tree {
    pub nodes: Vec<Node>,
    pub root: Option<Entity>,
    pub overlay: Option<Entity>,
}

impl Tree {
    /// The handle `e` names a slot of this arena.
    pub open spec fn spec_contains(self, e: Entity) -> bool {
        e.0 < self.nodes.len()
    }

    /// The parent recorded for `e`.
    pub open spec fn parent_of_spec(self, e: Entity) -> Option<Entity> {
        self.nodes[e.0 as int].parent
    }

    /// `e` has no parent edge.
    pub open spec fn is_detached(self, e: Entity) -> bool {
        self.parent_of_spec(e) is None
    }

    /// Every structural invariant of the arena:
    /// parent handles point at earlier slots, the parent and child maps
    /// agree edge for edge, no child is listed twice, and the root and the
    /// overlay, when set, are distinct detached entities.
    pub open spec fn wf(self) -> bool {
        &&& forall|i: int|
            0 <= i < self.nodes.len() ==> ((#[trigger] self.nodes[i].parent) matches Some(p)
                ==> p.0 < i)
        &&& forall|i: int, k: int|
            0 <= i < self.nodes.len() && 0 <= k < self.nodes[i].children.len()
                ==> (#[trigger] self.nodes[i].children[k]).0 < self.nodes.len()
                    && self.nodes[self.nodes[i].children[k].0 as int].parent == Some(
                    Entity(i as usize),
                )
        &&& forall|i: int|
            0 <= i < self.nodes.len() ==> ((#[trigger] self.nodes[i].parent) matches Some(c)
                ==> self.nodes[c.0 as int].children@.contains(Entity(i as usize)))
        &&& forall|i: int, k1: int, k2: int|
            0 <= i < self.nodes.len() && 0 <= k1 < k2 < self.nodes[i].children.len()
                ==> (#[trigger] self.nodes[i].children[k1]) != (
                #[trigger] self.nodes[i].children[k2])
        &&& self.root is Some ==> self.spec_contains(self.root->0) && self.is_detached(
            self.root->0,
        )
        &&& self.overlay is Some ==> self.spec_contains(self.overlay->0) && self.is_detached(
            self.overlay->0,
        )
        &&& self.root is Some && self.overlay is Some ==> self.root->0 != self.overlay->0
    }

    /// A parent chain: each element's recorded parent is the next element.
    pub open spec fn is_chain(self, p: Seq<Entity>) -> bool {
        &&& forall|i: int| 0 <= i < p.len() ==> self.spec_contains(#[trigger] p[i])
        &&& forall|i: int|
            0 <= i < p.len() - 1 ==> self.parent_of_spec(#[trigger] p[i]) == Some(p[i + 1])
    }

    /// `a` is a strict ancestor of `e`: some parent chain climbs from `e`
    /// up to `a` in at least one step.
    pub open spec fn is_ancestor_of(self, a: Entity, e: Entity) -> bool {
        exists|p: Seq<Entity>|
            p.len() >= 2 && self.is_chain(p) && p[0] == e && p[p.len() - 1] == a
    }

    /// An empty tree: no entities, no root, no overlay.
    pub fn new() -> (r: Tree)
        ensures
            r.nodes.len() == 0,
            r.root is None,
            r.overlay is None,
            r.wf(),
    {
        Tree { nodes: Vec::new(), root: None, overlay: None }
    }

    pub fn len(&self) -> (r: usize)
        ensures
            r == self.nodes.len(),
    {
        self.nodes.len()
    }

    pub fn root(&self) -> (r: Option<Entity>)
        ensures
            r == self.root,
    {
        self.root
    }

    pub fn overlay(&self) -> (r: Option<Entity>)
        ensures
            r == self.overlay,
    {
        self.overlay
    }

    pub fn contains(&self, e: Entity) -> (r: bool)
        ensures
            r == self.spec_contains(e),
    {
        e.0 < self.nodes.len()
    }

    pub fn parent_of(&self, e: Entity) -> (r: Option<Entity>)
        requires
            self.spec_contains(e),
        ensures
            r == self.parent_of_spec(e),
    {
        self.nodes[e.0].parent
    }

    pub fn children_of(&self, e: Entity) -> (r: &Vec<Entity>)
        requires
            self.spec_contains(e),
        ensures
            r@ == self.nodes[e.0 as int].children@,
    {
        &self.nodes[e.0].children
    }

    /// Adds a fresh, detached entity to the arena and hands back its handle.
    pub fn create_entity(&mut self) -> (r: Entity)
        requires
            old(self).wf(),
        ensures
            final(self).wf(),
            r == Entity(old(self).nodes.len() as usize),
            final(self).nodes.len() == old(self).nodes.len() + 1,
            final(self).nodes[r.0 as int].parent is None,
            final(self).nodes[r.0 as int].children.len() == 0,
            forall|i: int|
                0 <= i < old(self).nodes.len() ==> final(self).nodes[i] == old(self).nodes[i],
            final(self).root == old(self).root,
            final(self).overlay == old(self).overlay,
    {
        let id = self.nodes.len();
        self.nodes.push(Node { parent: None, children: Vec::new() });
        Entity(id)
    }

    /// Attaches `child` under `parent`. The builder discipline creates a
    /// node before its children, so the parent handle is always the smaller
    /// one; a child is attached at most once, and neither the root nor the
    /// overlay is ever attached below another entity.
    pub fn append_child(&mut self, parent: Entity, child: Entity)
        requires
            old(self).wf(),
            old(self).spec_contains(child),
            parent.0 < child.0,
            old(self).is_detached(child),
            old(self).root != Some(child),
            old(self).overlay != Some(child),
        ensures
            final(self).wf(),
            final(self).nodes.len() == old(self).nodes.len(),
            final(self).parent_of_spec(child) == Some(parent),
            final(self).nodes[parent.0 as int].children@ == old(self).nodes[parent.0 as int].children@.push(
                child,
            ),
            forall|e: Entity|
                old(self).spec_contains(e) && e != child ==> final(self).parent_of_spec(e) == old(
                    self,
                ).parent_of_spec(e),
            final(self).root == old(self).root,
            final(self).overlay == old(self).overlay,
    {
        let ghost pre = *self;
        let mut child_node = self.nodes.remove(child.0);
        child_node.parent = Some(parent);
        self.nodes.insert(child.0, child_node);
        let mut parent_node = self.nodes.remove(parent.0);
        parent_node.children.push(child);
        self.nodes.insert(parent.0, parent_node);
        proof {
            assert forall|i: int|
                0 <= i < self.nodes.len() && i != child.0 && i != parent.0 implies self.nodes[i]
                == pre.nodes[i] by {}
            assert(self.nodes[parent.0 as int].children@ == pre.nodes[parent.0 as int].children@.push(
                child,
            ));
            assert(self.nodes[child.0 as int].parent == Some(parent));
            assert(self.nodes[child.0 as int].children@ == pre.nodes[child.0 as int].children@);
            assert forall|i: int|
                0 <= i < self.nodes.len() implies ((#[trigger] self.nodes[i].parent) matches Some(
                p,
            ) ==> p.0 < i) by {
                if i != child.0 && i != parent.0 {
                    assert(self.nodes[i] == pre.nodes[i]);
                } else if i == parent.0 {
                    assert(self.nodes[i].parent == pre.nodes[i].parent);
                }
            }
            assert forall|i: int|
                0 <= i < self.nodes.len() implies ((#[trigger] self.nodes[i].parent) matches Some(
                c,
            ) ==> self.nodes[c.0 as int].children@.contains(Entity(i as usize))) by {
                if self.nodes[i].parent is Some {
                    let c = self.nodes[i].parent->0;
                    if i == child.0 {
                        assert(c == parent);
                        assert(self.nodes[parent.0 as int].children@.last() == child);
                        assert(Entity(i as usize) == child);
                        assert(self.nodes[c.0 as int].children@.contains(Entity(i as usize)));
                    } else {
                        assert(self.nodes[i].parent == pre.nodes[i].parent);
                        assert(pre.nodes[c.0 as int].children@.contains(Entity(i as usize)));
                        let k = choose|k: int|
                            0 <= k < pre.nodes[c.0 as int].children@.len() && pre.nodes[c.0 as int].children@[k]
                                == Entity(i as usize);
                        if c == parent {
                            assert(self.nodes[c.0 as int].children@[k] == Entity(i as usize));
                        } else {
                            assert(self.nodes[c.0 as int].children@ == pre.nodes[c.0 as int].children@);
                            assert(self.nodes[c.0 as int].children@[k] == Entity(i as usize));
                        }
                    }
                }
            }
            assert forall|i: int, k: int|
                0 <= i < self.nodes.len() && 0 <= k < self.nodes[i].children.len() implies (
            #[trigger] self.nodes[i].children[k]).0 < self.nodes.len()
                && self.nodes[self.nodes[i].children[k].0 as int].parent == Some(
                Entity(i as usize),
            ) by {
                if i == parent.0 && k == self.nodes[i].children.len() - 1 {
                } else {
                    assert(pre.nodes[i].children[k] == self.nodes[i].children[k]);
                    assert(pre.nodes[pre.nodes[i].children[k].0 as int].parent == Some(
                        Entity(i as usize),
                    ));
                }
            }
            assert forall|i: int, k1: int, k2: int|
                0 <= i < self.nodes.len() && 0 <= k1 < k2 < self.nodes[i].children.len() implies (
            #[trigger] self.nodes[i].children[k1]) != (#[trigger] self.nodes[i].children[k2]) by {
                if i == parent.0 && k2 == self.nodes[i].children.len() - 1 {
                    assert(pre.nodes[i].children[k1] == self.nodes[i].children[k1]);
                    if self.nodes[i].children[k1] == child {
                        assert(pre.nodes[child.0 as int].parent == Some(Entity(i as usize)));
                    }
                }
            }
        }
    }

    /// Assigns the single root, replacing any previous root.
    pub fn set_root(&mut self, e: Entity)
        requires
            old(self).wf(),
            old(self).spec_contains(e),
            old(self).is_detached(e),
            old(self).overlay != Some(e),
        ensures
            final(self).wf(),
            final(self).root == Some(e),
            final(self).overlay == old(self).overlay,
            final(self).nodes == old(self).nodes,
    {
        self.root = Some(e);
    }

    /// Attaches the dedicated always-on-top entity.
    pub fn set_overlay(&mut self, e: Entity)
        requires
            old(self).wf(),
            old(self).spec_contains(e),
            old(self).is_detached(e),
            old(self).root != Some(e),
        ensures
            final(self).wf(),
            final(self).overlay == Some(e),
            final(self).root == old(self).root,
            final(self).nodes == old(self).nodes,
    {
        self.overlay = Some(e);
    }
}

/// Along any parent chain the handles strictly decrease, because every
/// parent edge points at an earlier arena slot.
proof fn lemma_chain_descends(t: Tree, p: Seq<Entity>)
    requires
        t.wf(),
        t.is_chain(p),
        p.len() >= 1,
    ensures
        p[p.len() - 1].0 <= p[0].0,
        p.len() >= 2 ==> p[p.len() - 1].0 < p[0].0,
    decreases p.len(),
{
    if p.len() >= 2 {
        assert(t.parent_of_spec(p[0]) == Some(p[1]));
        assert(p[1].0 < p[0].0);
        let q = p.drop_first();
        assert(t.is_chain(q)) by {
            assert forall|i: int| 0 <= i < q.len() implies t.spec_contains(#[trigger] q[i]) by {
                assert(q[i] == p[i + 1]);
            }
            assert forall|i: int|
                0 <= i < q.len() - 1 implies t.parent_of_spec(#[trigger] q[i]) == Some(
                q[i + 1],
            ) by {
                assert(q[i] == p[i + 1]);
                assert(q[i + 1] == p[i + 2]);
            }
        }
        lemma_chain_descends(t, q);
        assert(q[q.len() - 1] == p[p.len() - 1]);
    }
}

/// No entity is its own ancestor: the tree is free of cycles.
pub proof fn lemma_no_cycle(t: Tree, e: Entity)
    requires
        t.wf(),
    ensures
        !t.is_ancestor_of(e, e),
{
    if t.is_ancestor_of(e, e) {
        let p = choose|p: Seq<Entity>|
            p.len() >= 2 && t.is_chain(p) && p[0] == e && p[p.len() - 1] == e;
        lemma_chain_descends(t, p);
    }
}

/// A detached entity has no ancestors at all.
pub proof fn lemma_detached_has_no_ancestor(t: Tree, a: Entity, e: Entity)
    requires
        t.wf(),
        t.spec_contains(e),
        t.is_detached(e),
    ensures
        !t.is_ancestor_of(a, e),
{
    if t.is_ancestor_of(a, e) {
        let p = choose|p: Seq<Entity>|
            p.len() >= 2 && t.is_chain(p) && p[0] == e && p[p.len() - 1] == a;
        assert(t.parent_of_spec(p[0]) == Some(p[1]));
    }
}

/// In a well-formed tree whose root and overlay are both set, the overlay
/// is neither an ancestor nor a descendant of the root.
pub proof fn lemma_overlay_apart_from_root(t: Tree)
    requires
        t.wf(),
        t.root is Some,
        t.overlay is Some,
    ensures
        t.root->0 != t.overlay->0,
        !t.is_ancestor_of(t.overlay->0, t.root->0),
        !t.is_ancestor_of(t.root->0, t.overlay->0),
{
    lemma_detached_has_no_ancestor(t, t.overlay->0, t.root->0);
    lemma_detached_has_no_ancestor(t, t.root->0, t.overlay->0);
}

} // verus!
