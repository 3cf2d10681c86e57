//! The component store: typed data attached to entities under stable
//! component identifiers. Several component kinds coexist per entity; a
//! lookup is answered by the value registered last for that identifier and
//! entity, so re-registering overwrites what a reader sees.

use vstd::prelude::*;

use crate::geometry::{Constraint, Offset, Point, Rectangle};
use crate::theming::Theme;
use crate::tree::Entity;

verus! {

/// The stable identifier of one component kind.
#[derive(Clone, Copy, PartialEq, Eq, Structural, Debug)]
pub enum ComponentKey {
    Title,
    Borderless,
    Resizable,
    AlwaysOnTop,
    Position,
    Constraint,
    Bounds,
    Theme,
    Offset,
    Name,
}

/// One typed component value.
pub enum ComponentValue {
    Text(String),
    Flag(bool),
    Point(Point),
    Constraint(Constraint),
    Rectangle(Rectangle),
    Theme(Theme),
    Offset(Offset),
}

/// One stored binding: (identifier, entity) to value.
pub struct ComponentEntry {
    pub key: ComponentKey,
    pub entity: Entity,
    pub value: ComponentValue,
}

/// What a lookup of `(key, e)` answers in `s`: the value bound last.
pub open spec fn lookup_seq(
    s: Seq<ComponentEntry>,
    key: ComponentKey,
    e: Entity,
) -> Option<ComponentValue>
    decreases s.len(),
{
    if s.len() == 0 {
        None
    } else if s.last().key == key && s.last().entity == e {
        Some(s.last().value)
    } else {
        lookup_seq(s.drop_last(), key, e)
    }
}

/// The store of all component bindings of one window.
pub struct ComponentStore {
    pub entries: Vec<ComponentEntry>,
}

impl ComponentStore {
    /// What this store binds to `(key, e)`.
    pub open spec fn lookup(self, key: ComponentKey, e: Entity) -> Option<ComponentValue> {
        lookup_seq(self.entries@, key, e)
    }

    pub fn new() -> (r: ComponentStore)
        ensures
            r.entries.len() == 0,
    {
        ComponentStore { entries: Vec::new() }
    }

    /// Binds `value` to `(key, e)`, overwriting what a reader saw before.
    pub fn register(&mut self, key: ComponentKey, e: Entity, value: ComponentValue)
        ensures
            final(self).lookup(key, e) == Some(value),
            forall|k: ComponentKey, e2: Entity|
                !(k == key && e2 == e) ==> final(self).lookup(k, e2) == old(self).lookup(k, e2),
            final(self).entries@ == old(self).entries@.push(
                ComponentEntry { key, entity: e, value },
            ),
    {
        self.entries.push(ComponentEntry { key, entity: e, value });
        proof {
            assert forall|k: ComponentKey, e2: Entity| !(k == key && e2 == e) implies lookup_seq(
                self.entries@,
                k,
                e2,
            ) == lookup_seq(old(self).entries@, k, e2) by {
                assert(self.entries@.drop_last() =~= old(self).entries@);
            }
        }
    }

    /// Reads the value bound to `(key, e)`, if any.
    pub fn get(&self, key: ComponentKey, e: Entity) -> (r: Option<&ComponentValue>)
        ensures
            match r {
                Some(v) => self.lookup(key, e) == Some(*v),
                None => self.lookup(key, e) is None,
            },
    {
        let mut i: usize = self.entries.len();
        proof {
            assert(self.entries@.take(self.entries@.len() as int) =~= self.entries@);
        }
        while i > 0
            invariant
                i <= self.entries.len(),
                lookup_seq(self.entries@, key, e) == lookup_seq(
                    self.entries@.take(i as int),
                    key,
                    e,
                ),
            decreases i,
        {
            i = i - 1;
            let entry = &self.entries[i];
            if entry.key == key && entry.entity == e {
                proof {
                    assert(self.entries@.take(i + 1).last() == self.entries@[i as int]);
                    assert(lookup_seq(self.entries@.take(i + 1), key, e) == Some(
                        self.entries@[i as int].value,
                    ));
                }
                return Some(&self.entries[i].value);
            }
            proof {
                assert(self.entries@.take(i + 1).drop_last() =~= self.entries@.take(i as int));
            }
        }
        proof {
            assert(self.entries@.take(0) =~= Seq::<ComponentEntry>::empty());
        }
        None
    }
}

} // verus!
