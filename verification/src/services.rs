//! The service registry: a name-keyed service locator independent of the
//! entity tree, shared by the window adapter and by the systems that need
//! cross-cutting services. A name is answered by the service registered
//! last under it, so re-registering a name overwrites what readers see.

use vstd::prelude::*;

verus! {

/// Two optional strings hold the same text.
pub open spec fn opt_str_eq(a: Option<String>, b: Option<String>) -> bool {
    match (a, b) {
        (Option::None, Option::None) => true,
        (Option::Some(x), Option::Some(y)) => x@ == y@,
        _ => false,
    }
}

/// Compares two optional strings by their text.
pub fn opt_str_equal(a: &Option<String>, b: &Option<String>) -> (r: bool)
    ensures
        r == opt_str_eq(*a, *b),
{
    match (a, b) {
        (Option::None, Option::None) => true,
        (Option::Some(x), Option::Some(y)) => x.eq(y),
        _ => false,
    }
}

/// Copies an optional string.
pub fn opt_str_clone(v: &Option<String>) -> (r: Option<String>)
    ensures
        opt_str_eq(r, *v),
{
    match v {
        Option::None => None,
        Option::Some(x) => Some(x.clone()),
    }
}

/// The per-window clipboard service: the toolkit-internal clipboard value,
/// synchronized against the host clipboard by the window adapter.
pub struct Clipboard {
    pub value: Option<String>,
}

impl Clipboard {
    /// A fresh clipboard holding nothing.
    pub fn new() -> (r: Clipboard)
        ensures
            r.value is None,
    {
        Clipboard { value: None }
    }

    /// The current internal clipboard text.
    pub fn get(&self) -> (r: Option<String>)
        ensures
            opt_str_eq(r, self.value),
    {
        opt_str_clone(&self.value)
    }

    /// Replaces the internal clipboard text.
    pub fn set(&mut self, value: String)
        ensures
            final(self).value == Some(value),
    {
        self.value = Some(value);
    }
}

/// The settings service registered for a window. A window created under an
/// application name persists under a path derived from that name; a window
/// created with an empty name registers anonymously and derives no
/// persistence path.
pub struct Settings {
    pub app_name: Option<String>,
}

impl Settings {
    /// An anonymous settings service: no name-derived persistence path.
    pub fn new() -> (r: Settings)
        ensures
            r.app_name is None,
    {
        Settings { app_name: None }
    }

    /// A settings service persisting under `name`.
    pub fn from_name(name: String) -> (r: Settings)
        ensures
            r.app_name == Some(name),
    {
        Settings { app_name: Some(name) }
    }

    pub fn is_anonymous(&self) -> (r: bool)
        ensures
            r == (self.app_name is None),
    {
        match &self.app_name {
            Option::None => true,
            Option::Some(_) => false,
        }
    }
}

/// One service a registry can hold.
pub enum Service {
    Settings(Settings),
    Clipboard(Clipboard),
}

/// One registered binding: a name to a service.
pub struct RegistryEntry {
    pub name: String,
    pub service: Service,
}

/// What a lookup of `name` answers in `s`: the service registered last.
pub open spec fn registry_lookup_seq(s: Seq<RegistryEntry>, name: Seq<char>) -> Option<Service>
    decreases s.len(),
{
    if s.len() == 0 {
        None
    } else if s.last().name@ == name {
        Some(s.last().service)
    } else {
        registry_lookup_seq(s.drop_last(), name)
    }
}

/// The name-keyed service store of one window.
pub struct Registry {
    pub entries: Vec<RegistryEntry>,
}

impl Registry {
    /// What this registry binds to `name`.
    pub open spec fn lookup(self, name: Seq<char>) -> Option<Service> {
        registry_lookup_seq(self.entries@, name)
    }

    pub fn new() -> (r: Registry)
        ensures
            r.entries.len() == 0,
    {
        Registry { entries: Vec::new() }
    }

    /// Binds `service` under `name`, overwriting what readers saw before.
    pub fn register(&mut self, name: String, service: Service)
        ensures
            final(self).lookup(name@) == Some(service),
            forall|n: Seq<char>|
                n != name@ ==> final(self).lookup(n) == old(self).lookup(n),
    {
        let ghost name_view = name@;
        self.entries.push(RegistryEntry { name, service });
        proof {
            assert forall|n: Seq<char>| n != name_view implies registry_lookup_seq(
                self.entries@,
                n,
            ) == registry_lookup_seq(old(self).entries@, n) by {
                assert(self.entries@.drop_last() =~= old(self).entries@);
            }
        }
    }

    /// Looks `name` up; an unregistered name answers nothing, which callers
    /// that assume the construction protocol treat as a fatal condition.
    pub fn get(&self, name: &str) -> (r: Option<&Service>)
        ensures
            match r {
                Some(s) => self.lookup(name@) == Some(*s),
                None => self.lookup(name@) is None,
            },
    {
        let key: String = name.to_owned();
        let mut i: usize = self.entries.len();
        proof {
            assert(self.entries@.take(self.entries@.len() as int) =~= self.entries@);
        }
        while i > 0
            invariant
                i <= self.entries.len(),
                key@ == name@,
                registry_lookup_seq(self.entries@, name@) == registry_lookup_seq(
                    self.entries@.take(i as int),
                    name@,
                ),
            decreases i,
        {
            i = i - 1;
            if self.entries[i].name == key {
                proof {
                    assert(self.entries@.take(i + 1).last() == self.entries@[i as int]);
                    assert(registry_lookup_seq(self.entries@.take(i + 1), name@) == Some(
                        self.entries@[i as int].service,
                    ));
                }
                return Some(&self.entries[i].service);
            }
            proof {
                assert(self.entries@.take(i + 1).drop_last() =~= self.entries@.take(i as int));
            }
        }
        proof {
            assert(self.entries@.take(0) =~= Seq::<RegistryEntry>::empty());
        }
        None
    }
}

} // verus!
