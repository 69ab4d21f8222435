//! The registry: a cell that is empty until the table of shortcuts is
//! published into it, and read-only from then on.
//!
//! A registry is an ordinary value. A host that shares one between threads
//! puts it behind a lock of its own; every request then happens at some point
//! of a single sequence of requests, which is what the functions here speak
//! of.

use crate::shortcuts::{build_shortcuts, catalogue, Shortcut, ShortcutView};
use vstd::prelude::*;

verus! {

/// The table of shortcuts, published at most once. There is no way to
/// remove, replace or rebuild a published table.
pub struct Registry {
    table: Option<Vec<Shortcut>>,
}

impl View for Registry {
    type V = Option<Seq<ShortcutView>>;

    /// The published list, or `None` while nothing has been published.
    closed spec fn view(&self) -> Option<Seq<ShortcutView>> {
        match self.table {
            Some(table) => Some(table.deep_view()),
            None => None,
        }
    }
}

/// What one request for initialization does to a registry in state `state`:
/// the state it leaves behind, and whether it constructed the table.
pub open spec fn request(state: Option<Seq<ShortcutView>>) -> (Option<Seq<ShortcutView>>, bool) {
    match state {
        Some(_) => (state, false),
        None => (Some(catalogue()), true),
    }
}

/// The state of a registry after `n` requests for initialization, one after
/// the other, starting in state `state`.
pub open spec fn after_requests(state: Option<Seq<ShortcutView>>, n: nat) -> Option<
    Seq<ShortcutView>,
>
    decreases n,
{
    if n == 0 {
        state
    } else {
        request(after_requests(state, (n - 1) as nat)).0
    }
}

/// How many of `n` requests for initialization, one after the other,
/// starting in state `state`, construct the table.
pub open spec fn constructions(state: Option<Seq<ShortcutView>>, n: nat) -> nat
    decreases n,
{
    if n == 0 {
        0
    } else {
        let earlier = constructions(state, (n - 1) as nat);
        if request(after_requests(state, (n - 1) as nat)).1 {
            earlier + 1
        } else {
            earlier
        }
    }
}

impl Registry {
    #[verifier::type_invariant]
    spec fn holds_nothing_but_the_catalogue(&self) -> bool {
        self.table matches Some(table) ==> table.deep_view() == catalogue()
    }

    /// An empty registry.
    pub fn new() -> (registry: Registry)
        ensures
            registry@ is None,
    {
        Registry { table: None }
    }

    /// Makes sure that the table is published, and tells whether this call
    /// constructed it. The first call on a registry constructs the table and
    /// publishes it; every later call finds it published and leaves it as it
    /// is. Either way the registry holds the table when the call returns.
    pub fn initialize(&mut self) -> (built: bool)
        ensures
            (final(self)@, built) == request(old(self)@),
            final(self)@ == Some(catalogue()),
    {
        proof {
            use_type_invariant(&*self);
        }
        if self.table.is_some() {
            false
        } else {
            self.table = Some(build_shortcuts());
            true
        }
    }

    /// The published table, or `None` if the registry has never been
    /// initialized. Reading changes nothing and constructs nothing, and what
    /// is read is always the same six shortcuts.
    pub fn get(&self) -> (table: Option<&Vec<Shortcut>>)
        ensures
            table is Some <==> self@ is Some,
            table matches Some(list) ==> self@ == Some(list.deep_view()) && list.deep_view()
                == catalogue() && list.len() == 6,
    {
        proof {
            use_type_invariant(self);
            assert(catalogue().len() == 6);
        }
        self.table.as_ref()
    }
}

/// A second request for initialization changes nothing and constructs
/// nothing: initializing twice is the same as initializing once.
pub proof fn initialization_is_idempotent(state: Option<Seq<ShortcutView>>)
    ensures
        request(request(state).0) == (request(state).0, false),
{
}

/// A published list is frozen: however many requests for initialization
/// follow, the registry goes on holding the list it held, and none of them
/// constructs anything.
pub proof fn published_list_is_frozen(state: Option<Seq<ShortcutView>>, n: nat)
    requires
        state is Some,
    ensures
        after_requests(state, n) == state,
        constructions(state, n) == 0,
    decreases n,
{
    if n > 0 {
        published_list_is_frozen(state, (n - 1) as nat);
    }
}

/// Of any number of requests for initialization made on an empty registry,
/// exactly one constructs the table, and after each of them the registry
/// holds the same list: the table as it was built.
pub proof fn initialization_constructs_once(n: nat)
    requires
        n >= 1,
    ensures
        constructions(None, n) == 1,
        forall|k: nat| 1 <= k <= n ==> #[trigger] after_requests(None, k) == Some(catalogue()),
    decreases n,
{
    if n > 1 {
        initialization_constructs_once((n - 1) as nat);
    } else {
        assert(constructions(None, 0) == 0);
    }
}

} // verus!
