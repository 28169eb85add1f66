//! The command registry: a name-to-adapter mapping, populated at setup
//! time and read-only per invocation.

use vstd::prelude::*;
use vstd::string::StringExecFns;
use crate::adapter::Adapter;
use crate::error::{Error, ErrorView};
use crate::store::ArgStore;
use crate::value::{Value, ValueView};
use crate::text::str_eq;

verus! {

/// The adapter a name resolves to among registered entries: the most
/// recently registered entry under that name, or nothing. Registration is
/// thus last write wins, deterministically.
pub open spec fn seq_lookup<A>(entries: Seq<(String, A)>, name: Seq<char>) -> Option<A>
    decreases entries.len(),
{
    if entries.len() == 0 {
        None
    } else if entries.last().0@ == name {
        Some(entries.last().1)
    } else {
        seq_lookup(entries.drop_last(), name)
    }
}

/// What invoking a name on given arguments yields: a command-not-found
/// error for an unregistered name, and otherwise exactly what the resolved
/// adapter yields — its result or error passed through unchanged.
pub open spec fn spec_registry_invoke<A: Adapter>(
    entries: Seq<(String, A)>,
    name: Seq<char>,
    args: Seq<ValueView>,
) -> Result<ValueView, ErrorView> {
    match seq_lookup(entries, name) {
        Some(adapter) => adapter.spec_invoke(args),
        None => Err(ErrorView::CommandNotFound(name)),
    }
}

/// The name-to-adapter mapping. Built once during setup, consulted per
/// invocation; invocations never change it.
pub struct Registry<A: Adapter> {
    entries: Vec<(String, A)>,
}

impl<A: Adapter> View for Registry<A> {
    type V = Seq<(String, A)>;

    closed spec fn view(&self) -> Seq<(String, A)> {
        self.entries@
    }
}

impl<A: Adapter> Registry<A> {
    /// An empty registry.
    pub fn new() -> (r: Registry<A>)
        ensures
            r@ == Seq::<(String, A)>::empty(),
    {
        let r = Registry { entries: Vec::new() };
        proof {
            assert(r@ =~= Seq::<(String, A)>::empty());
        }
        r
    }

    /// Registers an adapter under a name. A duplicate name shadows the
    /// earlier entry: lookups resolve to the last write.
    pub fn register(&mut self, name: String, adapter: A)
        ensures
            final(self)@ == old(self)@.push((name, adapter)),
    {
        self.entries.push((name, adapter));
    }

    /// How many registrations the registry holds.
    pub fn len(&self) -> (n: usize)
        ensures
            n == self@.len(),
    {
        self.entries.len()
    }

    /// Looks the name up and delegates to its adapter, handing back the
    /// adapter's result or error unchanged; an unregistered name fails
    /// with a command-not-found error. See [`spec_registry_invoke`].
    pub fn invoke(&self, name: &str, store: &ArgStore) -> (r: Result<Value, Error>)
        ensures
            match spec_registry_invoke(self@, name@, store@) {
                Ok(v) => r matches Ok(value) && value@ == v,
                Err(e) => r matches Err(err) && err@ == e,
            },
    {
        let mut idx = self.entries.len();
        proof {
            assert(self@.subrange(0, self@.len() as int) =~= self@);
        }
        while idx > 0
            invariant
                idx <= self@.len(),
                seq_lookup(self@, name@) == seq_lookup(
                    self@.subrange(0, idx as int),
                    name@,
                ),
            decreases idx,
        {
            idx = idx - 1;
            let entry = &self.entries[idx];
            let ghost prefix = self@.subrange(0, idx + 1);
            proof {
                assert(prefix.last() == self@[idx as int]);
                assert(prefix.drop_last() =~= self@.subrange(0, idx as int));
            }
            if str_eq(entry.0.as_str(), name) {
                return entry.1.invoke(store);
            }
        }
        proof {
            assert(self@.subrange(0, 0).len() == 0);
        }
        Err(Error::CommandNotFound(name.to_owned()))
    }
}

/// Registration is last write wins: after an entry is appended, its name
/// resolves to the new adapter, and every other name resolves as before.
pub proof fn lemma_register_lookup<A>(
    entries: Seq<(String, A)>,
    name: String,
    adapter: A,
    other: Seq<char>,
)
    ensures
        seq_lookup(entries.push((name, adapter)), name@) == Some(adapter),
        other != name@ ==> seq_lookup(entries.push((name, adapter)), other) == seq_lookup(
            entries,
            other,
        ),
{
    let appended = entries.push((name, adapter));
    assert(appended.last() == (name, adapter));
    assert(appended.drop_last() =~= entries);
}

/// An unregistered name invokes nothing: the result is exactly a
/// command-not-found error carrying that name, whatever the arguments.
pub proof fn lemma_unregistered_name<A: Adapter>(
    entries: Seq<(String, A)>,
    name: Seq<char>,
    args: Seq<ValueView>,
)
    requires
        seq_lookup(entries, name) is None,
    ensures
        spec_registry_invoke(entries, name, args) == Err::<ValueView, ErrorView>(
            ErrorView::CommandNotFound(name),
        ),
{
}

} // verus!
