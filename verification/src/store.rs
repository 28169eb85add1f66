//! The argument store: the ordered, zero-indexed dynamic values of one
//! invocation, with bounds-checked access.

use vstd::prelude::*;
use crate::error::{Error, ErrorView};
use crate::value::{Value, ValueView};

verus! {

/// What bounds-checked access yields: the value at the index, or a
/// missing-argument error carrying the index asked for.
pub open spec fn spec_get(args: Seq<ValueView>, index: int) -> Result<ValueView, ErrorView> {
    if 0 <= index < args.len() {
        Ok(args[index])
    } else {
        Err(ErrorView::MissingArgument(index))
    }
}

/// The positional arguments of one invocation. Built once by whatever
/// receives the raw request, then read-only while the invocation runs.
pub struct ArgStore {
    values: Vec<Value>,
}

impl View for ArgStore {
    type V = Seq<ValueView>;

    closed spec fn view(&self) -> Seq<ValueView> {
        Seq::new(self.values@.len(), |i: int| self.values@[i]@)
    }
}

impl ArgStore {
    /// An empty store.
    pub fn new() -> (r: ArgStore)
        ensures
            r@ == Seq::<ValueView>::empty(),
    {
        let r = ArgStore { values: Vec::new() };
        proof {
            assert(r@ =~= Seq::<ValueView>::empty());
        }
        r
    }

    /// Appends one more positional argument while the store is being built.
    pub fn push(&mut self, value: Value)
        ensures
            final(self)@ == old(self)@.push(value@),
    {
        let ghost before = self@;
        self.values.push(value);
        proof {
            assert(self@ =~= before.push(value@));
        }
    }

    /// Wraps already-collected values as a store, in their order.
    pub fn from_values(values: Vec<Value>) -> (r: ArgStore)
        ensures
            r@.len() == values@.len(),
            forall|i: int| 0 <= i < values@.len() ==> r@[i] == values@[i]@,
    {
        ArgStore { values }
    }

    /// How many positional arguments this invocation carries.
    pub fn len(&self) -> (n: usize)
        ensures
            n == self@.len(),
    {
        self.values.len()
    }

    /// Bounds-checked access: the value at `index`, or a missing-argument
    /// error when the index is out of range.
    pub fn get(&self, index: usize) -> (r: Result<Value, Error>)
        ensures
            match spec_get(self@, index as int) {
                Ok(v) => r matches Ok(value) && value@ == v,
                Err(e) => r matches Err(err) && err@ == e,
            },
    {
        if index < self.values.len() {
            Ok(self.values[index].dup())
        } else {
            Err(Error::MissingArgument(index))
        }
    }
}

} // verus!
