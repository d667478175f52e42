//! The slot: one stored callable, tagged with its arity.
use crate::closure::Callback;
use crate::manager::Dispatch;
use vstd::prelude::*;

verus! {

/// A stored callable of zero to ten values of type `V`. The variant is the
/// arity declared at registration and never changes afterwards.
#[verifier::reject_recursive_types(V)]
pub enum CallbackHandler<V> {
    Callback0(Box<dyn Callback<()>>),
    Callback1(Box<dyn Callback<(V,)>>),
    Callback2(Box<dyn Callback<(V, V)>>),
    Callback3(Box<dyn Callback<(V, V, V)>>),
    Callback4(Box<dyn Callback<(V, V, V, V)>>),
    Callback5(Box<dyn Callback<(V, V, V, V, V)>>),
    Callback6(Box<dyn Callback<(V, V, V, V, V, V)>>),
    Callback7(Box<dyn Callback<(V, V, V, V, V, V, V)>>),
    Callback8(Box<dyn Callback<(V, V, V, V, V, V, V, V)>>),
    Callback9(Box<dyn Callback<(V, V, V, V, V, V, V, V, V)>>),
    Callback10(Box<dyn Callback<(V, V, V, V, V, V, V, V, V, V)>>),
}

impl<V: Copy> CallbackHandler<V> {
    /// The number of values that the callable takes.
    pub open spec fn spec_arity(&self) -> usize {
        match self {
            CallbackHandler::Callback0(_) => 0,
            CallbackHandler::Callback1(_) => 1,
            CallbackHandler::Callback2(_) => 2,
            CallbackHandler::Callback3(_) => 3,
            CallbackHandler::Callback4(_) => 4,
            CallbackHandler::Callback5(_) => 5,
            CallbackHandler::Callback6(_) => 6,
            CallbackHandler::Callback7(_) => 7,
            CallbackHandler::Callback8(_) => 8,
            CallbackHandler::Callback9(_) => 9,
            CallbackHandler::Callback10(_) => 10,
        }
    }

    /// That the callable has run on the values of `args`, the first value as
    /// its first argument and so on: what its own `runs` says of them.
    pub open spec fn ran(&self, args: Seq<V>) -> bool {
        match self {
            CallbackHandler::Callback0(f) => f.runs(()),
            CallbackHandler::Callback1(f) => f.runs((args[0],)),
            CallbackHandler::Callback2(f) => f.runs((args[0], args[1])),
            CallbackHandler::Callback3(f) => f.runs((args[0], args[1], args[2])),
            CallbackHandler::Callback4(f) => f.runs((args[0], args[1], args[2], args[3])),
            CallbackHandler::Callback5(f) => f.runs((args[0], args[1], args[2], args[3], args[4])),
            CallbackHandler::Callback6(f) => f.runs(
                (args[0], args[1], args[2], args[3], args[4], args[5]),
            ),
            CallbackHandler::Callback7(f) => f.runs(
                (args[0], args[1], args[2], args[3], args[4], args[5], args[6]),
            ),
            CallbackHandler::Callback8(f) => f.runs(
                (args[0], args[1], args[2], args[3], args[4], args[5], args[6], args[7]),
            ),
            CallbackHandler::Callback9(f) => f.runs(
                (args[0], args[1], args[2], args[3], args[4], args[5], args[6], args[7], args[8]),
            ),
            CallbackHandler::Callback10(f) => f.runs(
                (
                    args[0], args[1], args[2], args[3], args[4],
                    args[5], args[6], args[7], args[8], args[9],
                ),
            ),
        }
    }

    /// The number of values that the callable takes.
    #[verifier::when_used_as_spec(spec_arity)]
    pub fn arity(&self) -> (n: usize)
        ensures
            n == self.spec_arity(),
            n <= 10,
    {
        match self {
            CallbackHandler::Callback0(_) => 0,
            CallbackHandler::Callback1(_) => 1,
            CallbackHandler::Callback2(_) => 2,
            CallbackHandler::Callback3(_) => 3,
            CallbackHandler::Callback4(_) => 4,
            CallbackHandler::Callback5(_) => 5,
            CallbackHandler::Callback6(_) => 6,
            CallbackHandler::Callback7(_) => 7,
            CallbackHandler::Callback8(_) => 8,
            CallbackHandler::Callback9(_) => 9,
            CallbackHandler::Callback10(_) => 10,
        }
    }

    /// Runs the callable on `args` if `args` has as many values as the
    /// callable takes, and says whether it did. With any other number of
    /// values nothing is run.
    pub fn call(&mut self, args: &[V]) -> (called: bool)
        ensures
            called == (args@.len() == old(self).arity()),
            called ==> old(self).ran(args@),
            !called ==> *final(self) == *old(self),
            final(self).arity() == old(self).arity(),
    {
        if args.len() != self.arity() {
            return false;
        }
        match self {
            CallbackHandler::Callback0(f) => f.call(()),
            CallbackHandler::Callback1(f) => f.call((args[0],)),
            CallbackHandler::Callback2(f) => f.call((args[0], args[1])),
            CallbackHandler::Callback3(f) => f.call((args[0], args[1], args[2])),
            CallbackHandler::Callback4(f) => f.call((args[0], args[1], args[2], args[3])),
            CallbackHandler::Callback5(f) => f.call((args[0], args[1], args[2], args[3], args[4])),
            CallbackHandler::Callback6(f) => f.call(
                (args[0], args[1], args[2], args[3], args[4], args[5]),
            ),
            CallbackHandler::Callback7(f) => f.call(
                (args[0], args[1], args[2], args[3], args[4], args[5], args[6]),
            ),
            CallbackHandler::Callback8(f) => f.call(
                (args[0], args[1], args[2], args[3], args[4], args[5], args[6], args[7]),
            ),
            CallbackHandler::Callback9(f) => f.call(
                (args[0], args[1], args[2], args[3], args[4], args[5], args[6], args[7], args[8]),
            ),
            CallbackHandler::Callback10(f) => f.call(
                (
                    args[0], args[1], args[2], args[3], args[4],
                    args[5], args[6], args[7], args[8], args[9],
                ),
            ),
        }
        true
    }

    /// Fires the callable with `args`: runs it, as `call` does, where `args`
    /// has as many values as it takes, and reports the mismatch where not.
    pub fn dispatch(&mut self, args: &[V]) -> (outcome: Dispatch)
        ensures
            outcome == if args@.len() == old(self).arity() {
                Dispatch::Called
            } else {
                Dispatch::ArityMismatch
            },
            outcome is Called ==> old(self).ran(args@),
            !(outcome is Called) ==> *final(self) == *old(self),
            final(self).arity() == old(self).arity(),
    {
        if self.call(args) {
            Dispatch::Called
        } else {
            Dispatch::ArityMismatch
        }
    }
}

} // verus!
