//! What a future and its callback share, and the steps taken on it.
//!
//! The state sits behind a lock. A poll is one step on it and a firing is
//! another, each taken with the lock held, so whatever tasks and threads are
//! at work, what happens to one future is a sequence of such steps. The
//! methods of `SharedState` are the steps; the laws say what holds of every
//! sequence of them.
//!
//! A future is resolved once. The first firing stores its value and hands out
//! the waker of the task that waits; every later firing is ignored.
use crate::sync::clone_waker;
use core::task::Waker;
use vstd::prelude::*;

verus! {

/// The value the handle was first fired with, once it was, and the waker of
/// the task that waits for it. There is no way for a state to count as
/// completed and have no value: it is completed when it has one.
pub struct SharedState<V> {
    /// `None` until the handle is fired; from then on the value of the first
    /// firing.
    pub result: Option<V>,
    /// A copy of the waker that the latest poll without a result came with,
    /// until the first firing takes it.
    pub waker: Option<Waker>,
}

/// One step on a shared state, as it shows from outside.
pub enum Step<V> {
    /// A poll on behalf of the task of a waker, with the answer it gave.
    Poll(Waker, Option<V>),
    /// A firing with a value, with the waker it handed out to be woken.
    Fire(V, Option<Waker>),
}

impl<V> SharedState<V> {
    /// That the handle was fired.
    pub open spec fn completed(self) -> bool {
        self.result is Some
    }

    /// That nothing has happened yet: no result, nobody waiting.
    pub open spec fn fresh(self) -> bool {
        self.result is None && self.waker is None
    }

    /// That a poll which comes with `waker` and finds the state `self` may
    /// leave it as `after` and answer `answer`: it answers with the result,
    /// ready or not, and leaves the result alone. Where there is no result
    /// yet it records a copy of `waker` in place of what was recorded before;
    /// where there is one it records nothing.
    pub open spec fn polled(self, waker: Waker, after: Self, answer: Option<V>) -> bool {
        &&& answer == self.result
        &&& after.result == self.result
        &&& if self.result is Some {
            after.waker == self.waker
        } else {
            after.waker matches Some(kept) && cloned::<Waker>(waker, kept)
        }
    }

    /// The state after a firing with `value`. A state without a result gets
    /// `value` as its result and is left without a waker; a state that has a
    /// result stays exactly as it is.
    pub open spec fn resolved(self, value: V) -> Self {
        if self.result is Some {
            self
        } else {
            SharedState { result: Some(value), waker: None }
        }
    }

    /// The waker that a firing hands out: the one recorded, unless the state
    /// has a result already, and then none.
    pub open spec fn parked(self) -> Option<Waker> {
        if self.result is Some {
            None
        } else {
            self.waker
        }
    }

    /// That `step` may lead from the state `self` to the state `after`.
    pub open spec fn stepped(self, step: Step<V>, after: Self) -> bool {
        match step {
            Step::Poll(waker, answer) => self.polled(waker, after, answer),
            Step::Fire(value, woken) => after == self.resolved(value) && woken == self.parked(),
        }
    }

    /// The state that step `i` of a history finds: the start for the first
    /// step, else what the step before left.
    pub open spec fn found(self, states: Seq<Self>, i: int) -> Self {
        if i == 0 {
            self
        } else {
            states[i - 1]
        }
    }

    /// That `steps` is a history of the state `self`, and `states` what each of
    /// its steps left.
    pub open spec fn history(self, steps: Seq<Step<V>>, states: Seq<Self>) -> bool {
        &&& steps.len() == states.len()
        &&& forall|i: int|
            0 <= i < steps.len() ==> #[trigger] self.found(states, i).stepped(steps[i], states[i])
    }

    /// That none of the first `n` steps is a firing.
    pub open spec fn unfired(steps: Seq<Step<V>>, n: int) -> bool {
        forall|j: int| 0 <= j < n ==> steps[j] is Poll
    }

    /// That step `j` is the first firing, that it came with `value`, and that
    /// it lies before step `n`.
    pub open spec fn fired_first(steps: Seq<Step<V>>, j: int, n: int, value: V) -> bool {
        &&& 0 <= j < n
        &&& steps[j] matches Step::Fire(v, _)
        &&& v == value
        &&& Self::unfired(steps, j)
    }

    /// That step `n` has a poll right before it, and that `kept` is a copy of
    /// the waker which that poll came with.
    pub open spec fn waits(steps: Seq<Step<V>>, n: int, kept: Waker) -> bool {
        &&& n > 0
        &&& steps[n - 1] matches Step::Poll(waker, _)
        &&& cloned::<Waker>(waker, kept)
    }

    /// What the state found by step `n` of a history looks like. Before any
    /// firing it has no result, and as soon as one poll was taken it holds a
    /// copy of the waker of the latest poll. After a firing it has the value
    /// of the first firing and no waker.
    proof fn lemma_found(self, steps: Seq<Step<V>>, states: Seq<Self>, n: int)
        requires
            self.fresh(),
            self.history(steps, states),
            0 <= n <= steps.len(),
        ensures
            ({
                let state = self.found(states, n);
                &&& Self::unfired(steps, n) ==> state.result is None
                &&& Self::unfired(steps, n) && n == 0 ==> state.waker is None
                &&& Self::unfired(steps, n) && n > 0 ==> (state.waker matches Some(kept)
                    && Self::waits(steps, n, kept))
                &&& !Self::unfired(steps, n) ==> state.result is Some && state.waker is None
                &&& forall|j: int, value: V| #[trigger]
                    Self::fired_first(steps, j, n, value) ==> state.result == Some(value)
            }),
        decreases n,
    {
        if n > 0 {
            let m = n - 1;
            self.lemma_found(steps, states, m);
            let before = self.found(states, m);
            let after = self.found(states, n);
            assert(before.stepped(steps[m], states[m]));
            match steps[m] {
                Step::Poll(_, _) => {
                    assert(Self::unfired(steps, n) <==> Self::unfired(steps, m)) by {
                        if Self::unfired(steps, m) {
                            assert forall|j: int| 0 <= j < n implies steps[j] is Poll by {}
                        }
                    }
                    assert forall|j: int, value: V| #[trigger]
                        Self::fired_first(steps, j, n, value) implies after.result == Some(
                        value,
                    ) by {
                        // the first firing lies before this poll
                        assert(Self::fired_first(steps, j, m, value));
                    }
                },
                Step::Fire(_, _) => {
                    assert forall|j: int, value: V| #[trigger]
                        Self::fired_first(steps, j, n, value) implies after.result == Some(
                        value,
                    ) by {
                        if j < m {
                            // this firing is a later one, and was ignored
                            assert(Self::fired_first(steps, j, m, value));
                        } else {
                            // this firing is the first
                            assert(Self::unfired(steps, m));
                        }
                    }
                },
            }
        }
    }

    /// Until the handle is fired a poll answers that nothing is ready, leaves
    /// the state without a result, and has a copy of the waker it came with
    /// recorded for the firing to come.
    pub proof fn law_pending_before_fired(
        self,
        waker: Waker,
        after: Self,
        answer: Option<V>,
    )
        requires
            !self.completed(),
            self.polled(waker, after, answer),
        ensures
            answer is None,
            !after.completed(),
            after.waker matches Some(kept) && cloned::<Waker>(waker, kept),
            after.parked() == after.waker,
    {
    }

    /// The first firing, with `value`, makes the state completed, and the poll
    /// that comes next answers `value` and leaves the state as it found it: so
    /// does every poll after it.
    pub proof fn law_ready_after_fired(
        self,
        value: V,
        waker: Waker,
        after: Self,
        answer: Option<V>,
    )
        requires
            !self.completed(),
            self.resolved(value).polled(waker, after, answer),
        ensures
            self.resolved(value).completed(),
            answer == Some(value),
            after == self.resolved(value),
    {
    }

    /// A future is resolved once: a firing that finds a result already leaves
    /// the state exactly as it is and hands out no waker, whatever value it
    /// comes with.
    pub proof fn law_later_firings_are_ignored(self, value: V)
        requires
            self.completed(),
        ensures
            self.resolved(value) == self,
            self.parked() is None,
    {
    }

    /// A state that has a result keeps that very result: no step takes it
    /// away or puts another in its place, so a future turns ready once and
    /// stays ready with the same value.
    pub proof fn law_completed_for_good(self, step: Step<V>, after: Self)
        requires
            self.completed(),
            self.stepped(step, after),
        ensures
            after.result == self.result,
    {
    }

    /// In every history of a future, whatever the order of its polls and
    /// firings: a poll answers `None` exactly as long as no firing came before
    /// it, and otherwise answers the value of the first firing, whatever
    /// values later firings came with.
    pub proof fn law_polls_see_the_first_firing(
        self,
        steps: Seq<Step<V>>,
        states: Seq<Self>,
        i: int,
    )
        requires
            self.fresh(),
            self.history(steps, states),
            0 <= i < steps.len(),
            steps[i] is Poll,
        ensures
            Self::unfired(steps, i) <==> steps[i]->Poll_1 is None,
            forall|j: int, value: V| #[trigger]
                Self::fired_first(steps, j, i, value) ==> steps[i]->Poll_1 == Some(value),
    {
        self.lemma_found(steps, states, i);
        assert(self.found(states, i).stepped(steps[i], states[i]));
    }

    /// In every history of a future, whatever the order of its polls and
    /// firings: a firing hands out a waker exactly if it is the first firing
    /// and a poll came before it, and the waker is then a copy of the one
    /// that the latest poll came with. So the task that polled last is
    /// resumed when the value arrives, and no task is resumed twice.
    pub proof fn law_one_wake_and_none_missed(
        self,
        steps: Seq<Step<V>>,
        states: Seq<Self>,
        i: int,
    )
        requires
            self.fresh(),
            self.history(steps, states),
            0 <= i < steps.len(),
            steps[i] is Fire,
        ensures
            steps[i]->Fire_1 is Some <==> i > 0 && Self::unfired(steps, i),
            steps[i]->Fire_1 matches Some(woken) ==> Self::waits(steps, i, woken),
    {
        self.lemma_found(steps, states, i);
        assert(self.found(states, i).stepped(steps[i], states[i]));
    }
}

impl<V: Copy> SharedState<V> {
    /// The state of a future that was just made: no result, nobody waiting.
    pub fn new() -> (state: Self)
        ensures
            state.fresh(),
    {
        SharedState { result: None, waker: None }
    }

    /// Whether the handle was fired.
    pub fn is_completed(&self) -> (done: bool)
        ensures
            done == self.completed(),
    {
        self.result.is_some()
    }

    /// One poll: the result if the handle was fired, else `None`, after a
    /// copy of `waker` was recorded in place of any recorded before.
    pub fn poll(&mut self, waker: &Waker) -> (answer: Option<V>)
        ensures
            old(self).polled(*waker, *final(self), answer),
            old(self).stepped(Step::Poll(*waker, answer), *final(self)),
    {
        match self.result {
            Some(value) => Some(value),
            None => {
                self.waker = Some(clone_waker(waker));
                None
            },
        }
    }

    /// One firing with `value`. The first firing stores the value and hands
    /// out the waker that was recorded, if any, for the caller to wake once
    /// the lock is released. A firing that finds a result already is ignored:
    /// the state stays as it is, and no waker is handed out.
    pub fn complete(&mut self, value: V) -> (parked: Option<Waker>)
        ensures
            *final(self) == old(self).resolved(value),
            parked == old(self).parked(),
            old(self).stepped(Step::Fire(value, parked), *final(self)),
    {
        if self.result.is_some() {
            None
        } else {
            self.result = Some(value);
            self.waker.take()
        }
    }
}

} // verus!
