//! The state machine, the cell that holds its current state, and the
//! builder that assembles it.

pub mod builder;
pub mod error;

use std::marker::PhantomData;
use vstd::prelude::*;

verus! {

/// Whether duplicating a `State` always yields a value equal to the one
/// duplicated.
///
/// Nothing obliges an implementation of `Clone` to be faithful, so what the
/// machine hands out is in general only *a clone* of what it holds. For the
/// state types of which this predicate holds, the clone is the value itself.
pub open spec fn duplicates_exactly<State: Clone>() -> bool {
    forall|value: State, duplicate: State| #[trigger]
        cloned(value, duplicate) ==> value == duplicate
}

/// A cell that holds exactly one state: the place where a machine keeps the
/// state it is currently in.
pub struct StateWrapper<State: Clone> {
    state: State,
}

impl<State: Clone> View for StateWrapper<State> {
    type V = State;

    /// The state that the cell contains.
    closed spec fn view(&self) -> State {
        self.state
    }
}

impl<State: Clone> StateWrapper<State> {
    /// Wraps `state` as the contained value.
    pub fn new(state: State) -> (holder: Self)
        ensures
            holder@ == state,
    {
        StateWrapper { state }
    }

    /// A duplicate of the contained state. The cell is left as it was.
    pub fn current(&self) -> (state: State)
        ensures
            cloned(self@, state),
    {
        self.state.clone()
    }

    /// Replaces the contained state by `state`; the previous one is dropped.
    pub fn set(&mut self, state: State)
        ensures
            final(self)@ == state,
    {
        self.state = state;
    }
}

/// A state machine: the state it started from, the state it is in, and the
/// function that takes it from one state to the next.
#[verifier::reject_recursive_types(State)]
pub struct BasicStateMachine<State, Input, Transition> where
    Transition: Fn(&State, Input) -> State,
    State: Clone,
 {
    initial_state: State,
    current_state: StateWrapper<State>,
    transition: Transition,
    _marker: PhantomData<Input>,
}

impl<State, Input, Transition> BasicStateMachine<State, Input, Transition> where
    Transition: Fn(&State, Input) -> State,
    State: Clone,
 {
    /// The state the machine was built with. It never changes.
    pub closed spec fn initial(&self) -> State {
        self.initial_state
    }

    /// The state the machine is in.
    pub closed spec fn current(&self) -> State {
        self.current_state@
    }

    /// The transition function the machine was built with. It never changes.
    pub closed spec fn transition(&self) -> Transition {
        self.transition
    }

    /// Puts a machine together from its three parts.
    pub(crate) fn assemble(
        initial_state: State,
        current_state: State,
        transition: Transition,
    ) -> (machine: Self)
        ensures
            machine.initial() == initial_state,
            machine.current() == current_state,
            machine.transition() == transition,
    {
        BasicStateMachine {
            initial_state,
            current_state: StateWrapper::new(current_state),
            transition,
            _marker: PhantomData,
        }
    }

    /// A duplicate of the state the machine is in.
    pub fn current_state(&self) -> (state: State)
        ensures
            cloned(self.current(), state),
    {
        self.current_state.current()
    }

    /// A duplicate of the state the machine was built with.
    pub fn initial_state(&self) -> (state: State)
        ensures
            cloned(self.initial(), state),
    {
        self.initial_state.clone()
    }

    /// Whether one step on `input` takes this machine to `after`: the state
    /// that `after` is in is an outcome of the transition function on the
    /// state that this machine is in and `input`, and nothing else differs.
    pub open spec fn advances_to(&self, input: Input, after: Self) -> bool {
        &&& call_ensures(self.transition(), (&self.current(), input), after.current())
        &&& after.initial() == self.initial()
        &&& after.transition() == self.transition()
    }

    /// Advances the machine by one input: applies the transition function to
    /// the current state and `input`, makes the outcome the current state,
    /// and returns a duplicate of it.
    ///
    /// The transition function must accept the pair it is applied to.
    pub fn next(&mut self, input: Input) -> (state: State)
        requires
            call_requires(old(self).transition(), (&old(self).current(), input)),
        ensures
            old(self).advances_to(input, *final(self)),
            cloned(final(self).current(), state),
    {
        let new_state = (self.transition)(&self.current_state.state, input);
        let state = new_state.clone();
        self.current_state.set(new_state);
        state
    }
}

/// Whether the transition function `transition` computes `step`: whatever
/// it returns for a state and an input is `step` of the two.
pub open spec fn computes<State, Input, Transition>(
    transition: Transition,
    step: spec_fn(State, Input) -> State,
) -> bool where Transition: Fn(&State, Input) -> State {
    forall|state: State, input: Input, outcome: State| #[trigger]
        call_ensures(transition, (&state, input), outcome) ==> outcome == step(state, input)
}

/// One step follows the transition function and leaves the initial state
/// alone.
///
/// Let one step on `input` take the machine `before` to `after`, and let the
/// transition function compute `step`. Then `next` returns, and
/// `current_state` observes afterwards, `step` of the state that the machine
/// was in and `input`; and `initial_state` observes afterwards what it
/// observed before. This holds of the state types whose duplicates are exact.
pub proof fn lemma_step_follows_transition<State, Input, Transition>(
    before: BasicStateMachine<State, Input, Transition>,
    input: Input,
    after: BasicStateMachine<State, Input, Transition>,
    step: spec_fn(State, Input) -> State,
    returned: State,
    observed_current: State,
    initial_before: State,
    initial_after: State,
) where Transition: Fn(&State, Input) -> State, State: Clone
    requires
        duplicates_exactly::<State>(),
        computes(before.transition(), step),
        before.advances_to(input, after),
        cloned(after.current(), returned),
        cloned(after.current(), observed_current),
        cloned(before.initial(), initial_before),
        cloned(after.initial(), initial_after),
    ensures
        returned == step(before.current(), input),
        observed_current == step(before.current(), input),
        initial_after == initial_before,
{
}

/// Inspection changes nothing: two looks at the current state of a machine,
/// with no step in between, observe the same value. This holds of the state
/// types whose duplicates are exact.
pub proof fn lemma_inspection_repeats<State, Input, Transition>(
    machine: BasicStateMachine<State, Input, Transition>,
    first: State,
    second: State,
) where Transition: Fn(&State, Input) -> State, State: Clone
    requires
        duplicates_exactly::<State>(),
        cloned(machine.current(), first),
        cloned(machine.current(), second),
    ensures
        first == second,
{
}

} // verus!
