//! The builder: it records the parts of a state machine, checks that the
//! mandatory ones are there, and assembles the machine.

use super::error::StateMachineError;
use super::{duplicates_exactly, BasicStateMachine};
use std::marker::PhantomData;
use vstd::prelude::*;

verus! {

/// The configuration steps that lead to a state machine.
///
/// Each setter consumes the builder and returns it with one field recorded;
/// a later call for the same field replaces the earlier one. `build` ends
/// the configuration.
pub trait StateMachineBuilder<State, Input, Transition>: Sized where
    Transition: Fn(&State, Input) -> State,
    State: Clone,
 {
    type Output;

    /// The initial state recorded so far.
    spec fn recorded_initial_state(&self) -> Option<State>;

    /// The starting point recorded so far, for a machine that is not to
    /// start in its initial state.
    spec fn recorded_current_state(&self) -> Option<State>;

    /// The transition function recorded so far.
    spec fn recorded_transition(&self) -> Option<Transition>;

    /// Starts the builder, with no field set.
    fn start() -> (builder: Self)
        ensures
            builder.recorded_initial_state() is None,
            builder.recorded_current_state() is None,
            builder.recorded_transition() is None,
    ;

    /// Records `state` as the initial state of the machine.
    fn initial_state(self, state: State) -> (builder: Self)
        ensures
            builder.recorded_initial_state() == Some(state),
            builder.recorded_current_state() == self.recorded_current_state(),
            builder.recorded_transition() == self.recorded_transition(),
    ;

    /// Records `state` as the state in which the machine starts.
    fn current_state(self, state: State) -> (builder: Self)
        ensures
            builder.recorded_initial_state() == self.recorded_initial_state(),
            builder.recorded_current_state() == Some(state),
            builder.recorded_transition() == self.recorded_transition(),
    ;

    /// Records `next` as the transition function of the machine.
    fn transition(self, next: Transition) -> (builder: Self)
        ensures
            builder.recorded_initial_state() == self.recorded_initial_state(),
            builder.recorded_current_state() == self.recorded_current_state(),
            builder.recorded_transition() == Some(next),
    ;

    /// Finishes the builder: reports the first mandatory field that is
    /// missing, or else hands out what was configured. A missing initial
    /// state is reported before a missing transition function.
    fn build(self) -> (result: Result<Self::Output, StateMachineError>)
        ensures
            match result {
                Ok(_) => {
                    &&& self.recorded_initial_state() is Some
                    &&& self.recorded_transition() is Some
                },
                Err(error) => if self.recorded_initial_state() is None {
                    error.missing_field() == "initial_state"@
                } else {
                    &&& self.recorded_transition() is None
                    &&& error.missing_field() == "transition"@
                },
            },
    ;
}

/// The builder of a [`BasicStateMachine`].
#[verifier::reject_recursive_types(State)]
pub struct BasicStateMachineBuilder<State, Input, Transition> where
    Transition: Fn(&State, Input) -> State,
    State: Clone,
 {
    initial_state: Option<State>,
    current_state: Option<State>,
    transition: Option<Transition>,
    _marker: PhantomData<Input>,
}

impl<State, Input, Transition> BasicStateMachineBuilder<State, Input, Transition> where
    Transition: Fn(&State, Input) -> State,
    State: Clone,
 {
    /// Whether `machine` is the machine that this configuration describes.
    ///
    /// The machine keeps the recorded initial state and transition function
    /// as they are. It starts in the recorded starting point where there is
    /// one, and else in a duplicate of its initial state.
    pub open spec fn describes(
        &self,
        machine: BasicStateMachine<State, Input, Transition>,
    ) -> bool {
        &&& self.recorded_initial_state() is Some
        &&& self.recorded_transition() is Some
        &&& machine.initial() == self.recorded_initial_state()->Some_0
        &&& machine.transition() == self.recorded_transition()->Some_0
        &&& match self.recorded_current_state() {
            Some(state) => machine.current() == state,
            None => cloned(machine.initial(), machine.current()),
        }
    }

    /// What `build` owes for this configuration: a missing initial state is
    /// reported first, a missing transition function second, and with both
    /// recorded the outcome is the machine that the configuration describes.
    pub open spec fn build_outcome(
        &self,
        result: Result<BasicStateMachine<State, Input, Transition>, StateMachineError>,
    ) -> bool {
        if self.recorded_initial_state() is None {
            result is Err && result->Err_0.missing_field() == "initial_state"@
        } else if self.recorded_transition() is None {
            result is Err && result->Err_0.missing_field() == "transition"@
        } else {
            result is Ok && self.describes(result->Ok_0)
        }
    }
}

impl<State, Input, Transition> StateMachineBuilder<State, Input, Transition> for BasicStateMachineBuilder<
    State,
    Input,
    Transition,
> where Transition: Fn(&State, Input) -> State, State: Clone {
    type Output = BasicStateMachine<State, Input, Transition>;

    closed spec fn recorded_initial_state(&self) -> Option<State> {
        self.initial_state
    }

    closed spec fn recorded_current_state(&self) -> Option<State> {
        self.current_state
    }

    closed spec fn recorded_transition(&self) -> Option<Transition> {
        self.transition
    }

    fn start() -> (builder: Self) {
        Self::default()
    }

    fn initial_state(self, state: State) -> (builder: Self) {
        let mut builder = self;
        builder.initial_state = Some(state);
        builder
    }

    fn current_state(self, state: State) -> (builder: Self) {
        let mut builder = self;
        builder.current_state = Some(state);
        builder
    }

    fn transition(self, next: Transition) -> (builder: Self) {
        let mut builder = self;
        builder.transition = Some(next);
        builder
    }

    fn build(self) -> (result: Result<Self::Output, StateMachineError>)
        ensures
            self.build_outcome(result),
    {
        match (self.initial_state, self.transition) {
            (Some(initial_state), Some(transition)) => {
                // Without an explicit starting point the machine starts in
                // a duplicate of its initial state.
                let current_state = match self.current_state {
                    Some(state) => state,
                    None => initial_state.clone(),
                };
                Ok(BasicStateMachine::assemble(initial_state, current_state, transition))
            },
            (None, _) => Err(StateMachineError::MissingField(String::from_str("initial_state"))),
            (_, None) => Err(StateMachineError::MissingField(String::from_str("transition"))),
        }
    }
}

impl<State, Input, Transition> Default for BasicStateMachineBuilder<State, Input, Transition> where
    Transition: Fn(&State, Input) -> State,
    State: Clone,
 {
    /// A builder with no field set.
    fn default() -> (builder: Self)
        ensures
            builder.recorded_initial_state() is None,
            builder.recorded_current_state() is None,
            builder.recorded_transition() is None,
    {
        BasicStateMachineBuilder {
            initial_state: None,
            current_state: None,
            transition: None,
            _marker: PhantomData,
        }
    }
}

/// A machine built without an explicit starting point starts in its initial
/// state.
///
/// Take a configuration that records `initial_state` and `transition` and no
/// starting point, and let `result` be what `build` owes for it. Then
/// `result` is a machine, and what `current_state` and `initial_state`
/// observe of that machine is one and the same value, `initial_state`. This
/// holds of the state types whose duplicates are exact.
pub proof fn lemma_machine_starts_in_initial_state<State, Input, Transition>(
    initial_state: State,
    transition: Transition,
    builder: BasicStateMachineBuilder<State, Input, Transition>,
    result: Result<BasicStateMachine<State, Input, Transition>, StateMachineError>,
    observed_current: State,
    observed_initial: State,
) where Transition: Fn(&State, Input) -> State, State: Clone
    requires
        duplicates_exactly::<State>(),
        builder.recorded_initial_state() == Some(initial_state),
        builder.recorded_current_state() is None,
        builder.recorded_transition() == Some(transition),
        builder.build_outcome(result),
        result is Ok ==> cloned(result->Ok_0.current(), observed_current),
        result is Ok ==> cloned(result->Ok_0.initial(), observed_initial),
    ensures
        result is Ok,
        observed_current == observed_initial,
        observed_initial == initial_state,
{
}

/// A machine built with an explicit starting point starts there, and its
/// initial state is untouched by that.
///
/// Take a configuration that records `initial_state`, the starting point
/// `current_state` and `transition`, and let `result` be what `build` owes
/// for it. Then `result` is a machine of which `current_state` observes
/// `current_state` and `initial_state` observes `initial_state`. This holds
/// of the state types whose duplicates are exact.
pub proof fn lemma_machine_starts_in_recorded_current_state<State, Input, Transition>(
    initial_state: State,
    current_state: State,
    transition: Transition,
    builder: BasicStateMachineBuilder<State, Input, Transition>,
    result: Result<BasicStateMachine<State, Input, Transition>, StateMachineError>,
    observed_current: State,
    observed_initial: State,
) where Transition: Fn(&State, Input) -> State, State: Clone
    requires
        duplicates_exactly::<State>(),
        builder.recorded_initial_state() == Some(initial_state),
        builder.recorded_current_state() == Some(current_state),
        builder.recorded_transition() == Some(transition),
        builder.build_outcome(result),
        result is Ok ==> cloned(result->Ok_0.current(), observed_current),
        result is Ok ==> cloned(result->Ok_0.initial(), observed_initial),
    ensures
        result is Ok,
        observed_current == current_state,
        observed_initial == initial_state,
{
}

} // verus!
