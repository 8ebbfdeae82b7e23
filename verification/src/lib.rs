//! A minimal finite-state machine: a builder collects an initial state, an
//! optional starting point and a transition function, and the machine it
//! assembles advances one input at a time.
//!
//! Every executable function carries a contract that Verus proves.

pub mod machine;
