//! Action sequence engine for synthetic keyboard input: a closed key
//! catalog, a validator for bounded action sequences, and the decision
//! logic of sequence execution and of the release-all recovery sweep.
pub mod actions;
pub mod engine;
pub mod keys;
pub mod services;
pub mod text;
