//! Command execution and authentication core of a desktop snippet-vault
//! backend: a uniform error taxonomy, a success/error response envelope,
//! a shared persistence-handle broker, a token service for signed,
//! time-bound identity claims, and the per-entity command handlers.
use vstd::prelude::*;

pub mod auth;
pub mod error;
pub mod filters;
pub mod models;
pub mod params;
pub mod response;
pub mod snippet_commands;
pub mod snippet_state_commands;
pub mod state;
pub mod store;
pub mod tag_commands;
pub mod text;
pub mod token;
pub mod user_commands;

verus! {

/// Generic newtype wrapper used to attach local trait implementations.
pub struct W<T>(pub T);

} // verus!
