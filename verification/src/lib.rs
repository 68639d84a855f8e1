//! A verified model of a form-binding helper for a component framework.
//!
//! The library models the logic of a small form component: a shared store
//! cell holding the form state, a binder that turns typed events into
//! reductions of that state, and a controller that owns the submit/reset
//! lifecycle, default-value management and the set of live file-read tasks.

pub mod events;
pub mod form;
pub mod store;
pub mod tasks;
pub mod value;

use vstd::prelude::*;

verus! {

/// Scope marker for the shared store a form binds to.
pub struct FormScope;

} // verus!
