//! Access control and resource lifecycle for a tokenized real-estate
//! investment platform: who a caller is, what their role lets them do,
//! which rows they may list, and what a property's lifecycle state allows.
use vstd::prelude::*;

pub mod role;
pub mod text;
pub mod models;
pub mod policy;
pub mod auth;
pub mod lifecycle;
pub mod scope;
pub mod guard;
pub mod actions;
pub mod migration;

pub use role::UserRole;

verus! {

} // verus!
