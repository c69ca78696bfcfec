//! Backend sessions: operations by number, bound to one host.

pub mod calls;
pub mod cleanup;
pub mod effects;
pub mod laws;
pub mod model;
pub mod session;
