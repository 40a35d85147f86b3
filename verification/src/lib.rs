//! The decision logic of a desktop application shell: the pending-logout flag
//! and the two shutdown sequences that give the user interface a grace period
//! before the process goes away.

pub mod closing;
pub mod logout;
