//! State layer of a single-window todo list: an authoritative item store,
//! a change-notification bus, and the row window a list view rebuilds from
//! the store after every change.

pub mod item;
pub mod state;
pub mod bus;
pub mod list;
