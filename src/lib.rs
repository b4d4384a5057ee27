//! A small store of user records: creating, editing, deleting and listing
//! users in an ordered collection that is read and written as a whole.

pub mod command;
pub mod error;
pub mod ops;
pub mod user;
