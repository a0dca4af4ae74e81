//! The data that the API exchanges about users and their interactions.

pub mod id;
pub mod interactions;
pub mod users;
