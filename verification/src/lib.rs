//! The request logic of a small chat service: what each endpoint computes
//! from the rows that the database hands back, and, for the endpoints that
//! talk to the database several times, the sequence of statements it issues.

pub mod decimal;
pub mod models;
pub mod records;
pub mod account;
pub mod search;
pub mod friend_info;
pub mod add_group;
pub mod add_friend;
