//! What the operations are for: laws over the arguments and results of the library's functions.
//!
//! Each law takes what a function was given and what it returned, and says what holds between
//! them in terms of the values themselves: fields, texts and numbers.

pub mod availability;
pub mod changes;
pub mod claims;
pub mod courses;
pub mod documents;
pub mod errors;
pub mod messages;
pub mod queues;
pub mod serving;
pub mod settings;
pub mod states;
pub mod storing;
pub mod texts;
