//! A rotating display of short reminders.
//!
//! The crate decides which reminders are eligible at a given local moment,
//! keeps the list that a backing source supplies, and moves a cursor through
//! the eligible ones on a fixed interval.

pub mod active;
pub mod clock;
pub mod record;
pub mod reminders;
pub mod scheduler;
pub mod source;
pub mod store;
pub mod text;
pub mod window;
