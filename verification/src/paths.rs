//! The request handlers, one module for each group of routes.

pub mod matches;
pub mod swipe;
pub mod users;
