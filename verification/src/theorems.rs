//! What holds of the service whatever it is asked to do.

pub mod accounts;
pub mod concurrency;
pub mod engine;
pub mod media;
pub mod service;
pub mod store;
