//! The logic of a location-based matching service: the session guard that
//! every protected request passes, the engine that turns one-directional
//! swipes into symmetric matches, and the cache-aside handling of profile
//! pictures.
//!
//! Nothing here touches a database, a cache server or a file system. A
//! handler is a function from where it stands and what it was last handed
//! to where it stands next and what it wants done; its caller performs the
//! work and comes back with the outcome. The same handlers therefore run
//! against a real store and against the store held in memory that this
//! crate brings along, and what is proved of a handler on the latter holds
//! on the former as far as the two behave alike.
//!
//! - [`exchange`]: the effects that handlers ask for, their outcomes, and
//!   the answers to requests.
//! - [`auth`] and [`paths`]: the session guard and the handlers.
//! - [`backend`], with [`tables`] and [`blobs`]: the store held in memory,
//!   which gives every effect its meaning.
//! - [`engine`], [`media`], [`accounts`] and [`service`]: the handlers run
//!   to their end on that store, each stated as one operation.
//! - [`theorems`]: what holds of those operations.
//! - [`names`], [`db`], [`error`] and [`password`]: the order on user names,
//!   the rows, the failures, and the hashing of passwords.

pub mod accounts;
pub mod auth;
pub mod backend;
pub mod blobs;
pub mod db;
pub mod engine;
pub mod error;
pub mod exchange;
pub mod media;
pub mod names;
pub mod password;
pub mod paths;
pub mod service;
pub mod tables;
pub mod theorems;
