//! Core of a blog backend: threaded comments with bounded nesting, a
//! fixed-window rate limiter, a cache that is kept coherent across writes,
//! and the per-user notification fan-out that replies trigger.
//!
//! Nothing in this crate performs I/O. Each request is a small state machine
//! that names the next thing to ask of the database or the cache and is
//! resumed with the answer; an in-memory backend answers the same questions
//! for tests and gives the contracts something to speak about.

pub mod analytics;
pub mod auth;
pub mod cache;
pub mod comment;
pub mod health;
pub mod ident;
pub mod notification;
pub mod post;
pub mod store;
pub mod text;
pub mod websocket;
