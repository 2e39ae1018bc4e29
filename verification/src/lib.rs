//! A conversational intake bot, specified and verified.
//!
//! The library is the bot's logic: a per-user finite-state dialogue engine,
//! a message-lifecycle discipline that keeps at most one bot message visible
//! per user, and a dedup-on-first-use asset cache. All state lives in
//! explicit stores; every operation is specified against a mathematical
//! model of those stores, so the dialogue table, the single-message
//! invariant and the cache's idempotence are proved, not tested in
//! isolation. Transport and persistence adapters live outside the library
//! and drive it one event at a time.

pub mod bot;
pub mod bot_config;
pub mod engine;
pub mod i18n;
pub mod image_cache;
pub mod message_control;
pub mod orders;
pub mod platform;
pub mod session;
pub mod store;
pub mod strutil;

pub use session::Language;
pub use session::Session;
pub use session::SessionState;
