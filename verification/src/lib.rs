//! Updates of installed game titles: what the update tool is asked, what
//! its output means, and what is remembered of its answers.
//!
//! The library decides and computes; it starts no process and reads no file.
//! A caller runs the update tool with the arguments that the library gives
//! and hands back what the tool printed and how it exited.
//!
//! - `cache`: bounded caches of update checks with a time to live, over the
//!   least-recently-used store of `lru_store`.
//! - `steam`: the events of an update, the parser of the tool's output
//!   (`steam::parser`), the tool's command lines and the remembered checks
//!   (`steam::manager`), and the course of one update from its first event
//!   to its result (`steam::update`).
//! - `games`, `registry`, `commands`: installed titles of Steam and Epic,
//!   the files that name them, and the answers given to a front end.
//! - `settings`, `logging`: the user's settings and their stored form.
//! - `text`: the searches, splits and number notations underneath.
//! - `clock`, `json`, `lru_store`: the calls into other crates.

pub mod cache;
pub mod clock;
pub mod commands;
pub mod error;
pub mod games;
pub mod json;
pub mod logging;
pub mod lru_store;
pub mod registry;
pub mod settings;
pub mod steam;
pub mod text;
