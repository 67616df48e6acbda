//! A verified model of a minimal server-rendered task list.
//!
//! The library holds the logic of a small CRUD application: a store of
//! to-do rows with unique ids, the three remote operations (`list`,
//! `add`, `delete`) that mutate or read it, a uniform error type that
//! every storage failure is wrapped into, and the state machine of the
//! page that lists the tasks.  The surrounding I/O — the relational
//! store itself, the HTTP server and the rendering engine — lives
//! outside the library and hands it plain values.

pub mod errors;
pub mod laws;
pub mod ops;
pub mod store;
pub mod task;
pub mod ui;
