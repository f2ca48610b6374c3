//! Catalog synchronization and caching engine for a mod-catalog web API.
//!
//! The library's core is (a) a keyed time-to-live cache used by every read
//! path, (b) a cursor-driven walker that pulls a complete catalog page by
//! page, (c) a reconciler that normalizes heterogeneous per-entity tag data
//! into a typed shape, and (d) a snapshot writer that atomically replaces the
//! current catalog and appends one daily history row per entity.  All of it
//! is verified; the surrounding process (HTTP, database, scheduling loop)
//! lives outside and feeds the library plain values.

pub mod cache;
pub mod errors;
pub mod legacy;
pub mod parse;
pub mod reconcile;
pub mod schedule;
pub mod snapshot;
pub mod state;
pub mod steam;
pub mod walker;
