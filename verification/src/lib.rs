//! A verified filter-and-aggregate pipeline for a realtime transit feed.
//!
//! The crate ingests decoded vehicle-position records, narrows them to a
//! configured set of routes and stations, resolves display names through a
//! static schedule catalog, and folds the result into per-station updates.
//! The surrounding application supplies the network I/O and the decoded
//! feed; everything that decides or computes lives here, with contracts.

pub mod aggregate;
pub mod catalog;
pub mod feed;
pub mod filter;
pub mod scheduler;
