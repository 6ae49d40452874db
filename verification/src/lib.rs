//! A read-model query library for a "person" (user account) entity.
//!
//! The library answers three kinds of requests over a snapshot of the person,
//! person-aggregates and local-account tables: fetch one person's aggregated
//! profile, list people matching an administrative predicate (admins,
//! currently-banned users), and list people matching an ad-hoc query (text
//! search, sort order, pagination).  Every operation is a side-effect-free
//! function of the snapshot it is given, with a contract that pins its result.

pub mod data;
pub mod errors;
pub mod laws;
pub mod ordering;
pub mod pagination;
pub mod person_view;
pub mod search;
pub mod sort_key;
