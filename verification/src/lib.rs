//! Query pipelines, a paged query engine, a bounded parallel requester and a
//! freshness cache for live trips, for a public-transit data service backed by a
//! document store.
//!
//! The library makes no round trip of its own. The query engine and the freshness
//! cache say what is to be asked of the store and of the upstream provider, and
//! take the answers; the parallel requester says which requests may run. The
//! program around the library performs them.
//!
//! - [`pipeline`]: a filter with sort and page, compiled to stage lists.
//! - [`query`]: the order of the round trips of a paged query, and its result.
//! - [`requester`]: requests to upstream under a ceiling of concurrency.
//! - [`tracking`]: the freshness cache for the live status of trips.
//! - [`trip`], [`params`], [`time`]: the filters and pipelines that requests make.
//! - [`response`]: answers and errors with their status.
//! - [`config`], [`data`], [`tt`]: configuration, records and upstream payloads.
//! - [`document`], [`text`], [`number`], [`clock`]: BSON documents, text, numerals
//!   and the clock.

pub mod clock;
pub mod config;
pub mod data;
pub mod document;
pub mod number;
pub mod params;
pub mod pipeline;
pub mod query;
pub mod requester;
pub mod response;
pub mod text;
pub mod time;
pub mod tracking;
pub mod trip;
pub mod tt;
