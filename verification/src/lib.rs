//! Resolution of song metadata for a (title, artist) pair: a store is asked
//! first, a catalog second, and the catalog's answer is reduced to one album,
//! year, duration and genre.

pub mod catalog;
pub mod model;
pub mod resolver;
pub mod selector;
pub mod store;
pub mod telemetry;
pub mod text;
pub mod year;
