//! Batched resolution of the processed data of data collections.
//!
//! Within one request many resolvers ask for related rows by key. A
//! [`collector::BatchLoader`] gathers the keys of one tick, has them fetched
//! in a single query, keeps what came back for the rest of the request and
//! tells every caller what became of its key. The [`loaders`] say, for each
//! kind of relationship, which query is sent for a batch and how the rows
//! that return are filed under their keys; the [`resolvers`] turn a reference
//! of the gateway into a stub and a field of a stub into a key to ask for.

pub mod collector;
pub mod config;
pub mod download;
pub mod entities;
pub mod keyed;
pub mod keys;
pub mod loaders;
pub mod object_key;
pub mod plan;
pub mod resolvers;
pub mod rows;
