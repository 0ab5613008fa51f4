//! Resolvers of two small graph services: a hat catalog and a user directory.
//!
//! Every resolver is a plain function with a contract over the views of its
//! arguments and its result. Transport, schema wiring and serving live outside
//! this crate and hand plain values in.

pub mod product;
pub mod transport;
pub mod user;
