//! Import of binary activity files into a relational store: record
//! decoding, aggregation of records into activities and devices, planning
//! of idempotent imports, and the lifecycle of the store's schema.

pub mod aggregate;
pub mod cli;
pub mod commands;
pub mod config;
pub mod db;
pub mod models;
pub mod record;

use vstd::prelude::*;

verus! {

/// The version of the program, recorded in the store's metadata.
pub const VERSION: &'static str = "v0.3.0";

} // verus!
