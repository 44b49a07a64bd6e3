//! Export of every user table of a relational database into delimited text,
//! one output per table.
//!
//! The crate holds the decisions of the export: how a cell becomes text, how
//! the derived timestamp column is inserted, how a record is delimited, how one
//! table's export proceeds from event to event, which tables are exported and
//! how the outcomes are summed up. Reading the database and writing files is
//! left to the caller, who feeds events in and performs the actions handed
//! back.

pub mod cell;
pub mod config;
pub mod coordinator;
pub mod delimited;
pub mod discovery;
pub mod error;
pub mod export;
pub mod row;
pub mod schema;
pub mod text;
pub mod timestamp;
