//! Logon-event recorder core: a record model, a spreadsheet document codec,
//! and a merge/append engine that keeps one tabular log file per day.
//!
//! The library is organised leaves-first:
//! - [`date`] converts between unix-second timestamps and civil date parts;
//! - [`cell`] models the typed cells a document row is made of;
//! - [`row`] is the canonical record shape and its row codec;
//! - [`workstation`] and [`user_entry`] are the two log schemas;
//! - [`reader`] and [`sheet`] wrap the spreadsheet crates behind contracts;
//! - [`codec`] reads and renders whole documents;
//! - [`append`] merges one new record into a document and re-renders it;
//! - [`period`] classifies a time of day into a named school period;
//! - [`collect`] holds the identity/hardware fact records and the
//!   distinguished-name parsing used to fill them.

pub mod append;
pub mod cell;
pub mod codec;
pub mod collect;
pub mod date;
pub mod error;
pub mod period;
pub mod reader;
pub mod row;
pub mod sheet;
pub mod user_entry;
pub mod workstation;
