//! Planning and bookkeeping for a batch downloader. A list of named URLs is
//! read, cut into contiguous ranges, one per worker, and every worker walks
//! its range in order, ordering one fetch per item and reporting how it
//! ended.
//!
//! The crate performs no input or output and starts nothing. It decides what
//! is read, what is fetched, by whom, in which order and with which
//! arguments, and what is printed; a driver does as it is told and tells
//! what came of it.
//!
//! - [`partition`] cuts a list into ranges and states what holds of them.
//! - [`source`] holds the work items and reads them from delimited text.
//! - [`text`] holds the character-level building blocks.
//! - [`fetch`] says where a file goes and how the fetcher is called.
//! - [`report`] builds what a worker prints.
//! - [`worker`] takes one range from its first item to its last.
//! - [`session`] takes a run from the input file to the last worker.
//!
//! Every function is verified against its contract. One fact is taken on
//! trust: what the standard library's `String::push` does, stated in
//! [`text`].

pub mod fetch;
pub mod partition;
pub mod report;
pub mod session;
pub mod source;
pub mod text;
pub mod worker;
