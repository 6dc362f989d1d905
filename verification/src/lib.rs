//! Point-in-time and sampled views of the processes of a running system,
//! computed from the text of the per-process pseudo-files.
//!
//! The library reads no file and no clock. Its caller reads the pseudo-files
//! and hands their text over; the library turns the text into records,
//! counts and reports, and says in contracts what these are.
//!
//! - `text`: characters, lines, separated fields and decimal numbers.
//! - `table`: lines that begin with a key.
//! - `limits`: the table of resource limits.
//! - `struct_proc`: the records.
//! - `proc`: the record of one process, and the list of all processes.
//! - `stats`: counts and totals over many records.
//! - `live`: following one process from sample to sample.
//! - `display`: results as plain text.
//! - `cli`: from a command to a plan.

pub mod cli;
pub mod display;
pub mod limits;
pub mod live;
pub mod proc;
pub mod stats;
pub mod struct_proc;
pub mod table;
pub mod text;
