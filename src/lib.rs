//! Driving an external WAL-redo process: the wire protocol spoken over its
//! pipes, the plan of messages for one page, the recycling policy of the
//! worker that owns the process, and the publication of results into a
//! cache entry.
pub mod buf;
pub mod codec;
pub mod entry;
pub mod error;
pub mod redo;
pub mod worker;
