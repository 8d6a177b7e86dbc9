//! The rules of a concurrent bulk downloader: how the list of addresses is
//! built, how an output file is named, what a worker does with a claimed
//! index, and what a pool of workers is guaranteed to have done when it stops.

pub mod arguments;
pub mod cursor;
pub mod decimal;
pub mod filename;
pub mod pool;
pub mod targets;
pub mod text;
pub mod transfer;
pub mod worker;
