//! Verified core of a bulk file downloader: a fixed-size pool of reusable
//! progress indicators handed out to concurrent download workers, an
//! aggregate completion counter, and a classifier that normalizes transport
//! failures into a closed error taxonomy.

pub mod coordinator;
pub mod dlm_error;
pub mod pool;
pub mod progress_bars;
pub mod worker;
