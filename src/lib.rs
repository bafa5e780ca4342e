//! Battery state tracking: snapshots of a battery reading, last-value
//! broadcast of the current snapshot, the poll floor of the change feed,
//! content deduplication of the emitted text and the low-battery alert
//! throttle.

pub mod alert;
pub mod config;
pub mod feed;
pub mod monitor;
pub mod output;
pub mod state;
pub mod uevent;

