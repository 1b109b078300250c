//! Statistics of a music player daemon, published as counters in the
//! text exposition format that metrics collectors scrape.
//!
//! The crate holds the part of an exporter that can be reasoned about:
//! which samples a statistics record yields, what their text looks like,
//! and which response a scrape gets. Sockets, the daemon connection and
//! the process set-up belong to the program built around it.

pub mod duration;
pub mod exposition;
mod render;
pub mod metric;
pub mod handler;
pub mod laws;
