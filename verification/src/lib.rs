//! A verified core for a smart-meter metrics exporter.
//!
//! A collector drives a decoded stream of meter telegrams and folds every
//! `Reading` into a `MetricsStore`; an exporter answers each scrape request
//! with a snapshot of that store. The store, the fold, the collector's
//! failure-handling decisions and the scrape reply are specified and proved
//! here; sockets, timers and the metrics-text encoding stay with the caller.

pub mod collector;
pub mod decode;
pub mod exporter;
pub mod reading;
pub mod store;
