//! Event-sourced tracking of aircraft observed by a network of ADS-B receiver stations.
//!
//! Normalised aircraft reports are translated into domain events, folded into
//! per-aircraft and station-directory aggregates, kept in a keyed store with
//! sliding expiry and handed on for publication.
//!
//! - `adsbtypes`: the report that a station forwards.
//! - `provider`: from a broadcast frame to a report.
//! - `esmodel`: the events, the two aggregates and their folds.
//! - `store`: the keyed store with expiry and its sets of keys.
//! - `processor`: the pipeline from a report to the stored aggregates.
//! - `rest`: the queries over the store.
//! - `dashboard`: the tables of the terminal dashboard.
//! - `keyed`, `textorder`: maps keyed by strings, and the order of texts.
//!
//! Angles and speeds are never computed with here. Each is held as the 64 bits
//! of its IEEE 754 double-precision encoding, which the caller makes with
//! `to_bits` and reads with `from_bits`.

pub mod adsbtypes;
pub mod dashboard;
pub mod esmodel;
pub mod keyed;
pub mod processor;
pub mod provider;
pub mod rest;
pub mod store;
pub mod textorder;
