//! Per-cycle generational heap accounting over a JVM garbage-collection
//! event log.
//!
//! The library consumes a time-ordered stream of GC telemetry events
//! ([`events::JfrEvent`]), folds it into one accumulator record per
//! garbage-collection id ([`candle::Candle`], keyed in an
//! [`aggregate::CandleMap`]), and derives chart-ready numeric series from
//! the completed accumulators ([`graphs::Graphs`]): stacked before/after
//! heap occupancy bars per cycle and tenuring-age scatter series.
//!
//! Parsing the event log out of JSON, serving the series over HTTP and
//! rendering them are left to the surrounding program; the library works on
//! plain values and states what it computes in contracts.

pub mod aggregate;
pub mod args;
pub mod candle;
pub mod events;
pub mod graphs;
pub mod series;
pub mod tenuring;
pub mod text;
