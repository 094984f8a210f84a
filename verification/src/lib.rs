//! Verified core of a Prometheus range-query plotting tool.
//!
//! The library models the upstream query-range response, formats metric
//! display labels, validates sample values before they are charted, and
//! makes the orchestration decisions (title/query pairing, live-page
//! assembly). All network, rendering and CLI work lives outside the
//! library and hands plain values in and out.

pub mod chart;
pub mod clock;
pub mod orchestrate;
pub mod prometheus;
pub mod text;
