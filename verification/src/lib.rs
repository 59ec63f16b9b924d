//! Core of a live trading runtime: venue connectors are registered under
//! names, instruments are bound to them and numbered densely at build time,
//! connector-reported order snapshots are applied to per-asset order maps
//! under a strict status-transition discipline, and the live maps are exposed
//! to read-only callers through point lookup and cursor iteration.

pub mod bot;
pub mod builder;
pub mod connector;
pub mod decode;
pub mod orders;
pub mod types;
