//! Guest-side data model and host bridge for plugins.
//!
//! A plugin cannot see or call into its host. It exchanges values with it
//! over a line-oriented channel, one JSON document per line, and signals it
//! through a small set of host functions. This crate holds the values that
//! cross that boundary, their wire form, and the plan of every host call.

pub mod data;
pub mod error;
pub mod json;
pub mod shim;
pub mod text;
