//! A fixed-window rate limiter.
//!
//! For each identity and feature the limiter counts the calls made in a
//! window of seconds. A call that finds the count at the limit sets a block,
//! and the limiter reports the time at which the block lifts.
//!
//! - [`usage`] holds the record of one identity and feature and the rules
//!   that a call applies to it.
//! - [`blocks`] holds the feature table of one identity.
//! - [`index_map`] holds the identity index, a map that reuses the slots of
//!   removed keys; [`slots`] is its mathematical model.
//! - [`directive`] holds the directives and what handling one does to the
//!   index and to a table.
//! - [`laws`] states what holds over several directives.
//! - [`time`], [`feature`] and [`error`] hold the clock, the feature codes and
//!   the errors.

pub mod blocks;
pub mod directive;
pub mod error;
pub mod feature;
pub mod index_map;
pub mod laws;
pub mod slots;
pub mod time;
pub mod usage;

pub use crate::directive::Directive;
pub use crate::error::Error;
pub use crate::feature::{Feature, FeatureRaw};
