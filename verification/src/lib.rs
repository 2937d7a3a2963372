//! Core of a marine-forecast tool: a provider registry, configuration
//! resolution under strict precedence rules, and a timezone-safety layer
//! that keeps raw UTC timestamps apart from display-ready local ones.

pub mod ai;
pub mod calendar;
pub mod config_types;
pub mod num;
pub mod text;
pub mod errors;
pub mod external;
pub mod timestamp;
pub mod timezone;
pub mod providers;
pub mod registry;
pub mod resolver;
