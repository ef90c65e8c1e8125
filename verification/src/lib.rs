//! Layered configuration for the capsule manager service.
//!
//! A configuration is a fixed tree of optional settings. Three sources may
//! supply a setting: the command line, an optional configuration file and the
//! built-in defaults, in that order of priority. The modules below hold the
//! rule for a single setting, the configuration shape with its merge operator,
//! the resolution of the three sources, and the precedence laws proved of it.

pub mod leaf;
pub mod config;
pub mod precedence;
pub mod resolve;
