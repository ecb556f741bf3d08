//! Generates Home Assistant SQL sensor configuration from a database of monitored nodes.

pub mod catalog;
pub mod cfg_gen;
pub mod cfg_parse;
pub mod cli;
pub mod decimal;
pub mod entry_laws;
pub mod generator;
pub mod hass;
pub mod hass_cfg;
pub mod query_laws;
pub mod run_laws;
pub mod spacing;
