//! Helpers around the session: symbol metadata, candles, downloads and
//! configuration.

pub mod bar_gen;
pub mod conv;
pub mod download;
pub mod session_config;
pub mod symbol_info;
pub mod symbol_store;
