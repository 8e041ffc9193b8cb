//! A URL shortener's core: validation of submitted links, the shorten,
//! resolve, QR and location workflows, and an in-memory link store that
//! gives those workflows their meaning.

pub mod utils;
pub mod config;
pub mod models;
pub mod links;
pub mod resolve;
pub mod store;
pub mod location;
