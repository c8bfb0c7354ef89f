//! Cache-aside gateway core: canonical cache keys, resource allow-listing,
//! upstream reply classification and the get-or-fetch-and-populate protocol,
//! written as pure decisions that a server loop drives.

pub mod text;
pub mod config;
pub mod params;
pub mod json;
pub mod key;
pub mod error;
pub mod gateway;
pub mod youtube;
pub mod wordpress;
pub mod protocol;
pub mod limits;
