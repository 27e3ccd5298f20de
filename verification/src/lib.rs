//! Configuration for an object-storage client: credentials, endpoint,
//! protocol and retry settings, with validation of the required fields.

pub mod config;
pub mod document;
pub mod service;
pub mod yaml;
