//! Verified core of an HH.ru vacancy search and apply service: request
//! validation, URL construction, text normalisation, error mapping, and the
//! decision logic of the browser-driven search and apply flows.
pub mod text;
pub mod url;
pub mod utils;
pub mod config;
pub mod errors;
pub mod models;
pub mod routes;
pub mod services;
