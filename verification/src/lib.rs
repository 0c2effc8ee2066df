//! Verified core of a client for the Copernicus Data Space Ecosystem catalogue.

pub mod error;

pub mod text;
pub mod models;
pub mod search;
pub mod download;
pub mod s3;
pub mod geometry;
pub mod json;
pub mod dates;
pub mod auth;
pub mod tui;
pub mod session;
pub mod keys;
pub mod panes;
pub mod form;
pub mod laws;
pub mod request_laws;
