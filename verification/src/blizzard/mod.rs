//! The API server: configuration, errors, password hashing, users and
//! authentication.

pub mod config;
pub mod db;
pub mod error;
pub mod hash;
pub mod token;
pub mod user;
pub mod auth;
pub mod route;
