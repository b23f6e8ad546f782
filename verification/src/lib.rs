//! Enseada: an artifact registry with an OCI/Docker distribution API and an
//! OAuth 2.0 authorization server. This crate holds the registry's and the
//! authorization server's rules, verified with Verus.

pub mod text;
pub mod config;
pub mod clock;
pub mod guid;
pub mod links;
pub mod pattern;
pub mod oauth;
pub mod oauth_impl;
pub mod handlers;
pub mod containers;
pub mod couchdb;
pub mod docker;
pub mod error;
pub mod http;
