//! The API gateway.
pub mod access;
pub mod accounts;
pub mod apikeys;
pub mod audit;
pub mod auth;
pub mod connections;
pub mod dashboard;
pub mod event_stream;
pub mod jwt;
pub mod protocol;
pub mod rate_limiter;
pub mod reply;
pub mod rest;
pub mod traces;
pub mod ws;
