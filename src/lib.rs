//! A command-line OAuth2 "authorization code" driver for CenterDevice, Pocket
//! and Slack, with the request builders and response readers of their clients.
//!
//! The library decides; the program around it acts. Authentication runs as a
//! state machine (`driver`, `pocket_auth`) whose actions the caller performs:
//! presenting a URL, reading the operator's code, sending an `HttpRequest`.
pub mod centerdevice;
pub mod config;
pub mod driver;
pub mod encoding;
pub mod http;
pub mod json;
pub mod oauth;
pub mod pocket;
pub mod pocket_auth;
pub mod query;
pub mod slack;
pub mod token;
