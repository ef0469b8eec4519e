//! Client-side core of an agent daemon SDK.

pub mod agent;
pub mod client;
pub mod connection;
pub mod contexts;
pub mod errors;
pub mod hubs;
pub mod identity;
pub mod incoming;
pub mod initialization;
pub mod interactions;
pub mod json;
pub mod protocol;
pub mod receiver;
pub mod recovery;
pub mod registration;
pub mod requests;
pub mod run;
pub mod run_routes;
pub mod runtime;
pub mod session_build;
pub mod session_management;
pub mod session_views;
pub mod sessions;
pub mod stream;
pub mod tables;
pub mod text;
pub mod tool_packs;
