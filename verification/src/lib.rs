//! Verified core of a self-hosted CI/CD agent: workflow interpretation,
//! build configuration, blue-green deployment decisions, request routing,
//! webhook handling and the small data models they share.

pub mod text;
pub mod assoc;
pub mod models;
pub mod events;
pub mod yaml;
pub mod workflow;
pub mod interpreter;
pub mod config;
pub mod detector;
pub mod proxy;
pub mod deploy;
pub mod docker;
pub mod builder;
pub mod webhook;
pub mod github;
pub mod settings;
pub mod stored;
pub mod notify;
pub mod queue;
pub mod trace;
pub mod maintenance;
pub mod api;
