//! Core logic of a terminal client that browses space-telescope imagery and
//! drives image generation on a remote machine through forwarded ports.

pub mod app;
pub mod config;
pub mod json;
pub mod paths;
pub mod screens;
pub mod services;
pub mod text;
pub mod utils;
