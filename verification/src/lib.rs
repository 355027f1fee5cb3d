//! Verified core of a configuration client for a remote micro-gateway:
//! entity models, request planning, command selection, playbook checks and
//! the navigation and selection state of the terminal interface.

pub mod text;
pub mod models;
pub mod network;
pub mod api;
pub mod event;
pub mod ui;
pub mod cli;
pub mod derive;
pub mod common;
