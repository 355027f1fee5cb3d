//! Command line client: commands, the command registry, the client's
//! bookkeeping of pending answers, its settings and playbooks.

pub mod app;
pub mod command;
pub mod commands;
pub mod config;
pub mod playbook;
