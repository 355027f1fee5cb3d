//! Terminal interface: navigation, key handling and screen content.

pub mod app;
pub mod config;
pub mod event;
pub mod layout;
pub mod state;
pub mod view;
