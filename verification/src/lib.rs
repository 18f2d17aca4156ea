//! Verified core of a OneBot forwarding service.

pub mod text;
pub mod template;
pub mod command;
pub mod config;
pub mod rule;
pub mod database_cache;
pub mod cache;
pub mod onebot;
pub mod mail;
pub mod impl_side;
pub mod sdk_side;
