//! Packet: the verified core of a Quick Share client.

pub mod protocol;
pub mod utils;
pub mod i18n;
pub mod objects;
pub mod text;
pub mod widgets;
pub mod window;
pub mod config;
pub mod plugins;
