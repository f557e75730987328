use vstd::prelude::*;

pub mod device_model;
pub mod alsa_fallback;
pub mod chain;
pub mod client;
pub mod daemon;
pub mod daemon_loop;
pub mod device;
pub mod effects;
pub mod filter_chain;
pub mod messages;
pub mod migrations;
pub mod presets;
pub mod routing;
pub mod server;
pub mod text;
pub mod wavexlr;
