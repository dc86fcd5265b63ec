//! Verified core of a Minecraft login/status proxy.

pub mod wire;
pub mod text;
pub mod config;
pub mod protocol;
pub mod status;
pub mod legacy;
pub mod session;
pub mod profile;
pub mod brand;
pub mod incoming;
pub mod fake_server;
pub mod backend;
pub mod server_handle;
pub mod play;
