//! Read-only preflight checks for Solana validator hosts.

pub mod model;
pub mod text;
pub mod argv;
pub mod host;
pub mod ctx;
pub mod checks;
pub mod privilege;
pub mod menu;
pub mod registry;
pub mod render;
