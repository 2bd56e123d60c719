//! Control plane of a small router: run-state, supervision decisions,
//! firewall rule planning, configuration and wireless views.

pub mod bus;
pub mod state;
pub mod process;
pub mod services;
pub mod system;
pub mod websocket;
pub mod text;
pub mod wifi;
pub mod iwd;
pub mod net;
pub mod interfaces;
pub mod config;
pub mod netfilter;
