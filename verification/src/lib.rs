//! Named proxy-redirection configurations: the configuration model, the
//! chain-definition renderer, the store with its single active slot, the live
//! search filter, the creation wizard and the key-driven mode machine of the
//! terminal interface.
//!
//! The library decides and computes; it never touches the terminal, the
//! filesystem or a process. Every operation that needs outside work hands back
//! the ordered commands that the caller has to carry out.

pub mod text;
pub mod configuration;
pub mod error;
pub mod store;
pub mod search;
pub mod wizard;
pub mod tui;
pub mod paths;
pub mod bindings;
pub mod proxy_controller;
pub mod display;
