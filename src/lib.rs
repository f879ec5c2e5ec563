//! The screens of a desktop client for the guests of a virtualization cluster: a login
//! screen, a guest-selection screen and their forms, as state machines. Each `update`
//! takes a message and states exactly the next state and what it asks of the event loop.

pub mod client;
pub mod config;
pub mod connect;
pub mod login;
pub mod proxmox;
