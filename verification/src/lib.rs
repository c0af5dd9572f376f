//! Console login front-end core: the configuration it reads, the
//! authentication conversation it holds with the login daemon, and the
//! scheduling of the events that drive both.

pub mod config;
pub mod event;
pub mod greeter;
pub mod ipc;
pub mod text;
pub mod ui;
