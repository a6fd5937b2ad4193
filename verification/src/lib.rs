//! The parts of the Portmaster desktop application that decide something,
//! without the parts that do something.
//!
//! At the centre stands the client of the PortAPI protocol, which lets many
//! callers share one connection to the database of the server:
//!
//! - `message` is the wire codec, one line of text for each message;
//! - `types` is the vocabulary of requests and responses;
//! - `client` is the state of the actor that owns the connection: the
//!   identifiers it gives out and the routes it keeps;
//! - `supervisor` is the state machine that keeps a connection alive.
//!
//! Around it stand the decisions of the application itself: `portmaster`
//! and `commands` for what the user interface stores and asks, `tray` and
//! `window` for what is shown, `startup` for the command line and for
//! requests to close, `service` for the system service, and `xdg` for the
//! desktop entries of programs. `text` and `store` are what they share.
//!
//! Nothing here reads a socket, runs a program or draws a window. Each
//! function takes what happened as plain values and returns what follows
//! from it, so that every answer can be stated and proved.

pub mod client;
pub mod commands;
pub mod message;
pub mod portmaster;
pub mod service;
pub mod startup;
pub mod store;
pub mod subsystem;
pub mod supervisor;
pub mod text;
pub mod tray;
pub mod types;
pub mod window;
pub mod xdg;
