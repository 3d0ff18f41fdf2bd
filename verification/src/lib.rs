//! # hanzo-tunnel
//!
//! Cloud tunnel client for Hanzo apps: register, stream, and remote-control
//! local instances from `app.hanzo.bot`.
//!
//! The library holds the rules of the tunnel: the frames and how they are
//! written and read ([`protocol`], [`gateway`], [`registry`], [`expose`]), what
//! to dial and what to do with each event of a connection ([`transport`],
//! [`gateway`]), how commands are dispatched ([`commands`]) and which terminal
//! sessions there are ([`terminal`]). Sockets, processes and channels belong to
//! the caller, who performs the actions that come out of these rules and
//! reports what happened.

pub mod auth;
pub mod commands;
pub mod discovery;
pub mod expose;
pub mod gateway;
pub mod ident;
pub mod json;
pub mod members;
pub mod protocol;
pub mod registry;
pub mod table;
pub mod terminal;
pub mod text;
pub mod timing;
pub mod transport;
pub mod tunnel;
pub mod wire;

pub use protocol::{AppKind, CommandPayload, EventPayload, Frame, ResponsePayload};
pub use tunnel::{
    connect, connect_and_register, TunnelConfig, TunnelConnection, TunnelError,
};
