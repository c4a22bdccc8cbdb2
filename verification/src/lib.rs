//! Composable transport and protocol-upgrade negotiation layer for a
//! peer-to-peer networking stack.
//!
//! The two central capabilities are [`transport::Transport`] (dialing and
//! listening on a network address) and [`upgrade::ConnectionUpgrade`]
//! (negotiating and applying a protocol layer on top of a raw connection).
//! Two transports combine with [`transport::OrTransport`] (fallback), two
//! upgrade sets with [`upgrade::OrUpgrade`] (choice), and
//! [`node::UpgradedNode`] binds a transport to an upgrade set and drives
//! the phases of one dial or one accepted connection: transport connect,
//! protocol negotiation, upgrade application.
//!
//! The negotiation wire exchange itself and concrete network substrates are
//! external collaborators; they hand their results back to the driver in
//! [`node`] as plain values.

pub mod addr;
pub mod conn;
pub mod deferred;
pub mod either;
pub mod errors;
pub mod memory;
pub mod node;
pub mod transport;
pub mod upgrade;
