//! Probing a router's NAT behaviour from outside.
//!
//! A client behind the router says hello to a first server. That server
//! answers with the address it saw the hello come from, probes the client
//! once more from a second port, and tells a second server, on another host,
//! where the client is; the second server probes the client too. Which of
//! the two probes get through says how the router maps and filters:
//!
//! | probe from                      | arrived                 | did not arrive        |
//! |---------------------------------|-------------------------|-----------------------|
//! | first server, second port       | address-restricted cone | port-restricted cone  |
//! | second server                   | full cone               | nothing can be said   |
//!
//! The two rows are read apart and reported side by side.
//!
//! This crate holds the messages and the decisions, and touches no socket.
//! Each role is a rule from a state and an [`event::Event`] to the next state
//! and an action; the program around it performs the action and comes back
//! with the event that the network answered. The rules are spec functions
//! ([`client::client_next`], [`server1::server1_next`],
//! [`server2::server2_next`]), the functions that compute them are proved to
//! follow them, and what the protocol promises is proved of the rules.
//!
//! - [`endpoint`]: addresses with ports, and their wire form
//! - [`protocol`]: the messages and their bytes
//! - [`event`]: what the network answers
//! - [`port`]: the choice of the first server's second port
//! - [`client`], [`server1`], [`server2`]: the three roles
//!
//! One thing is taken on trust: that the random draw in [`port`] stays within
//! the bounds it is given.

pub mod client;
pub mod endpoint;
pub mod event;
pub mod port;
pub mod protocol;
pub mod server1;
pub mod server2;
