//! Mesh networking for a grid of small displays.
//!
//! Every unit carries a 16-bit identity word, talks to its physical
//! neighbours in 8-byte frames, and has to find its own place in the
//! grid before it can route packets. This crate holds the protocol
//! logic as functions on plain values: it never touches a serial port
//! and never sleeps. A driver feeds it the frames it read and carries
//! out the actions it is handed back.
//!
//! From the bottom up: `utils`, `efuse`, `system` and `localnet` read
//! identity words; `header`, `flit` and `link` are the frames and the
//! handshake on one link; `packet`, `confirm_coordinate` and `transfer`
//! are the messages; `bootstrap`, `backoff` and `request_cycle` are the
//! search for the unit's own place; `protocol`, `global_network` and
//! `node` route packets through the grid; `task` hands them to
//! applications.

pub mod backoff;
pub mod bootstrap;
pub mod confirm_coordinate;
pub mod efuse;
pub mod error;
pub mod flit;
pub mod global_network;
pub mod header;
pub mod link;
pub mod localnet;
pub mod node;
pub mod packet;
pub mod protocol;
pub mod request_cycle;
pub mod system;
pub mod task;
pub mod transfer;
pub mod utils;
