//! A client of the Linux routing netlink family: the codec of its messages
//! and attributes, and the engine of the dialogue with the kernel.
//!
//! The library works on bytes and plain values and opens no socket. The
//! [`dialogue`] says which bytes to write and how many to read; whoever holds
//! the socket does so and hands back what was read.
//!
//! - [`align`], [`deserialize`] and [`serialize`] hold the alignment
//!   arithmetic and the primitive values of the wire format.
//! - [`message`] holds the envelope, [`attr`] the attributes of every family,
//!   and [`route`], [`route_attr`], [`link_attr`], [`link_info_attr`] and
//!   [`stats`] what the routing family puts into them.
//! - [`client`] holds the requests that list routes and interfaces and the
//!   records that their replies are read into.
//! - [`transport`] and [`reader`] follow the bytes that go out and come in.

pub mod align;
pub mod attr;
pub mod client;
pub mod deserialize;
pub mod dialogue;
pub mod error;
pub mod link_attr;
pub mod link_info_attr;
pub mod message;
pub mod reader;
pub mod route;
pub mod route_attr;
pub mod route_message;
pub mod serialize;
pub mod stats;
pub mod transport;

pub use crate::dialogue::Dialogue;
pub use crate::error::{Error, Result};
pub use crate::message::{
    Envelope, Flag, MessageType, NetlinkHeader, NetlinkHeaderDescriptor, NetlinkMessage,
    NetlinkMessageBuilder,
};
