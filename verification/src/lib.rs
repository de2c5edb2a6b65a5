//! Streams operator text into a remote chatbox over OSC datagrams.
//!
//! The crate holds the decisions of such a tool and none of its I/O: it
//! encodes messages, cuts an input stream into snapshots, and tells its
//! caller which datagram to send or what to read next.

pub mod address;
pub mod client;
pub mod message;
pub mod osc;
pub mod run;
pub mod segmenter;
pub mod session;
pub mod settings;

pub use address::{vrchat_osc_addr, IpAddress, SocketAddress};
pub use client::{Client, ClientBuilder};
pub use message::{encode, EncodeError, Endpoint};
pub use segmenter::{BufferMode, Segmenter};
pub use session::{Action, Command, Controller, Event, Phase, SendOutcome, Session};
