//! A bridge between a line-oriented publish/subscribe bus on the local
//! network and a remote one, as a library that does no input or output.
//!
//! Every part is a function from what was observed to what is to be done
//! next, with a contract over mathematical sequences of characters:
//!
//! - `text`: whitespace, tokens, decimal numbers;
//! - `subject`: putting a subject under a namespace and taking it out again;
//! - `frame`: the frames of the local bus, written and told apart;
//! - `json_text`: what the bridge needs of JSON, through the `json` crate;
//! - `socket`: the life of a connection and its callbacks;
//! - `nats`: the subscribing and the publishing client of the local bus;
//! - `bridge`: the four workers that carry messages between the buses;
//! - `config`: the configuration and where it comes from.
//!
//! A program that owns the sockets, threads and queues performs what these
//! parts ask for and reports back how it went.

pub mod bridge;
pub mod config;
pub mod frame;
pub mod json_text;
pub mod nats;
pub mod socket;
pub mod subject;
pub mod text;
