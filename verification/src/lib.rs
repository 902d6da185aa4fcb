//! A small TCP server framework: messages and their wire format, a routing
//! table that hands each request to the router of its message id, and the
//! decisions that a connection takes between reads and writes.
#![allow(non_snake_case)]

pub mod config;
pub mod conn;
pub mod cursor;
pub mod datapack;
pub mod error;
pub mod frame;
pub mod laws;
pub mod message;
pub mod msghandler;
pub mod request;
pub mod server;
pub mod wire;

pub use conn::ConnID;
pub use datapack::{DataPack, IDataPack};
pub use error::Error;
pub use message::Message;
pub use msghandler::{IMsgHandle, MsgHandle};
pub use request::{IRouter, IRquest, OneRouter, PingRouter, Request, TwoRouter};
pub use server::{Iserver, Server};
