//! The decisions of a WebTransport client, each stated as a contract and proved.
pub mod buffer;
pub mod client;
pub mod connection;
pub mod datagram;
pub mod event;
pub mod poll;
pub mod reader;
pub mod stream;
pub mod task;
pub mod text;
pub mod view;

pub use client::ClientInstance;
pub use connection::Connection;
pub use datagram::Datagrams;
pub use stream::{RecvStream, SendStream};
