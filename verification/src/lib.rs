//! A compile-time-checked connection lifecycle, together with a few small
//! verified companions.
//!
//! The core is `TcpConnection`: a handle over a byte-stream transport whose
//! permitted operations are gated by a type-level state tag (`NotConnected`,
//! `Connected`, `Disconnected`). Sending and receiving are only expressible on
//! a handle whose type says it is connected; transitions consume the handle
//! and return one with the new tag.
//!
//! The handle is generic over the transport resource, so the state machine is
//! verified once for every transport. `EchoTransport` is a verified in-memory
//! transport whose peer echoes every byte back, used to state and prove the
//! round-trip law.

mod chat_bot;
mod echo;
mod errors;
mod generics;
mod styles;
mod tcp_connector;
mod transport;

pub use chat_bot::Event;
pub use chat_bot::EventHandler;
pub use chat_bot::EventLog;
pub use chat_bot::listen_events;
pub use echo::EchoTransport;
pub use echo::echo_step;
pub use echo::lemma_echo_round_trip;
pub use errors::ConnectionError;
pub use errors::IoError;
pub use generics::Generic;
pub use styles::STYLE_COUNT;
pub use styles::Styles;
pub use styles::style_code;
pub use styles::styles_string;
pub use styles::styles_string_upto;
pub use tcp_connector::Connected;
pub use tcp_connector::Disconnected;
pub use tcp_connector::NotConnected;
pub use tcp_connector::TcpConnection;
pub use tcp_connector::lemma_connected_handle_determined_by_resource;
pub use transport::Transport;
