//! Capability contracts for transport and messaging, each with an in-process
//! backend that is verified against its contract.
//!
//! - [`sockets`]: TCP connect, listen and accept, UDP datagrams, and name
//!   resolution.
//! - [`websocket`]: a client that exchanges whole messages and takes part in
//!   the close handshake.
//! - [`messaging`]: point-to-point channels and publish/subscribe topics.
//! - [`blobstore`], [`cli`], [`encoding`]: the interfaces of what the three
//!   above may be used with; no backend for them lives here.
//!
//! An operation that may have to wait is one step here: it either completes
//! or reports [`poll::Poll::Pending`] and leaves the state as it was, so that
//! the caller decides how to wait. A backend's shared state is owned by one
//! value, and the handles into it are plain values: an operation takes the
//! handle and the state. Each backend comes with a model, which says as
//! mathematics what each operation does, and with laws, which are proved
//! from the model and from what the traits allow.

pub mod blobstore;
pub mod cli;
pub mod encoding;
pub mod messaging;
pub mod poll;
pub mod sockets;
pub mod websocket;
