//! Bootstrap bridge for an interactive remote-shell session.
//!
//! A caller gets a usable pane immediately, backed by placeholder
//! transports; a background worker drives the authentication protocol
//! and, on success, publishes the real reader, writer, pseudo-terminal
//! and child handles through four independent one-shot delivery
//! channels.  The wrapper objects here hot-swap themselves to the real
//! resources exactly once, transparently to the holder.

pub mod auth;
pub mod bytes;
pub mod child;
pub mod domain;
pub mod errors;
pub mod geometry;
pub mod mask;
pub mod oneshot;
pub mod pty;
pub mod shim;
pub mod stream;
