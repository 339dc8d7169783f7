//! Dispatch core of a plugin host-adapter.
//!
//! A plugin process receives framed remote calls from an editor core over a
//! byte stream. This crate holds the part of that process worth reasoning
//! about: the dispatcher that owns the registry of open document views,
//! classifies each inbound message, keeps every view's incremental cache
//! consistent with the stream of edit deltas, and forwards each event to a
//! pluggable [`view::Plugin`] implementation.
//!
//! The transport itself (framing, JSON decoding, the read loop) is an outside
//! collaborator: it hands this crate fully decoded messages and writes the
//! replies back. Missing-view conditions on notifications are reported as
//! [`messages::Diagnostic`] values for the caller to log; on requests they
//! are structured [`messages::RemoteErr`] replies.

pub mod json;
mod trace;
pub mod cache;
pub mod messages;
pub mod view;
pub mod dispatcher;

pub use cache::Cache;
pub use dispatcher::Dispatcher;
pub use json::ConfigTable;
pub use messages::{BufferInfo, Diagnostic, MessageKind, Notification, PluginUpdate, RemoteErr, Request};
pub use view::{DocView, Plugin};
