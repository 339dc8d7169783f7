//! The inbound message taxonomy, and the values the dispatcher reports back.
//!
//! Notifications are fire-and-forget: a failure while handling one is
//! reported as a [`Diagnostic`] value for the caller to log. Requests must
//! produce a reply or a structured [`RemoteErr`] with a numeric code.

use vstd::prelude::*;

verus! {

/// Reply code for a request that names a view the registry does not hold.
pub const CODE_MISSING_VIEW: i64 = 404;

/// Reply code for a request kind the dispatcher does not support, distinct
/// from [`CODE_MISSING_VIEW`] so callers can tell "feature absent" from
/// "target absent".
pub const CODE_METHOD_NOT_SUPPORTED: i64 = 100;

/// Descriptor supplied at view-creation time: everything `DocView::new`
/// needs to set up the view and its cache.
#[derive(Debug)]
pub struct BufferInfo {
    /// Identifier of the view being opened.
    pub view_id: u64,
    /// The document's path, if it has one yet.
    pub path: Option<String>,
    /// Revision of the document at creation time.
    pub rev: u64,
    /// Total length in bytes at creation time.
    pub buf_size: usize,
    /// Total number of lines at creation time.
    pub nb_lines: usize,
}

/// One data-mutating update for a view: the edit script (possibly absent),
/// the resulting totals, the revision, and two tags that describe the edit.
/// Consumed once and discarded.
#[derive(Debug)]
pub struct PluginUpdate {
    /// The view the update is for.
    pub view_id: u64,
    /// The delta carrying the edit script, absent only for the degenerate
    /// edit. Opaque to the dispatcher; handed through to the cache and the
    /// plugin.
    pub delta: Option<serde_json::Value>,
    /// Total length in bytes after the edit.
    pub new_len: usize,
    /// Total number of lines after the edit.
    pub new_line_count: usize,
    /// Revision after the edit.
    pub rev: u64,
    /// What kind of edit this was (insert, delete, ...).
    pub edit_type: String,
    /// Who authored the edit.
    pub author: String,
}

/// Notifications: inbound messages with no reply channel.
pub enum Notification {
    /// First message of the process's lifetime: records the plugin's pid and
    /// opens the initially present buffers.
    Initialize { plugin_id: u64, buffer_info: Vec<BufferInfo> },
    /// A view was saved to `path`.
    DidSave { view_id: u64, path: String },
    /// A view's configuration changed; `changes` replaces the keys wholesale.
    ConfigChanged { view_id: u64, changes: crate::json::ConfigTable },
    /// One or more buffers were opened.
    NewBuffer { buffer_info: Vec<BufferInfo> },
    /// A view was closed.
    DidClose { view_id: u64 },
    /// Teardown placeholder; currently a no-op.
    Shutdown,
    /// Toggle process-wide tracing.
    TracingConfig { enabled: bool },
    /// Liveness probe; accepted and ignored.
    Ping,
}

/// Requests: inbound messages that must produce a reply value or a
/// structured error.
pub enum Request {
    /// Apply an update to a view's cache and ask the plugin for a reply.
    Update(PluginUpdate),
    /// Trace collection; not supported by this dispatcher.
    CollectTrace,
}

/// The message kinds that can name a missing view, for diagnostics.
#[derive(Clone, Copy, Debug, PartialEq, Eq, Structural)]
pub enum MessageKind {
    DidSave,
    ConfigChanged,
    DidClose,
    Update,
    Idle,
}

/// A local diagnostic for a failed notification: the minimum debuggability
/// triple of the plugin's pid (or its absence), the message kind, and the
/// view identifier the message named.
#[derive(Clone, Copy, Debug, PartialEq, Eq)]
pub struct Diagnostic {
    /// The plugin's pid, if one was recorded yet.
    pub pid: Option<u64>,
    /// Which message kind named the missing view.
    pub kind: MessageKind,
    /// The view identifier that was not in the registry.
    pub view_id: u64,
}

/// A structured error replied to a request: a numeric code and a message.
#[derive(Debug)]
pub struct RemoteErr {
    /// Numeric code; stable per error condition.
    pub code: i64,
    /// Human-readable description.
    pub message: String,
}

impl RemoteErr {
    /// The error replied when a request names a view the registry does not
    /// hold.
    pub fn missing_view() -> (e: RemoteErr)
        ensures
            e.code == CODE_MISSING_VIEW,
            e.message@ == "missing view"@,
    {
        RemoteErr { code: CODE_MISSING_VIEW, message: "missing view".to_owned() }
    }

    /// The error replied to a request kind the dispatcher does not support.
    pub fn method_not_supported() -> (e: RemoteErr)
        ensures
            e.code == CODE_METHOD_NOT_SUPPORTED,
            e.message@ == "method not supported"@,
    {
        RemoteErr { code: CODE_METHOD_NOT_SUPPORTED, message: "method not supported".to_owned() }
    }
}

} // verus!
