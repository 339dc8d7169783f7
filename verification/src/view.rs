//! One open document view, and the capability interface the dispatcher
//! drives.

use vstd::prelude::*;
use crate::cache::{applied, Cache};
use crate::json::ConfigTable;
use crate::messages::{BufferInfo, RemoteErr};

verus! {

/// Per-document state the plugin host keeps: the view's identity, the pid of
/// the plugin instance it belongs to, its path, the outbound peer handle,
/// and its incremental cache.
///
/// `Pr` is the peer handle: a send-side channel back to the editor core,
/// owned by the view and used by the plugin to push messages. The dispatcher
/// never touches it.
pub struct DocView<Pr> {
    /// Identity of the view; immutable for its lifetime.
    pub view_id: u64,
    /// Pid of the plugin instance this view was created under.
    pub plugin_id: u64,
    /// The document's path, set at creation or save time.
    pub path: Option<String>,
    /// Send handle back to the core.
    pub peer: Pr,
    /// Incremental cache, exclusively owned by this view.
    pub cache: Cache,
}

/// What a freshly constructed view looks like, as a function of the buffer
/// info it was built from. The peer handle is deliberately not constrained:
/// it is an opaque channel.
pub open spec fn view_from_info<Pr>(v: DocView<Pr>, plugin_id: u64, info: BufferInfo) -> bool {
    &&& v.view_id == info.view_id
    &&& v.plugin_id == plugin_id
    &&& v.path == info.path
    &&& v.cache == applied(info.buf_size, info.nb_lines, info.rev)
}

/// `v` with its path replaced.
pub open spec fn with_path<Pr>(v: DocView<Pr>, path: Option<String>) -> DocView<Pr> {
    DocView { path, ..v }
}

/// `v` with its cache replaced.
pub open spec fn with_cache<Pr>(v: DocView<Pr>, cache: Cache) -> DocView<Pr> {
    DocView { cache, ..v }
}

impl<Pr> DocView<Pr> {
    /// Construct the view for a newly opened buffer: its identity and path
    /// come from the buffer info, and its cache starts at the totals the
    /// info announces.
    pub fn new(peer: Pr, plugin_id: u64, info: BufferInfo) -> (v: DocView<Pr>)
        ensures
            view_from_info(v, plugin_id, info),
            v.peer == peer,
    {
        let cache = Cache::new(info.buf_size, info.rev, info.nb_lines);
        DocView { view_id: info.view_id, plugin_id, path: info.path, peer, cache }
    }
}

/// The capability interface: the behavior a concrete plugin supplies. The
/// dispatcher invokes these hooks, one per lifecycle or data event; a hook
/// never calls back into the dispatcher. A hook reads the view it is handed
/// (and may use its peer handle to push messages to the core); all view
/// mutation is performed by the dispatcher itself, which is what keeps the
/// registry's state verifiable.
pub trait Plugin: Sized {
    /// The peer-handle type views carry; cloned once per view at creation.
    type Peer: Clone;

    /// A new view was opened and is about to enter the registry.
    fn new_view(&mut self, view: &DocView<Self::Peer>);

    /// A view is being closed; invoked while the view can still be read.
    fn did_close(&mut self, view: &DocView<Self::Peer>);

    /// A view was saved to `path`.
    fn did_save(&mut self, view: &DocView<Self::Peer>, path: &str);

    /// A view's configuration changed.
    fn config_changed(&mut self, view: &DocView<Self::Peer>, changes: &ConfigTable);

    /// An update was applied to the view's cache; the return value is the
    /// reply to the update request, or an error passed through unchanged.
    fn update(&mut self, view: &DocView<Self::Peer>, delta: Option<&serde_json::Value>) -> Result<
        serde_json::Value,
        RemoteErr,
    >;

    /// The transport scheduled idle time for this view.
    fn idle(&mut self, view: &DocView<Self::Peer>);
}

} // verus!
