//! End-to-end tests of the dispatcher, driven through a capability test
//! double that records every hook invocation.

use serde_json::Value;
use xi_plugin_lib::{
    BufferInfo, Cache, Diagnostic, DocView, Dispatcher, MessageKind, Notification, Plugin,
    PluginUpdate, RemoteErr, Request,
};

/// A test double for the capability interface: records everything it is
/// handed, and replies to updates with a fixed value.
#[derive(Default)]
struct RecordingPlugin {
    new_view_ids: Vec<u64>,
    close_snapshots: Vec<(u64, usize, usize)>,
    save_paths: Vec<(u64, String)>,
    config_keys: Vec<(u64, usize)>,
    update_deltas: Vec<(u64, Option<Value>)>,
    idle_ids: Vec<u64>,
    reply: Option<Value>,
}

impl Plugin for RecordingPlugin {
    type Peer = u64;

    fn new_view(&mut self, view: &DocView<u64>) {
        self.new_view_ids.push(view.view_id);
    }

    fn did_close(&mut self, view: &DocView<u64>) {
        // The view must still be fully queryable during this hook.
        self.close_snapshots.push((view.view_id, view.cache.len, view.cache.line_count));
    }

    fn did_save(&mut self, view: &DocView<u64>, path: &str) {
        self.save_paths.push((view.view_id, path.to_owned()));
    }

    fn config_changed(&mut self, view: &DocView<u64>, changes: &serde_json::Map<String, Value>) {
        self.config_keys.push((view.view_id, changes.len()));
    }

    fn update(&mut self, view: &DocView<u64>, delta: Option<&Value>) -> Result<Value, RemoteErr> {
        self.update_deltas.push((view.view_id, delta.cloned()));
        match &self.reply {
            Some(v) => Ok(v.clone()),
            None => Ok(Value::Null),
        }
    }

    fn idle(&mut self, view: &DocView<u64>) {
        self.idle_ids.push(view.view_id);
    }
}

fn info(view_id: u64, buf_size: usize, nb_lines: usize, rev: u64) -> BufferInfo {
    BufferInfo { view_id, path: None, rev, buf_size, nb_lines }
}

fn initialized(pid: u64, infos: Vec<BufferInfo>) -> Dispatcher<RecordingPlugin> {
    let mut d = Dispatcher::new(RecordingPlugin::default());
    let none = d.handle_notification(&0, Notification::Initialize {
        plugin_id: pid,
        buffer_info: infos,
    });
    assert!(none.is_none());
    d
}

fn update_msg(view_id: u64, delta: Option<Value>, new_len: usize, new_line_count: usize, rev: u64) -> PluginUpdate {
    PluginUpdate {
        view_id,
        delta,
        new_len,
        new_line_count,
        rev,
        edit_type: "insert".to_owned(),
        author: "core".to_owned(),
    }
}

#[test]
fn initialize_records_pid_and_opens_views() {
    let d = initialized(42, vec![info(1, 10, 2, 0), info(2, 30, 4, 5)]);
    assert_eq!(d.pid(), Some(42));
    assert_eq!(d.num_views(), 2);
    assert!(d.has_view(1));
    assert!(d.has_view(2));
    assert!(!d.has_view(3));
    // The new-view hook ran once per buffer, before insertion.
    assert_eq!(d.plugin().new_view_ids, vec![1, 2]);
    // The caches start at the totals the infos announced.
    assert_eq!(d.view_cache(1), Some(Cache { len: 10, line_count: 2, rev: 0 }));
    assert_eq!(d.view_cache(2), Some(Cache { len: 30, line_count: 4, rev: 5 }));
}

#[test]
fn new_buffer_collects_all_identifiers() {
    let mut d = initialized(7, vec![]);
    assert_eq!(d.num_views(), 0);
    let none = d.handle_notification(&0, Notification::NewBuffer {
        buffer_info: vec![info(10, 1, 1, 0), info(11, 2, 1, 0), info(12, 3, 1, 0)],
    });
    assert!(none.is_none());
    assert_eq!(d.num_views(), 3);
    assert!(d.has_view(10) && d.has_view(11) && d.has_view(12));
}

#[test]
fn new_buffer_duplicate_identifier_overwrites() {
    let mut d = initialized(7, vec![]);
    let none = d.handle_notification(&0, Notification::NewBuffer {
        buffer_info: vec![info(5, 10, 1, 0), info(6, 20, 2, 0), info(5, 99, 9, 3)],
    });
    assert!(none.is_none());
    // The later info for view 5 silently replaced the earlier entry.
    assert_eq!(d.num_views(), 2);
    assert_eq!(d.view_cache(5), Some(Cache { len: 99, line_count: 9, rev: 3 }));
    assert_eq!(d.view_cache(6), Some(Cache { len: 20, line_count: 2, rev: 0 }));
    // The hook still ran once per info, in order.
    assert_eq!(d.plugin().new_view_ids, vec![5, 6, 5]);
}

#[test]
fn did_close_removes_view_and_invokes_hook_once() {
    let mut d = initialized(1, vec![info(3, 12, 2, 0)]);
    let none = d.handle_notification(&0, Notification::DidClose { view_id: 3 });
    assert!(none.is_none());
    assert!(!d.has_view(3));
    assert_eq!(d.num_views(), 0);
    // Exactly one did-close invocation, with the view still queryable.
    assert_eq!(d.plugin().close_snapshots, vec![(3, 12, 2)]);
}

#[test]
fn did_close_missing_view_only_diagnoses() {
    let mut d = initialized(9, vec![info(1, 5, 1, 0)]);
    let diag = d.handle_notification(&0, Notification::DidClose { view_id: 77 });
    assert_eq!(
        diag,
        Some(Diagnostic { pid: Some(9), kind: MessageKind::DidClose, view_id: 77 })
    );
    // Registry unchanged, hook never invoked.
    assert_eq!(d.num_views(), 1);
    assert!(d.has_view(1));
    assert!(d.plugin().close_snapshots.is_empty());
}

#[test]
fn update_applies_totals_and_passes_delta_through() {
    let delta = Value::String("retain 3, insert abc".to_owned());
    let reply = Value::String("annotations".to_owned());
    let mut p = RecordingPlugin::default();
    p.reply = Some(reply.clone());
    let mut d = Dispatcher::new(p);
    let none = d.handle_notification(&0, Notification::Initialize {
        plugin_id: 2,
        buffer_info: vec![info(4, 10, 1, 0)],
    });
    assert!(none.is_none());
    let r = d.handle_request(Request::Update(update_msg(4, Some(delta.clone()), 42, 3, 7)));
    // The call's return value equals the hook's return value.
    assert_eq!(r.unwrap(), reply);
    // The cache now corresponds exactly to the update's totals.
    assert_eq!(d.view_cache(4), Some(Cache { len: 42, line_count: 3, rev: 7 }));
    // The hook received the very same delta.
    assert_eq!(d.plugin().update_deltas, vec![(4, Some(delta))]);
}

#[test]
fn update_missing_view_is_a_stable_error() {
    let mut d = initialized(2, vec![info(4, 10, 1, 0)]);
    let r = d.handle_request(Request::Update(update_msg(99, None, 5, 1, 1)));
    let e = r.unwrap_err();
    assert_eq!(e.code, 404);
    assert_eq!(e.message, "missing view");
    // Registry unchanged, hook never invoked.
    assert_eq!(d.num_views(), 1);
    assert_eq!(d.view_cache(4), Some(Cache { len: 10, line_count: 1, rev: 0 }));
    assert!(d.plugin().update_deltas.is_empty());
    // The error code differs from the method-not-supported code.
    assert_ne!(e.code, RemoteErr::method_not_supported().code);
}

#[test]
fn collect_trace_is_method_not_supported() {
    // Regardless of dispatcher state: fresh...
    let mut fresh = Dispatcher::new(RecordingPlugin::default());
    let e = fresh.handle_request(Request::CollectTrace).unwrap_err();
    assert_eq!(e.code, 100);
    assert_eq!(e.message, "method not supported");
    // ... and populated.
    let mut d = initialized(3, vec![info(1, 1, 1, 0)]);
    let e2 = d.handle_request(Request::CollectTrace).unwrap_err();
    assert_eq!(e2.code, 100);
    assert_eq!(d.num_views(), 1);
}

#[test]
fn idle_missing_view_only_diagnoses() {
    let mut d = initialized(5, vec![info(1, 1, 1, 0)]);
    let diag = d.idle(123);
    assert_eq!(
        diag,
        Some(Diagnostic { pid: Some(5), kind: MessageKind::Idle, view_id: 123 })
    );
    assert_eq!(d.num_views(), 1);
    assert!(d.plugin().idle_ids.is_empty());
}

#[test]
fn idle_existing_view_invokes_hook() {
    let mut d = initialized(5, vec![info(8, 1, 1, 0)]);
    let none = d.idle(8);
    assert!(none.is_none());
    assert_eq!(d.plugin().idle_ids, vec![8]);
}

#[test]
fn did_save_sets_path_after_hook() {
    let mut d = initialized(6, vec![info(2, 4, 1, 0)]);
    assert_eq!(d.view_path(2), None);
    let none = d.handle_notification(&0, Notification::DidSave {
        view_id: 2,
        path: "/tmp/doc.txt".to_owned(),
    });
    assert!(none.is_none());
    assert_eq!(d.view_path(2), Some("/tmp/doc.txt".to_owned()));
    assert_eq!(d.plugin().save_paths, vec![(2, "/tmp/doc.txt".to_owned())]);
}

#[test]
fn did_save_missing_view_only_diagnoses() {
    let mut d = initialized(6, vec![]);
    let diag = d.handle_notification(&0, Notification::DidSave {
        view_id: 2,
        path: "/tmp/doc.txt".to_owned(),
    });
    assert_eq!(
        diag,
        Some(Diagnostic { pid: Some(6), kind: MessageKind::DidSave, view_id: 2 })
    );
    assert!(d.plugin().save_paths.is_empty());
}

#[test]
fn config_changed_reaches_hook_with_table() {
    let mut d = initialized(6, vec![info(2, 4, 1, 0)]);
    let mut table = serde_json::Map::new();
    table.insert("tab_size".to_owned(), Value::Bool(true));
    let none = d.handle_notification(&0, Notification::ConfigChanged { view_id: 2, changes: table });
    assert!(none.is_none());
    assert_eq!(d.plugin().config_keys, vec![(2, 1)]);
    let diag = d.handle_notification(&0, Notification::ConfigChanged {
        view_id: 9,
        changes: serde_json::Map::new(),
    });
    assert_eq!(
        diag,
        Some(Diagnostic { pid: Some(6), kind: MessageKind::ConfigChanged, view_id: 9 })
    );
}

#[test]
fn shutdown_ping_and_tracing_are_quiet() {
    let mut d = initialized(1, vec![info(1, 1, 1, 0)]);
    assert!(d.handle_notification(&0, Notification::Shutdown).is_none());
    assert!(d.handle_notification(&0, Notification::Ping).is_none());
    assert!(d.handle_notification(&0, Notification::TracingConfig { enabled: true }).is_none());
    assert!(d.handle_notification(&0, Notification::TracingConfig { enabled: false }).is_none());
    assert_eq!(d.num_views(), 1);
    assert_eq!(d.pid(), Some(1));
}

#[test]
fn update_round_trip_matches_merged_update() {
    // Applying updates with strictly increasing revisions one by one...
    let mut c = Cache::new(10, 0, 1);
    c.update(None, 20, 2, 1);
    c.update(None, 35, 2, 2);
    c.update(None, 42, 3, 3);
    // ... equals applying one merged update carrying the final totals.
    let mut merged = Cache::new(10, 0, 1);
    merged.update(None, 42, 3, 3);
    assert_eq!(c, merged);
    assert_eq!(c.len, 42);
    assert_eq!(c.line_count, 3);
    assert_eq!(c.rev, 3);
}

#[test]
fn error_constructors_are_stable_and_distinct() {
    let missing = RemoteErr::missing_view();
    let unsupported = RemoteErr::method_not_supported();
    assert_eq!(missing.code, 404);
    assert_eq!(missing.message, "missing view");
    assert_eq!(unsupported.code, 100);
    assert_eq!(unsupported.message, "method not supported");
    assert_ne!(missing.code, unsupported.code);
}
