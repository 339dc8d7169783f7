//! The dispatcher: the single routing authority for inbound protocol
//! messages.

use vstd::prelude::*;
use std::collections::HashMap;
use crate::cache::applied;
use crate::json::ConfigTable;
use crate::messages::{
    BufferInfo, Diagnostic, MessageKind, Notification, PluginUpdate, RemoteErr, Request,
    CODE_METHOD_NOT_SUPPORTED, CODE_MISSING_VIEW,
};
use crate::view::{view_from_info, with_cache, with_path, DocView, Plugin};

verus! {

broadcast use vstd::std_specs::hash::group_hash_axioms;

/// The set of view identifiers named by a sequence of buffer infos.
pub open spec fn ids_of(infos: Seq<BufferInfo>) -> Set<u64>
    decreases infos.len(),
{
    if infos.len() == 0 {
        Set::empty()
    } else {
        ids_of(infos.drop_last()).insert(infos.last().view_id)
    }
}

/// No later info in the sequence names the same view as `infos[i]`; the
/// entry position `i` produced is then the one left in the registry.
pub open spec fn last_with_id(infos: Seq<BufferInfo>, i: int) -> bool {
    forall|j: int| i < j < infos.len() ==> (#[trigger] infos[j]).view_id != infos[i].view_id
}

/// How opening the buffers `infos` transforms the registry `pre` into
/// `post`: the domain grows by exactly the identifiers named, entries not
/// named are untouched, and each named identifier holds the view built from
/// the last info that names it (a later duplicate silently replaces an
/// earlier entry).
pub open spec fn new_buffer_post<Pr>(
    pre: Map<u64, DocView<Pr>>,
    post: Map<u64, DocView<Pr>>,
    plugin_id: u64,
    infos: Seq<BufferInfo>,
) -> bool {
    &&& post.dom() == pre.dom() + ids_of(infos)
    &&& (forall|id: u64|
        pre.contains_key(id) && !ids_of(infos).contains(id) ==> post[id] == #[trigger] pre[id])
    &&& (forall|i: int|
        0 <= i < infos.len() && last_with_id(infos, i) ==> view_from_info(
            post[(#[trigger] infos[i]).view_id],
            plugin_id,
            infos[i],
        ))
}

/// Identifiers named by a concatenation: those named by either part.
pub proof fn lemma_ids_of_concat(s1: Seq<BufferInfo>, s2: Seq<BufferInfo>)
    ensures
        ids_of(s1 + s2) == ids_of(s1) + ids_of(s2),
    decreases s2.len(),
{
    if s2.len() == 0 {
        assert(s1 + s2 =~= s1);
        assert(ids_of(s1) + ids_of(s2) =~= ids_of(s1));
    } else {
        lemma_ids_of_concat(s1, s2.drop_last());
        assert((s1 + s2).drop_last() =~= s1 + s2.drop_last());
        assert((s1 + s2).last() == s2.last());
        assert(ids_of(s1) + ids_of(s2) =~= (ids_of(s1) + ids_of(s2.drop_last())).insert(
            s2.last().view_id,
        ));
    }
}

/// Law: opening buffers in two batches leaves the registry exactly as
/// opening the concatenated batch would. Hence, over any run of new-buffer
/// messages, the registry ends up holding exactly the identifiers named,
/// each mapped to the view built from the last info that names it.
#[verifier::rlimit(100)]
pub proof fn lemma_new_buffer_sequence<Pr>(
    m0: Map<u64, DocView<Pr>>,
    m1: Map<u64, DocView<Pr>>,
    m2: Map<u64, DocView<Pr>>,
    plugin_id: u64,
    s1: Seq<BufferInfo>,
    s2: Seq<BufferInfo>,
)
    requires
        new_buffer_post(m0, m1, plugin_id, s1),
        new_buffer_post(m1, m2, plugin_id, s2),
    ensures
        new_buffer_post(m0, m2, plugin_id, s1 + s2),
{
    lemma_ids_of_concat(s1, s2);
    let s = s1 + s2;
    assert(m2.dom() =~= m0.dom() + ids_of(s));
    assert forall|id: u64| m0.contains_key(id) && !ids_of(s).contains(id) implies m2[id] == m0[id] by {
        assert(!ids_of(s1).contains(id));
        assert(!ids_of(s2).contains(id));
        assert(m1.contains_key(id));
    }
    assert forall|i: int| 0 <= i < s.len() && last_with_id(s, i) implies view_from_info(
        m2[s[i].view_id],
        plugin_id,
        s[i],
    ) by {
        if i >= s1.len() {
            let i2 = i - s1.len();
            assert(s[i] == s2[i2]);
            assert forall|j2: int| i2 < j2 < s2.len() implies (#[trigger] s2[j2]).view_id
                != s2[i2].view_id by {
                assert(s[j2 + s1.len()] == s2[j2]);
            }
            assert(last_with_id(s2, i2));
        } else {
            assert(s[i] == s1[i]);
            let id = s1[i].view_id;
            assert forall|j: int| i < j < s1.len() implies (#[trigger] s1[j]).view_id
                != s1[i].view_id by {
                assert(s[j] == s1[j]);
            }
            assert(last_with_id(s1, i));
            lemma_ids_of_contains(s2, id);
            if ids_of(s2).contains(id) {
                let j2 = choose|j2: int|
                    0 <= j2 < s2.len() && (#[trigger] s2[j2]).view_id == id;
                assert(s[s1.len() + j2] == s2[j2]);
                assert(false);
            }
            assert(view_from_info(m1[id], plugin_id, s1[i]));
            lemma_ids_of_contains(s1, id);
            assert(m1.contains_key(id));
        }
    }
}

/// An identifier is in `ids_of(infos)` exactly when some info names it.
pub proof fn lemma_ids_of_contains(infos: Seq<BufferInfo>, x: u64)
    ensures
        ids_of(infos).contains(x) <==> exists|i: int|
            0 <= i < infos.len() && (#[trigger] infos[i]).view_id == x,
    decreases infos.len(),
{
    if infos.len() > 0 {
        lemma_ids_of_contains(infos.drop_last(), x);
        if infos.last().view_id == x {
            assert(infos[infos.len() - 1].view_id == x);
        } else if ids_of(infos.drop_last()).contains(x) {
            let i = choose|i: int|
                0 <= i < infos.drop_last().len() && (#[trigger] infos.drop_last()[i]).view_id == x;
            assert(infos[i].view_id == x);
        }
        if exists|i: int| 0 <= i < infos.len() && (#[trigger] infos[i]).view_id == x {
            let i = choose|i: int| 0 <= i < infos.len() && (#[trigger] infos[i]).view_id == x;
            if i < infos.len() - 1 {
                assert(infos.drop_last()[i].view_id == x);
            }
        }
    }
}

/// Law: the last info wins. After a batch of buffers is opened, every
/// identifier named by some info is a key of the registry — a single key,
/// whatever entry it held before — and it holds the view built from the last
/// info that names it: a later duplicate silently replaces both a prior
/// registry entry and an earlier info of the same batch.
pub proof fn lemma_new_buffer_last_wins<Pr>(
    pre: Map<u64, DocView<Pr>>,
    post: Map<u64, DocView<Pr>>,
    plugin_id: u64,
    infos: Seq<BufferInfo>,
    i: int,
)
    requires
        new_buffer_post(pre, post, plugin_id, infos),
        0 <= i < infos.len(),
        last_with_id(infos, i),
    ensures
        post.contains_key(infos[i].view_id),
        view_from_info(post[infos[i].view_id], plugin_id, infos[i]),
{
    lemma_ids_of_contains(infos, infos[i].view_id);
}

/// Owns the view registry, the recorded plugin pid, and the plugin instance,
/// and translates each inbound message into the correct view mutation and
/// capability call.
///
/// The registry maps each view identifier to its view; keys are unique by
/// construction and insertion order is irrelevant. The pid is set exactly
/// once, by the first lifecycle message.
pub struct Dispatcher<P: Plugin> {
    views: HashMap<u64, DocView<P::Peer>>,
    pid: Option<u64>,
    plugin: P,
}

impl<P: Plugin> Dispatcher<P> {
    /// The registry's contents, as a map from view identifier to view.
    pub closed spec fn views_map(self) -> Map<u64, DocView<P::Peer>> {
        self.views@
    }

    /// The recorded plugin pid; `None` until the initialize message arrives.
    pub closed spec fn pid_of(self) -> Option<u64> {
        self.pid
    }

    /// The plugin instance the dispatcher drives.
    pub closed spec fn plugin_of(self) -> P {
        self.plugin
    }

    /// Registry well-formedness: every entry is keyed by its own identity.
    pub closed spec fn wf(self) -> bool {
        forall|id: u64| self.views@.contains_key(id) ==> (#[trigger] self.views@[id]).view_id == id
    }

    /// A dispatcher with an empty registry, no pid recorded yet, and exactly
    /// the supplied capability instance.
    pub fn new(plugin: P) -> (d: Dispatcher<P>)
        ensures
            d.wf(),
            d.views_map() == Map::<u64, DocView<P::Peer>>::empty(),
            d.pid_of() is None,
            d.plugin_of() == plugin,
    {
        Dispatcher { views: HashMap::new(), pid: None, plugin }
    }

    /// Open every buffer in `buffers`: build its view, let the plugin see it
    /// through the new-view hook, and insert it into the registry keyed by
    /// its identifier. An identifier already present is silently replaced.
    fn do_new_buffer(&mut self, peer: &P::Peer, buffers: Vec<BufferInfo>)
        requires
            old(self).wf(),
            old(self).pid_of() is Some,
        ensures
            final(self).wf(),
            final(self).pid_of() == old(self).pid_of(),
            new_buffer_post(
                old(self).views_map(),
                final(self).views_map(),
                old(self).pid_of()->0,
                buffers@,
            ),
    {
        let plugin_id = self.pid.unwrap();
        let mut bufs = buffers;
        let ghost orig: Seq<BufferInfo> = bufs@;
        let ghost pre: Map<u64, DocView<P::Peer>> = self.views@;
        let ghost mut k: int = 0;
        proof {
            assert(orig.take(0) =~= Seq::<BufferInfo>::empty());
            assert(pre.dom() + ids_of(orig.take(0)) =~= pre.dom());
        }
        while bufs.len() > 0
            invariant
                self.wf(),
                self.pid == Some(plugin_id),
                0 <= k <= orig.len(),
                bufs@ == orig.skip(k),
                new_buffer_post(pre, self.views@, plugin_id, orig.take(k)),
            decreases bufs.len(),
        {
            let info = bufs.remove(0);
            proof {
                assert(info == orig[k]);
                assert(bufs@ =~= orig.skip(k + 1));
            }
            let v = DocView::new(peer.clone(), plugin_id, info);
            self.plugin.new_view(&v);
            let id = v.view_id;
            let ghost cur: Map<u64, DocView<P::Peer>> = self.views@;
            self.views.insert(id, v);
            proof {
                let tk = orig.take(k);
                let tk1 = orig.take(k + 1);
                assert(tk1.drop_last() =~= tk);
                assert(tk1.last() == orig[k]);
                assert(ids_of(tk1) == ids_of(tk).insert(id));
                assert(self.views@.dom() =~= pre.dom() + ids_of(tk1));
                assert forall|id2: u64|
                    pre.contains_key(id2) && !ids_of(tk1).contains(id2) implies self.views@[id2]
                    == pre[id2] by {
                    assert(id2 != id);
                    assert(!ids_of(tk).contains(id2));
                }
                assert forall|i: int| 0 <= i < tk1.len() && last_with_id(tk1, i) implies
                    view_from_info(self.views@[tk1[i].view_id], plugin_id, tk1[i]) by {
                    if i == k {
                        assert(self.views@[id] == v);
                    } else {
                        assert(tk1[i] == tk[i]);
                        assert(last_with_id(tk, i));
                        assert(tk1[i].view_id != tk1[k].view_id);
                        assert(self.views@[tk[i].view_id] == cur[tk[i].view_id]);
                    }
                }
                k = k + 1;
            }
        }
        proof {
            assert(k == orig.len());
            assert(orig.take(k) =~= orig);
        }
    }

    /// Record the pid assigned to this plugin instance, then open the
    /// initially present buffers. Exactly one initialize message arrives per
    /// process lifetime; a second one is an implementation defect, which the
    /// precondition rules out.
    fn do_initialize(&mut self, peer: &P::Peer, plugin_id: u64, buffers: Vec<BufferInfo>)
        requires
            old(self).wf(),
            old(self).pid_of() is None,
        ensures
            final(self).wf(),
            final(self).pid_of() == Some(plugin_id),
            new_buffer_post(
                old(self).views_map(),
                final(self).views_map(),
                plugin_id,
                buffers@,
            ),
    {
        self.pid = Some(plugin_id);
        self.do_new_buffer(peer, buffers);
    }

    /// Invoke the did-save hook on the view, then record its new path. A
    /// missing view yields a diagnostic and no further action.
    fn do_did_save(&mut self, view_id: u64, path: String) -> (d: Option<Diagnostic>)
        requires
            old(self).wf(),
        ensures
            final(self).wf(),
            final(self).pid_of() == old(self).pid_of(),
            old(self).views_map().contains_key(view_id) ==> {
                &&& d is None
                &&& final(self).views_map() == old(self).views_map().insert(
                    view_id,
                    with_path(old(self).views_map()[view_id], Some(path)),
                )
            },
            !old(self).views_map().contains_key(view_id) ==> {
                &&& final(self).views_map() == old(self).views_map()
                &&& final(self).plugin_of() == old(self).plugin_of()
                &&& d == Some(
                    (Diagnostic { pid: old(self).pid_of(), kind: MessageKind::DidSave, view_id }),
                )
            },
    {
        let ghost pre = self.views@;
        match self.views.remove(&view_id) {
            Some(mut v) => {
                self.plugin.did_save(&v, path.as_str());
                v.path = Some(path);
                self.views.insert(view_id, v);
                proof {
                    assert(self.views@ =~= pre.insert(view_id, v));
                }
                None
            },
            None => {
                proof {
                    assert(self.views@ =~= pre);
                }
                Some(Diagnostic { pid: self.pid, kind: MessageKind::DidSave, view_id })
            },
        }
    }

    /// Hand the new configuration table to the plugin's config-changed hook.
    /// A missing view yields a diagnostic and no further action.
    fn do_config_changed(&mut self, view_id: u64, changes: &ConfigTable) -> (d: Option<Diagnostic>)
        requires
            old(self).wf(),
        ensures
            final(self).wf(),
            final(self).pid_of() == old(self).pid_of(),
            final(self).views_map() == old(self).views_map(),
            old(self).views_map().contains_key(view_id) ==> d is None,
            !old(self).views_map().contains_key(view_id) ==> {
                &&& *final(self) == *old(self)
                &&& d == Some(
                    (Diagnostic {
                        pid: old(self).pid_of(),
                        kind: MessageKind::ConfigChanged,
                        view_id,
                    }),
                )
            },
    {
        match self.views.get(&view_id) {
            Some(v) => {
                self.plugin.config_changed(v, changes);
                None
            },
            None => Some(Diagnostic { pid: self.pid, kind: MessageKind::ConfigChanged, view_id }),
        }
    }

    /// Invoke the did-close hook while the view can still be read, then
    /// remove the view from the registry. A missing view yields a diagnostic
    /// and no further action.
    fn do_close(&mut self, view_id: u64) -> (d: Option<Diagnostic>)
        requires
            old(self).wf(),
        ensures
            final(self).wf(),
            final(self).pid_of() == old(self).pid_of(),
            old(self).views_map().contains_key(view_id) ==> {
                &&& d is None
                &&& final(self).views_map() == old(self).views_map().remove(view_id)
            },
            !old(self).views_map().contains_key(view_id) ==> {
                &&& final(self).views_map() == old(self).views_map()
                &&& final(self).plugin_of() == old(self).plugin_of()
                &&& d == Some(
                    (Diagnostic { pid: old(self).pid_of(), kind: MessageKind::DidClose, view_id }),
                )
            },
    {
        let ghost pre = self.views@;
        match self.views.remove(&view_id) {
            Some(v) => {
                self.plugin.did_close(&v);
                None
            },
            None => {
                proof {
                    assert(self.views@ =~= pre);
                }
                Some(Diagnostic { pid: self.pid, kind: MessageKind::DidClose, view_id })
            },
        }
    }

    /// Apply the update to the view's cache, then ask the plugin's update
    /// hook for the reply, passed through unchanged. A missing view is a
    /// reportable error here: the caller is blocked waiting for the reply.
    fn do_update(&mut self, update: PluginUpdate) -> (r: Result<serde_json::Value, RemoteErr>)
        requires
            old(self).wf(),
        ensures
            final(self).wf(),
            final(self).pid_of() == old(self).pid_of(),
            old(self).views_map().contains_key(update.view_id) ==> final(self).views_map()
                == old(self).views_map().insert(
                update.view_id,
                with_cache(
                    old(self).views_map()[update.view_id],
                    applied(update.new_len, update.new_line_count, update.rev),
                ),
            ),
            !old(self).views_map().contains_key(update.view_id) ==> {
                &&& final(self).views_map() == old(self).views_map()
                &&& final(self).plugin_of() == old(self).plugin_of()
                &&& r matches Err(e) && e.code == CODE_MISSING_VIEW && e.message@
                    == "missing view"@
            },
    {
        let PluginUpdate { view_id, delta, new_len, new_line_count, rev, .. } = update;
        let ghost pre = self.views@;
        match self.views.remove(&view_id) {
            Some(mut v) => {
                v.cache.update(delta.as_ref(), new_len, new_line_count, rev);
                let r = self.plugin.update(&v, delta.as_ref());
                self.views.insert(view_id, v);
                proof {
                    assert(self.views@ =~= pre.insert(view_id, v));
                }
                r
            },
            None => {
                proof {
                    assert(self.views@ =~= pre);
                }
                Err(RemoteErr::missing_view())
            },
        }
    }

    /// Toggle process-wide tracing. Side effect only; the dispatcher's own
    /// state is untouched.
    fn do_tracing_config(&mut self, enabled: bool)
        ensures
            *final(self) == *old(self),
    {
        if enabled {
            crate::trace::enable_tracing();
        } else {
            crate::trace::disable_tracing();
        }
    }

    /// Route one notification. Notifications have no reply channel: a
    /// missing view is reported as a returned [`Diagnostic`] for the caller
    /// to log, and handling continues with the next message.
    ///
    /// The two preconditions are the protocol's lifecycle invariants: the
    /// initialize message arrives exactly once, before any other lifecycle
    /// message, and buffers can only be opened once the pid is recorded.
    /// Violating either is an implementation defect in the transport, not a
    /// recoverable condition, so callers must enforce them.
    pub fn handle_notification(&mut self, peer: &P::Peer, rpc: Notification) -> (d: Option<
        Diagnostic,
    >)
        requires
            old(self).wf(),
            rpc is Initialize ==> old(self).pid_of() is None,
            rpc is NewBuffer ==> old(self).pid_of() is Some,
        ensures
            final(self).wf(),
            match rpc {
                Notification::Initialize { plugin_id, buffer_info } => {
                    &&& final(self).pid_of() == Some(plugin_id)
                    &&& new_buffer_post(
                        old(self).views_map(),
                        final(self).views_map(),
                        plugin_id,
                        buffer_info@,
                    )
                    &&& d is None
                },
                Notification::NewBuffer { buffer_info } => {
                    &&& final(self).pid_of() == old(self).pid_of()
                    &&& new_buffer_post(
                        old(self).views_map(),
                        final(self).views_map(),
                        old(self).pid_of()->0,
                        buffer_info@,
                    )
                    &&& d is None
                },
                Notification::DidSave { view_id, path } => {
                    &&& final(self).pid_of() == old(self).pid_of()
                    &&& old(self).views_map().contains_key(view_id) ==> {
                        &&& d is None
                        &&& final(self).views_map() == old(self).views_map().insert(
                            view_id,
                            with_path(old(self).views_map()[view_id], Some(path)),
                        )
                    }
                    &&& !old(self).views_map().contains_key(view_id) ==> {
                        &&& final(self).views_map() == old(self).views_map()
                        &&& final(self).plugin_of() == old(self).plugin_of()
                        &&& d == Some(
                            (Diagnostic {
                                pid: old(self).pid_of(),
                                kind: MessageKind::DidSave,
                                view_id,
                            }),
                        )
                    }
                },
                Notification::ConfigChanged { view_id, changes } => {
                    &&& final(self).pid_of() == old(self).pid_of()
                    &&& final(self).views_map() == old(self).views_map()
                    &&& old(self).views_map().contains_key(view_id) ==> d is None
                    &&& !old(self).views_map().contains_key(view_id) ==> {
                        &&& *final(self) == *old(self)
                        &&& d == Some(
                            (Diagnostic {
                                pid: old(self).pid_of(),
                                kind: MessageKind::ConfigChanged,
                                view_id,
                            }),
                        )
                    }
                },
                Notification::DidClose { view_id } => {
                    &&& final(self).pid_of() == old(self).pid_of()
                    &&& old(self).views_map().contains_key(view_id) ==> {
                        &&& d is None
                        &&& final(self).views_map() == old(self).views_map().remove(view_id)
                    }
                    &&& !old(self).views_map().contains_key(view_id) ==> {
                        &&& final(self).views_map() == old(self).views_map()
                        &&& final(self).plugin_of() == old(self).plugin_of()
                        &&& d == Some(
                            (Diagnostic {
                                pid: old(self).pid_of(),
                                kind: MessageKind::DidClose,
                                view_id,
                            }),
                        )
                    }
                },
                Notification::Shutdown => *final(self) == *old(self) && d is None,
                Notification::TracingConfig { enabled } => *final(self) == *old(self) && d is None,
                Notification::Ping => *final(self) == *old(self) && d is None,
            },
    {
        match rpc {
            Notification::Initialize { plugin_id, buffer_info } => {
                self.do_initialize(peer, plugin_id, buffer_info);
                None
            },
            Notification::DidSave { view_id, path } => self.do_did_save(view_id, path),
            Notification::ConfigChanged { view_id, changes } => self.do_config_changed(
                view_id,
                &changes,
            ),
            Notification::NewBuffer { buffer_info } => {
                self.do_new_buffer(peer, buffer_info);
                None
            },
            Notification::DidClose { view_id } => self.do_close(view_id),
            Notification::Shutdown => None,
            Notification::TracingConfig { enabled } => {
                self.do_tracing_config(enabled);
                None
            },
            Notification::Ping => None,
        }
    }

    /// Route one request and produce its reply: the plugin's answer to an
    /// update, or a structured error. The registry is changed only by an
    /// update to a view that exists.
    pub fn handle_request(&mut self, rpc: Request) -> (r: Result<serde_json::Value, RemoteErr>)
        requires
            old(self).wf(),
        ensures
            final(self).wf(),
            final(self).pid_of() == old(self).pid_of(),
            match rpc {
                Request::Update(u) => {
                    &&& old(self).views_map().contains_key(u.view_id) ==> final(self).views_map()
                        == old(self).views_map().insert(
                        u.view_id,
                        with_cache(
                            old(self).views_map()[u.view_id],
                            applied(u.new_len, u.new_line_count, u.rev),
                        ),
                    )
                    &&& !old(self).views_map().contains_key(u.view_id) ==> {
                        &&& final(self).views_map() == old(self).views_map()
                        &&& final(self).plugin_of() == old(self).plugin_of()
                        &&& r matches Err(e) && e.code == CODE_MISSING_VIEW && e.message@
                            == "missing view"@
                    }
                },
                Request::CollectTrace => {
                    &&& *final(self) == *old(self)
                    &&& r matches Err(e) && e.code == CODE_METHOD_NOT_SUPPORTED && e.message@
                        == "method not supported"@
                },
            },
    {
        match rpc {
            Request::Update(params) => self.do_update(params),
            Request::CollectTrace => Err(RemoteErr::method_not_supported()),
        }
    }

    /// The transport scheduled idle time for the view whose identifier the
    /// token encodes. Idle carries no payload and has no reply channel: a
    /// missing view yields only a diagnostic.
    pub fn idle(&mut self, token: usize) -> (d: Option<Diagnostic>)
        requires
            old(self).wf(),
        ensures
            final(self).wf(),
            final(self).pid_of() == old(self).pid_of(),
            final(self).views_map() == old(self).views_map(),
            old(self).views_map().contains_key(token as u64) ==> d is None,
            !old(self).views_map().contains_key(token as u64) ==> {
                &&& *final(self) == *old(self)
                &&& d == Some(
                    (Diagnostic {
                        pid: old(self).pid_of(),
                        kind: MessageKind::Idle,
                        view_id: token as u64,
                    }),
                )
            },
    {
        let view_id = token as u64;
        match self.views.get(&view_id) {
            Some(v) => {
                self.plugin.idle(v);
                None
            },
            None => Some(Diagnostic { pid: self.pid, kind: MessageKind::Idle, view_id }),
        }
    }

    /// Read access to the owned plugin instance, for callers that need to
    /// inspect the state their hooks accumulated.
    pub fn plugin(&self) -> (p: &P)
        ensures
            *p == self.plugin_of(),
    {
        &self.plugin
    }

    /// The recorded pid, or `None` before initialization.
    pub fn pid(&self) -> (p: Option<u64>)
        ensures
            p == self.pid_of(),
    {
        self.pid
    }

    /// How many views the registry currently holds.
    pub fn num_views(&self) -> (n: usize)
        ensures
            n as nat == self.views_map().len(),
    {
        self.views.len()
    }

    /// Whether the registry holds a view under this identifier.
    pub fn has_view(&self, view_id: u64) -> (b: bool)
        ensures
            b == self.views_map().contains_key(view_id),
    {
        self.views.contains_key(&view_id)
    }

    /// The cache state of the given view, if it is open.
    pub fn view_cache(&self, view_id: u64) -> (c: Option<crate::cache::Cache>)
        ensures
            self.views_map().contains_key(view_id) ==> c == Some(
                self.views_map()[view_id].cache,
            ),
            !self.views_map().contains_key(view_id) ==> c is None,
    {
        match self.views.get(&view_id) {
            Some(v) => Some(v.cache),
            None => None,
        }
    }

    /// The recorded path of the given view, if it is open and has one.
    pub fn view_path(&self, view_id: u64) -> (p: Option<String>)
        ensures
            self.views_map().contains_key(view_id) ==> p == self.views_map()[view_id].path,
            !self.views_map().contains_key(view_id) ==> p is None,
    {
        match self.views.get(&view_id) {
            Some(v) => match &v.path {
                Some(s) => Some(s.clone()),
                None => None,
            },
            None => None,
        }
    }
}

} // verus!

