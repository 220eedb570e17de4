//! The session registry: which thread pacer governs a thread's model
//! requests.
//!
//! A child thread, such as a subagent, records its parent. Its requests go
//! through the nearest pacer found by walking up the parent chain, so a whole
//! family of threads shares the pacer of the thread that enabled slow mode.
//! The registry is generic in the pacer handle `P` and in the rate-limit
//! snapshot `L` it remembers for each thread.

use vstd::prelude::*;

verus! {

/// How many threads the walk up the parent chain visits at most.
pub const MAX_PARENT_HOPS: usize = 16;

/// What the registry knows of one thread.
pub struct ThreadNode<P, L> {
    pub thread_id: String,
    pub parent: Option<String>,
    pub pacer: Option<P>,
    pub limits: Option<L>,
}

/// The model of one thread's entry.
pub struct NodeState<P, L> {
    pub parent: Option<Seq<char>>,
    pub pacer: Option<P>,
    pub limits: Option<L>,
}

/// The thread registry: at most one entry per thread id.
pub struct Registry<P, L> {
    nodes: Vec<ThreadNode<P, L>>,
}

pub open spec fn opt_view(s: Option<String>) -> Option<Seq<char>> {
    match s {
        Some(t) => Some(t@),
        None => None,
    }
}

pub open spec fn node_state<P, L>(n: ThreadNode<P, L>) -> NodeState<P, L> {
    NodeState { parent: opt_view(n.parent), pacer: n.pacer, limits: n.limits }
}

pub open spec fn empty_node<P, L>() -> NodeState<P, L> {
    NodeState { parent: None, pacer: None, limits: None }
}

/// The entry of `id`, or an empty one.
pub open spec fn entry<P, L>(m: Map<Seq<char>, NodeState<P, L>>, id: Seq<char>) -> NodeState<
    P,
    L,
> {
    if m.contains_key(id) {
        m[id]
    } else {
        empty_node()
    }
}

/// The pacer that governs `id`: its own, or the nearest one up the parent
/// chain, visiting at most `hops` threads.
pub open spec fn resolve<P, L>(m: Map<Seq<char>, NodeState<P, L>>, id: Seq<char>, hops: nat) -> Option<P>
    decreases hops,
{
    if hops == 0 || !m.contains_key(id) {
        None
    } else {
        match m[id].pacer {
            Some(p) => Some(p),
            None => match m[id].parent {
                Some(parent) => resolve(m, parent, (hops - 1) as nat),
                None => None,
            },
        }
    }
}

/// The registry after `id` records `parent`: an empty, self-referencing or
/// missing parent changes nothing; otherwise the entry (created if needed)
/// points at the parent.
pub open spec fn note_parent_spec<P, L>(
    m: Map<Seq<char>, NodeState<P, L>>,
    id: Seq<char>,
    parent: Option<Seq<char>>,
) -> Map<Seq<char>, NodeState<P, L>> {
    match parent {
        None => m,
        Some(p) => if p.len() == 0 || p == id {
            m
        } else {
            m.insert(
                id,
                NodeState { parent: Some(p), pacer: entry(m, id).pacer, limits: entry(m, id).limits },
            )
        },
    }
}

/// The registry after `id` records the snapshot `limits`.
pub open spec fn record_limits_spec<P, L>(
    m: Map<Seq<char>, NodeState<P, L>>,
    id: Seq<char>,
    limits: L,
) -> Map<Seq<char>, NodeState<P, L>> {
    m.insert(
        id,
        NodeState { parent: entry(m, id).parent, pacer: entry(m, id).pacer, limits: Some(limits) },
    )
}

/// The registry after `id` gets a pacer of its own: an existing one is kept,
/// otherwise `fresh` is installed.
pub open spec fn own_pacer_spec<P, L>(
    m: Map<Seq<char>, NodeState<P, L>>,
    id: Seq<char>,
    fresh: P,
) -> Map<Seq<char>, NodeState<P, L>> {
    if m.contains_key(id) && m[id].pacer is Some {
        m
    } else {
        m.insert(
            id,
            NodeState { parent: entry(m, id).parent, pacer: Some(fresh), limits: entry(m, id).limits },
        )
    }
}

pub open spec fn resolved_matches<P>(r: Option<&P>, s: Option<P>) -> bool {
    match (r, s) {
        (Some(a), Some(b)) => *a == b,
        (None, None) => true,
        _ => false,
    }
}

impl<P, L> View for Registry<P, L> {
    type V = Map<Seq<char>, NodeState<P, L>>;

    /// Thread id to entry.
    closed spec fn view(&self) -> Map<Seq<char>, NodeState<P, L>> {
        Map::new(|k: Seq<char>| self.holds(k), |k: Seq<char>| node_state(self.nodes@[self.index_of(k)]))
    }
}

impl<P, L> Registry<P, L> {
    /// Well-formed: no thread id has two entries.
    pub closed spec fn wf(&self) -> bool {
        self.ids_unique()
    }

    spec fn ids_unique(self) -> bool {
        forall|i: int, j: int|
            0 <= i < j < self.nodes@.len() ==> #[trigger] self.nodes@[i].thread_id@
                != #[trigger] self.nodes@[j].thread_id@
    }

    spec fn holds(self, k: Seq<char>) -> bool {
        exists|i: int| 0 <= i < self.nodes@.len() && #[trigger] self.nodes@[i].thread_id@ == k
    }

    spec fn index_of(self, k: Seq<char>) -> int {
        choose|i: int| 0 <= i < self.nodes@.len() && #[trigger] self.nodes@[i].thread_id@ == k
    }

    proof fn lemma_view_at(self, i: int)
        requires
            self.ids_unique(),
            0 <= i < self.nodes@.len(),
        ensures
            self.view().contains_key(self.nodes@[i].thread_id@),
            self.view()[self.nodes@[i].thread_id@] == node_state(self.nodes@[i]),
    {
        let k = self.nodes@[i].thread_id@;
        assert(self.holds(k));
        let j = self.index_of(k);
        assert(self.nodes@[j].thread_id@ == k);
        if j != i {
            if i < j {
                assert(self.nodes@[i].thread_id@ != self.nodes@[j].thread_id@);
            } else {
                assert(self.nodes@[j].thread_id@ != self.nodes@[i].thread_id@);
            }
        }
    }

    /// An empty registry.
    pub fn new() -> (r: Self)
        ensures
            r.wf(),
            r@ == Map::<Seq<char>, NodeState<P, L>>::empty(),
    {
        let r = Registry { nodes: Vec::new() };
        assert(r@ =~= Map::<Seq<char>, NodeState<P, L>>::empty());
        r
    }

    /// The position of the entry of `key`.
    fn find(&self, key: &String) -> (r: Option<usize>)
        requires
            self.wf(),
        ensures
            match r {
                Some(i) => i < self.nodes@.len() && self.nodes@[i as int].thread_id@ == key@,
                None => !self@.contains_key(key@),
            },
    {
        let mut i: usize = 0;
        while i < self.nodes.len()
            invariant
                i <= self.nodes@.len(),
                forall|j: int| 0 <= j < i ==> #[trigger] self.nodes@[j].thread_id@ != key@,
            decreases self.nodes@.len() - i,
        {
            if self.nodes[i].thread_id == *key {
                return Some(i);
            }
            i = i + 1;
        }
        None
    }

    /// Changing the entry at position `i` without touching its thread id
    /// changes the view at that id only.
    proof fn lemma_update(old_reg: Self, new_reg: Self, i: int)
        requires
            old_reg.ids_unique(),
            0 <= i < old_reg.nodes@.len(),
            new_reg.nodes@.len() == old_reg.nodes@.len(),
            new_reg.nodes@[i].thread_id@ == old_reg.nodes@[i].thread_id@,
            forall|j: int|
                0 <= j < old_reg.nodes@.len() && j != i ==> new_reg.nodes@[j] == old_reg.nodes@[j],
        ensures
            new_reg.ids_unique(),
            new_reg@ == old_reg@.insert(
                old_reg.nodes@[i].thread_id@,
                node_state(new_reg.nodes@[i]),
            ),
    {
        assert forall|a: int, b: int| 0 <= a < b < new_reg.nodes@.len() implies #[trigger] new_reg.nodes@[a].thread_id@
            != #[trigger] new_reg.nodes@[b].thread_id@ by {
            assert(new_reg.nodes@[a].thread_id@ == old_reg.nodes@[a].thread_id@);
            assert(new_reg.nodes@[b].thread_id@ == old_reg.nodes@[b].thread_id@);
            assert(old_reg.nodes@[a].thread_id@ != old_reg.nodes@[b].thread_id@);
        }
        let k = old_reg.nodes@[i].thread_id@;
        let target = old_reg@.insert(k, node_state(new_reg.nodes@[i]));
        assert forall|key: Seq<char>| #[trigger] new_reg@.contains_key(key) == target.contains_key(key) by {
            if new_reg.holds(key) {
                let j = choose|j: int|
                    0 <= j < new_reg.nodes@.len() && #[trigger] new_reg.nodes@[j].thread_id@ == key;
                assert(old_reg.nodes@[j].thread_id@ == key);
                assert(old_reg.holds(key));
            }
            if old_reg.holds(key) {
                let j = choose|j: int|
                    0 <= j < old_reg.nodes@.len() && #[trigger] old_reg.nodes@[j].thread_id@ == key;
                assert(new_reg.nodes@[j].thread_id@ == key);
                assert(new_reg.holds(key));
            }
            if key == k {
                assert(old_reg.nodes@[i].thread_id@ == key);
                assert(old_reg.holds(key));
            }
        }
        assert forall|key: Seq<char>| #[trigger] new_reg@.contains_key(key) implies new_reg@[key]
            == target[key] by {
            let j = new_reg.index_of(key);
            new_reg.lemma_view_at(j);
            if j != i {
                old_reg.lemma_view_at(j);
            }
        }
        assert(new_reg@ =~= target);
    }

    /// Appends an entry for a thread the registry does not hold.
    fn push_new(&mut self, id: String, parent: Option<String>, pacer: Option<P>, limits: Option<L>)
        requires
            old(self).wf(),
            !old(self)@.contains_key(id@),
        ensures
            final(self).wf(),
            final(self)@ == old(self)@.insert(id@, NodeState { parent: opt_view(parent), pacer, limits }),
    {
        let ghost old_self = *self;
        let ghost k = id@;
        assert forall|j: int| 0 <= j < old_self.nodes@.len() implies #[trigger] old_self.nodes@[j].thread_id@
            != k by {
            if old_self.nodes@[j].thread_id@ == k {
                assert(old_self.holds(k));
            }
        }
        self.nodes.push(ThreadNode { thread_id: id, parent, pacer, limits });
        proof {
            let n = old_self.nodes@.len() as int;
            assert forall|a: int, b: int| 0 <= a < b < self.nodes@.len() implies #[trigger] self.nodes@[a].thread_id@
                != #[trigger] self.nodes@[b].thread_id@ by {
                if b == n {
                    assert(old_self.nodes@[a].thread_id@ != k);
                } else {
                    assert(old_self.nodes@[a].thread_id@ != old_self.nodes@[b].thread_id@);
                }
            }
            let target = old_self@.insert(k, NodeState { parent: opt_view(parent), pacer, limits });
            assert forall|key: Seq<char>| #[trigger] self@.contains_key(key) == target.contains_key(
                key,
            ) by {
                if self.holds(key) {
                    let j = choose|j: int|
                        0 <= j < self.nodes@.len() && #[trigger] self.nodes@[j].thread_id@ == key;
                    if j != n {
                        assert(old_self.nodes@[j].thread_id@ == key);
                        assert(old_self.holds(key));
                    }
                }
                if old_self.holds(key) {
                    let j = choose|j: int|
                        0 <= j < old_self.nodes@.len() && #[trigger] old_self.nodes@[j].thread_id@
                            == key;
                    assert(self.nodes@[j].thread_id@ == key);
                    assert(self.holds(key));
                }
                if key == k {
                    assert(self.nodes@[n].thread_id@ == key);
                }
            }
            assert forall|key: Seq<char>| #[trigger] self@.contains_key(key) implies self@[key]
                == target[key] by {
                let j = self.index_of(key);
                self.lemma_view_at(j);
                if j != n {
                    assert(old_self.nodes@[j] == self.nodes@[j]);
                    old_self.lemma_view_at(j);
                }
            }
            assert(self@ =~= target);
        }
    }

    /// The entry of `thread_id`, when there is one.
    pub fn node(&self, thread_id: &str) -> (r: Option<&ThreadNode<P, L>>)
        requires
            self.wf(),
        ensures
            match r {
                Some(n) => self@.contains_key(thread_id@) && n.thread_id@ == thread_id@
                    && node_state(*n) == self@[thread_id@],
                None => !self@.contains_key(thread_id@),
            },
    {
        let key = String::from_str(thread_id);
        match self.find(&key) {
            Some(i) => {
                proof {
                    self.lemma_view_at(i as int);
                }
                Some(&self.nodes[i])
            },
            None => None,
        }
    }

    /// The pacer that governs `thread_id`: its own, or the nearest one up
    /// its parent chain, looking at no more than `MAX_PARENT_HOPS` threads.
    pub fn resolve_pacer(&self, thread_id: &str) -> (r: Option<&P>)
        requires
            self.wf(),
        ensures
            resolved_matches(r, resolve(self@, thread_id@, MAX_PARENT_HOPS as nat)),
    {
        let mut current = String::from_str(thread_id);
        let mut hops: usize = 0;
        while hops < MAX_PARENT_HOPS
            invariant
                self.wf(),
                hops <= MAX_PARENT_HOPS,
                resolve(self@, thread_id@, MAX_PARENT_HOPS as nat) == resolve(
                    self@,
                    current@,
                    (MAX_PARENT_HOPS - hops) as nat,
                ),
            decreases MAX_PARENT_HOPS - hops,
        {
            let i = match self.find(&current) {
                Some(i) => i,
                None => return None,
            };
            proof {
                self.lemma_view_at(i as int);
            }
            let node = &self.nodes[i];
            match &node.pacer {
                Some(p) => return Some(p),
                None => {},
            }
            match &node.parent {
                Some(parent) => {
                    current = parent.clone();
                },
                None => return None,
            }
            hops = hops + 1;
        }
        None
    }

    /// Forgets every thread.
    pub fn clear(&mut self)
        ensures
            final(self).wf(),
            final(self)@ == Map::<Seq<char>, NodeState<P, L>>::empty(),
    {
        self.nodes.clear();
        assert(self@ =~= Map::<Seq<char>, NodeState<P, L>>::empty());
    }


    /// Records that `thread_id` is a child of `parent`.
    fn set_parent(&mut self, thread_id: &str, parent: &str)
        requires
            old(self).wf(),
        ensures
            final(self).wf(),
            final(self)@ == old(self)@.insert(
                thread_id@,
                NodeState {
                    parent: Some(parent@),
                    pacer: entry(old(self)@, thread_id@).pacer,
                    limits: entry(old(self)@, thread_id@).limits,
                },
            ),
    {
        let key = String::from_str(thread_id);
        match self.find(&key) {
            Some(i) => {
                let ghost before = *self;
                proof {
                    before.lemma_view_at(i as int);
                }
                self.nodes[i].parent = Some(String::from_str(parent));
                proof {
                    Self::lemma_update(before, *self, i as int);
                }
            },
            None => {
                self.push_new(key, Some(String::from_str(parent)), None, None);
            },
        }
    }

    /// Remembers `limits` as the latest snapshot of `thread_id`.
    fn set_limits(&mut self, thread_id: &str, limits: L)
        requires
            old(self).wf(),
        ensures
            final(self).wf(),
            final(self)@ == record_limits_spec(old(self)@, thread_id@, limits),
    {
        let key = String::from_str(thread_id);
        match self.find(&key) {
            Some(i) => {
                let ghost before = *self;
                proof {
                    before.lemma_view_at(i as int);
                }
                self.nodes[i].limits = Some(limits);
                proof {
                    Self::lemma_update(before, *self, i as int);
                }
            },
            None => {
                self.push_new(key, None, None, Some(limits));
            },
        }
    }

    /// Gives `thread_id` a pacer of its own, made by `make` when it has none.
    fn ensure_pacer<F: FnOnce() -> P>(&mut self, thread_id: &str, make: F) -> (fresh: Ghost<Option<P>>)
        requires
            old(self).wf(),
            make.requires(()),
        ensures
            final(self).wf(),
            match fresh@ {
                None => final(self)@ == old(self)@ && old(self)@.contains_key(thread_id@)
                    && old(self)@[thread_id@].pacer is Some,
                Some(p) => make.ensures((), p) && final(self)@ == own_pacer_spec(
                    old(self)@,
                    thread_id@,
                    p,
                ) && !(old(self)@.contains_key(thread_id@) && old(self)@[thread_id@].pacer is Some),
            },
    {
        let key = String::from_str(thread_id);
        match self.find(&key) {
            Some(i) => {
                let ghost before = *self;
                proof {
                    before.lemma_view_at(i as int);
                }
                if self.nodes[i].pacer.is_some() {
                    return Ghost(None);
                }
                let p = make();
                let ghost gp = p;
                self.nodes[i].pacer = Some(p);
                proof {
                    Self::lemma_update(before, *self, i as int);
                }
                Ghost(Some(gp))
            },
            None => {
                let p = make();
                let ghost gp = p;
                self.push_new(key, None, Some(p), None);
                Ghost(Some(gp))
            },
        }
    }
}

pub open spec fn str_opt_view(s: Option<&str>) -> Option<Seq<char>> {
    match s {
        Some(t) => Some(t@),
        None => None,
    }
}

/// Remembers that `thread_id` is a child of `parent_thread_id`, so that its
/// model requests share the parent's pacer. A missing or empty parent, or a
/// thread naming itself, changes nothing.
pub fn note_parent<P, L>(
    registry: &mut Registry<P, L>,
    thread_id: &str,
    parent_thread_id: Option<&str>,
)
    requires
        old(registry).wf(),
    ensures
        final(registry).wf(),
        final(registry)@ == note_parent_spec(old(registry)@, thread_id@, str_opt_view(parent_thread_id)),
{
    let parent = match parent_thread_id {
        Some(p) => p,
        None => return,
    };
    if parent.is_empty() || String::from_str(parent) == String::from_str(thread_id) {
        return;
    }
    registry.set_parent(thread_id, parent);
}

/// What the runtime is to tell a pacer.
pub enum PacerCommand<L> {
    /// Turn pacing on, starting from the thread's latest snapshot.
    Enable { limits: Option<L> },
    /// Turn pacing off; waits under way end and let their requests through.
    Disable,
    /// Take a new rate-limit snapshot into account.
    Observe { snapshot: L },
    /// Cancel the pacing waits under way; pacing stays on.
    CancelWaits,
    /// End every wait for good: the thread is shutting down.
    Shutdown,
}

/// A command for one pacer of the registry. The runtime carries it out once
/// it no longer holds the registry.
pub struct PacerOrder<'a, P, L> {
    pub pacer: &'a P,
    pub command: PacerCommand<L>,
}

/// `r` addresses the pacer `target` (none when there is no such pacer) with
/// a command satisfying `command_ok`.
pub open spec fn addressed<'a, P, L>(
    r: Option<PacerOrder<'a, P, L>>,
    target: Option<P>,
    command_ok: spec_fn(PacerCommand<L>) -> bool,
) -> bool {
    match (r, target) {
        (Some(o), Some(p)) => *o.pacer == p && command_ok(o.command),
        (None, None) => true,
        _ => false,
    }
}

/// Remembers `snapshot` as the latest rate limits of `thread_id`, and
/// orders the pacer that governs the thread to observe a clone of it.
pub fn record_rate_limits<'a, P, L: Clone>(
    registry: &'a mut Registry<P, L>,
    thread_id: &str,
    snapshot: L,
) -> (r: Option<PacerOrder<'a, P, L>>)
    requires
        old(registry).wf(),
    ensures
        final(registry).wf(),
        final(registry)@ == record_limits_spec(old(registry)@, thread_id@, snapshot),
        addressed(
            r,
            resolve(final(registry)@, thread_id@, MAX_PARENT_HOPS as nat),
            |c: PacerCommand<L>| c matches PacerCommand::Observe { snapshot: s } && cloned(snapshot, s),
        ),
{
    let observed = snapshot.clone();
    registry.set_limits(thread_id, snapshot);
    match registry.resolve_pacer(thread_id) {
        Some(p) => Some(PacerOrder { pacer: p, command: PacerCommand::Observe { snapshot: observed } }),
        None => None,
    }
}

/// The thread's latest snapshot, cloned.
fn latest_limits<P, L: Clone>(registry: &Registry<P, L>, thread_id: &str) -> (r: Option<L>)
    requires
        registry.wf(),
    ensures
        match entry(registry@, thread_id@).limits {
            None => r is None,
            Some(l) => r matches Some(c) && cloned(l, c),
        },
{
    match registry.node(thread_id) {
        Some(node) => match &node.limits {
            Some(l) => Some(l.clone()),
            None => None,
        },
        None => None,
    }
}

/// Turns slow mode on for `thread_id`: the thread gets a pacer of its own
/// (made by `make_pacer` unless it already has one), which is ordered to
/// enable pacing from a clone of the thread's latest snapshot.
pub fn enable<'a, P, L: Clone, F: FnOnce() -> P>(
    registry: &'a mut Registry<P, L>,
    thread_id: &str,
    make_pacer: F,
) -> (r: PacerOrder<'a, P, L>)
    requires
        old(registry).wf(),
        make_pacer.requires(()),
    ensures
        final(registry).wf(),
        old(registry)@.contains_key(thread_id@) && old(registry)@[thread_id@].pacer is Some
            ==> final(registry)@ == old(registry)@,
        !(old(registry)@.contains_key(thread_id@) && old(registry)@[thread_id@].pacer is Some)
            ==> exists|p: P|
            make_pacer.ensures((), p) && final(registry)@ == own_pacer_spec(
                old(registry)@,
                thread_id@,
                p,
            ),
        final(registry)@.contains_key(thread_id@),
        final(registry)@[thread_id@].pacer == Some(*r.pacer),
        r.command matches PacerCommand::Enable { limits } && match entry(
            old(registry)@,
            thread_id@,
        ).limits {
            None => limits is None,
            Some(l) => limits matches Some(c) && cloned(l, c),
        },
{
    let limits = latest_limits(registry, thread_id);
    let _fresh = registry.ensure_pacer(thread_id, make_pacer);
    let node = registry.node(thread_id);
    let pacer = match node {
        Some(n) => match &n.pacer {
            Some(p) => p,
            None => {
                proof {
                    assert(false);
                }
                unreached()
            },
        },
        None => {
            proof {
                assert(false);
            }
            unreached()
        },
    };
    PacerOrder { pacer, command: PacerCommand::Enable { limits } }
}

/// Orders the pacer that governs `thread_id` to turn pacing off.
pub fn disable<'a, P, L>(registry: &'a Registry<P, L>, thread_id: &str) -> (r: Option<
    PacerOrder<'a, P, L>,
>)
    requires
        registry.wf(),
    ensures
        addressed(
            r,
            resolve(registry@, thread_id@, MAX_PARENT_HOPS as nat),
            |c: PacerCommand<L>| c is Disable,
        ),
{
    match registry.resolve_pacer(thread_id) {
        Some(p) => Some(PacerOrder { pacer: p, command: PacerCommand::Disable }),
        None => None,
    }
}

/// Orders the pacer that governs `thread_id` to cancel its pacing waits (a
/// turn interrupt); pacing stays on.
pub fn cancel_waits<'a, P, L>(registry: &'a Registry<P, L>, thread_id: &str) -> (r: Option<
    PacerOrder<'a, P, L>,
>)
    requires
        registry.wf(),
    ensures
        addressed(
            r,
            resolve(registry@, thread_id@, MAX_PARENT_HOPS as nat),
            |c: PacerCommand<L>| c is CancelWaits,
        ),
{
    match registry.resolve_pacer(thread_id) {
        Some(p) => Some(PacerOrder { pacer: p, command: PacerCommand::CancelWaits }),
        None => None,
    }
}

/// Orders the pacer that governs `thread_id` to shut down, so no request of
/// the session waits in it any more.
pub fn shutdown_thread<'a, P, L>(registry: &'a Registry<P, L>, thread_id: &str) -> (r: Option<
    PacerOrder<'a, P, L>,
>)
    requires
        registry.wf(),
    ensures
        addressed(
            r,
            resolve(registry@, thread_id@, MAX_PARENT_HOPS as nat),
            |c: PacerCommand<L>| c is Shutdown,
        ),
{
    match registry.resolve_pacer(thread_id) {
        Some(p) => Some(PacerOrder { pacer: p, command: PacerCommand::Shutdown }),
        None => None,
    }
}

/// Forgets every thread.
pub fn reset_for_tests<P, L>(registry: &mut Registry<P, L>)
    ensures
        final(registry).wf(),
        final(registry)@ == Map::<Seq<char>, NodeState<P, L>>::empty(),
{
    registry.clear();
}

// ---------------------------------------------------------------------------
// Laws
// ---------------------------------------------------------------------------

/// A child thread without a pacer of its own uses its parent's pacer once
/// it has recorded the parent.
pub proof fn lemma_child_uses_parent_pacer<P, L>(
    m: Map<Seq<char>, NodeState<P, L>>,
    child: Seq<char>,
    parent: Seq<char>,
    p: P,
)
    requires
        parent.len() > 0,
        parent != child,
        m.contains_key(parent),
        m[parent].pacer == Some(p),
        !(m.contains_key(child) && m[child].pacer is Some),
    ensures
        resolve(note_parent_spec(m, child, Some(parent)), child, MAX_PARENT_HOPS as nat) == Some(p),
{
    let m2 = note_parent_spec(m, child, Some(parent));
    assert(m2[child].pacer is None);
    assert(m2[parent] == m[parent]);
    reveal_with_fuel(resolve, 2);
}

/// A thread with a pacer of its own is governed by it; enabling slow mode on
/// a thread that already has one keeps that pacer.
pub proof fn lemma_own_pacer_governs<P, L>(m: Map<Seq<char>, NodeState<P, L>>, id: Seq<char>, fresh: P)
    ensures
        resolve(own_pacer_spec(m, id, fresh), id, MAX_PARENT_HOPS as nat) == (if m.contains_key(id)
            && m[id].pacer is Some {
            m[id].pacer
        } else {
            Some(fresh)
        }),
        m.contains_key(id) && m[id].pacer is Some ==> own_pacer_spec(m, id, fresh) == m,
{
    reveal_with_fuel(resolve, 1);
}

/// Recording rate limits never changes which pacer governs any thread.
pub proof fn lemma_limits_do_not_move_pacers<P, L>(
    m: Map<Seq<char>, NodeState<P, L>>,
    id: Seq<char>,
    limits: L,
    x: Seq<char>,
    hops: nat,
)
    ensures
        resolve(record_limits_spec(m, id, limits), x, hops) == resolve(m, x, hops),
    decreases hops,
{
    let m2 = record_limits_spec(m, id, limits);
    if hops > 0 && m.contains_key(x) {
        assert(m2[x].pacer == m[x].pacer && m2[x].parent == m[x].parent);
        match m[x].parent {
            Some(par) => lemma_limits_do_not_move_pacers(m, id, limits, par, (hops - 1) as nat),
            None => {},
        }
    }
    if hops > 0 && !m.contains_key(x) && x == id {
        assert(m2[x].pacer is None && m2[x].parent is None);
    }
}

/// Recording a parent never takes a thread off a pacer of its own.
pub proof fn lemma_parent_does_not_override_own_pacer<P, L>(
    m: Map<Seq<char>, NodeState<P, L>>,
    child: Seq<char>,
    parent: Option<Seq<char>>,
    x: Seq<char>,
    q: P,
)
    requires
        m.contains_key(x),
        m[x].pacer == Some(q),
    ensures
        resolve(note_parent_spec(m, child, parent), x, MAX_PARENT_HOPS as nat) == Some(q),
{
    reveal_with_fuel(resolve, 1);
}

/// Whether the walk that resolves `x` (at most `hops` threads) reaches the
/// thread `c` before it finds a pacer or runs out of chain.
pub open spec fn walk_visits<P, L>(
    m: Map<Seq<char>, NodeState<P, L>>,
    x: Seq<char>,
    c: Seq<char>,
    hops: nat,
) -> bool
    decreases hops,
{
    if hops == 0 {
        false
    } else if x == c {
        true
    } else if !m.contains_key(x) {
        false
    } else {
        match m[x].pacer {
            Some(_) => false,
            None => match m[x].parent {
                Some(parent) => walk_visits(m, parent, c, (hops - 1) as nat),
                None => false,
            },
        }
    }
}

/// Changing the entry of `c` does not change the resolution of a thread
/// whose walk never reaches `c`.
pub proof fn lemma_resolve_unaffected<P, L>(
    m: Map<Seq<char>, NodeState<P, L>>,
    c: Seq<char>,
    v: NodeState<P, L>,
    x: Seq<char>,
    hops: nat,
)
    requires
        !walk_visits(m, x, c, hops),
    ensures
        resolve(m.insert(c, v), x, hops) == resolve(m, x, hops),
    decreases hops,
{
    if hops > 0 && m.contains_key(x) && m[x].pacer is None {
        if let Some(parent) = m[x].parent {
            lemma_resolve_unaffected(m, c, v, parent, (hops - 1) as nat);
        }
    }
}

/// Once a child thread without a pacer of its own records its parent, its
/// requests go wherever the parent's go: it resolves to the pacer the
/// parent resolves to with one thread fewer to visit. This holds whenever
/// the parent's own walk does not lead back through the child.
pub proof fn lemma_child_follows_parent<P, L>(
    m: Map<Seq<char>, NodeState<P, L>>,
    child: Seq<char>,
    parent: Seq<char>,
)
    requires
        parent.len() > 0,
        parent != child,
        !(m.contains_key(child) && m[child].pacer is Some),
        !walk_visits(m, parent, child, (MAX_PARENT_HOPS - 1) as nat),
    ensures
        resolve(note_parent_spec(m, child, Some(parent)), child, MAX_PARENT_HOPS as nat) == resolve(
            m,
            parent,
            (MAX_PARENT_HOPS - 1) as nat,
        ),
{
    let v = NodeState { parent: Some(parent), pacer: entry(m, child).pacer, limits: entry(m, child).limits };
    lemma_resolve_unaffected(m, child, v, parent, (MAX_PARENT_HOPS - 1) as nat);
    reveal_with_fuel(resolve, 1);
}

/// After slow mode is enabled on a thread and a child records it as its
/// parent, the child resolves to the very pacer that `enable` ordered on:
/// the child's requests, and a `disable`, `cancel_waits` or
/// `shutdown_thread` on the child, reach that pacer.
pub proof fn lemma_enable_reaches_children<P, L>(
    m: Map<Seq<char>, NodeState<P, L>>,
    root: Seq<char>,
    child: Seq<char>,
    fresh: P,
)
    requires
        root.len() > 0,
        root != child,
        !(m.contains_key(child) && m[child].pacer is Some),
    ensures
        ({
            let on = own_pacer_spec(m, root, fresh);
            &&& on.contains_key(root)
            &&& on[root].pacer is Some
            &&& resolve(note_parent_spec(on, child, Some(root)), child, MAX_PARENT_HOPS as nat)
                == on[root].pacer
        }),
{
    let on = own_pacer_spec(m, root, fresh);
    assert(!(on.contains_key(child) && on[child].pacer is Some));
    lemma_child_uses_parent_pacer(on, child, root, on[root].pacer.unwrap());
}

} // verus!
