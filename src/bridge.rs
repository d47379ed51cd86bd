//! The event bridge: live subscriptions by path, and the mailbox that external
//! callbacks fill and the host drains on its own update cycle.
use vstd::prelude::*;

use crate::child::EventKind;

verus! {

/// A listener attached to the live map, under the path it captured.
pub struct Registration {
    pub path: Vec<u64>,
    pub kind: EventKind,
}

/// Why a subscription could not be registered.
#[derive(Clone, Copy, Debug, PartialEq, Eq, Structural)]
pub enum RegisterError {
    /// A live subscription already holds this path: the two would alias.
    PathInUse,
}

/// The paths of `regs`, each mapped to the event registered under it; a later
/// entry wins over an earlier one with the same path.
pub open spec fn registry_map(regs: Seq<Registration>) -> Map<Seq<u64>, EventKind>
    decreases regs.len(),
{
    if regs.len() == 0 {
        Map::empty()
    } else {
        registry_map(regs.drop_last()).insert(regs.last().path@, regs.last().kind)
    }
}

pub open spec fn paths_distinct(regs: Seq<Registration>) -> bool {
    forall|i: int, j: int|
        0 <= i < regs.len() && 0 <= j < regs.len() && i != j ==> #[trigger] regs[i].path@
            != #[trigger] regs[j].path@
}

proof fn lemma_registry_map_has(regs: Seq<Registration>, p: Seq<u64>)
    requires
        paths_distinct(regs),
    ensures
        registry_map(regs).contains_key(p) <==> exists|i: int|
            0 <= i < regs.len() && #[trigger] regs[i].path@ == p,
        forall|i: int|
            0 <= i < regs.len() && #[trigger] regs[i].path@ == p ==> registry_map(regs)[p]
                == regs[i].kind,
    decreases regs.len(),
{
    if regs.len() > 0 {
        let init = regs.drop_last();
        assert(paths_distinct(init)) by {
            assert forall|i: int, j: int|
                0 <= i < init.len() && 0 <= j < init.len() && i != j implies #[trigger] init[i].path@
                != #[trigger] init[j].path@ by {
                assert(init[i] == regs[i]);
                assert(init[j] == regs[j]);
            }
        }
        lemma_registry_map_has(init, p);
        if registry_map(regs).contains_key(p) && p != regs.last().path@ {
            let i = choose|i: int| 0 <= i < init.len() && #[trigger] init[i].path@ == p;
            assert(regs[i].path@ == p);
        }
        if exists|i: int| 0 <= i < regs.len() && #[trigger] regs[i].path@ == p {
            let i = choose|i: int| 0 <= i < regs.len() && #[trigger] regs[i].path@ == p;
            if i < regs.len() - 1 {
                assert(init[i].path@ == p);
            }
        }
        assert forall|i: int|
            0 <= i < regs.len() && #[trigger] regs[i].path@ == p implies registry_map(regs)[p]
            == regs[i].kind by {
            if i < regs.len() - 1 {
                assert(init[i] == regs[i]);
                assert(regs[i].path@ != regs[regs.len() - 1].path@);
            }
        }
    }
}

/// The live subscriptions of one map, no two under one path.
pub struct Subscriptions {
    entries: Vec<Registration>,
}

impl Subscriptions {
    pub closed spec fn view(&self) -> Map<Seq<u64>, EventKind> {
        registry_map(self.entries@)
    }

    pub closed spec fn wf(&self) -> bool {
        paths_distinct(self.entries@)
    }

    pub fn new() -> (r: Self)
        ensures
            r.wf(),
            r.view() == Map::<Seq<u64>, EventKind>::empty(),
    {
        Subscriptions { entries: Vec::new() }
    }

    pub fn len(&self) -> (r: usize)
        requires
            self.wf(),
        ensures
            r == self.view().len(),
    {
        proof {
            self.lemma_len();
        }
        self.entries.len()
    }

    proof fn lemma_len(&self)
        requires
            self.wf(),
        ensures
            self.view().dom().finite(),
            self.view().len() == self.entries@.len(),
    {
        lemma_registry_map_len(self.entries@);
    }

    /// Position of the entry registered under `path`, if any.
    fn find(&self, path: &Vec<u64>) -> (r: Option<usize>)
        requires
            self.wf(),
        ensures
            match r {
                Some(i) => i < self.entries@.len() && self.entries@[i as int].path@ == path@,
                None => forall|i: int|
                    0 <= i < self.entries@.len() ==> #[trigger] self.entries@[i].path@ != path@,
            },
    {
        let mut i: usize = 0;
        while i < self.entries.len()
            invariant
                0 <= i <= self.entries@.len(),
                forall|j: int| 0 <= j < i ==> #[trigger] self.entries@[j].path@ != path@,
            decreases self.entries@.len() - i,
        {
            if self.entries[i].path == *path {
                return Some(i);
            }
            i = i + 1;
        }
        None
    }

    /// The event registered under `path`, or `None` where no live subscription
    /// holds it: a message addressed there is stale.
    pub fn route(&self, path: &Vec<u64>) -> (r: Option<EventKind>)
        requires
            self.wf(),
        ensures
            r == (if self.view().contains_key(path@) {
                Some(self.view()[path@])
            } else {
                None
            }),
    {
        proof {
            lemma_registry_map_has(self.entries@, path@);
        }
        match self.find(path) {
            Some(i) => Some(self.entries[i].kind),
            None => None,
        }
    }

    /// Registers a listener for `kind` under `path`. A path already in use is
    /// refused and nothing changes.
    pub fn register(&mut self, path: Vec<u64>, kind: EventKind) -> (r: Result<(), RegisterError>)
        requires
            old(self).wf(),
        ensures
            final(self).wf(),
            old(self).view().contains_key(path@) ==> r == Err::<(), RegisterError>(
                RegisterError::PathInUse,
            ) && final(self).view() == old(self).view(),
            !old(self).view().contains_key(path@) ==> r is Ok && final(self).view() == old(
                self,
            ).view().insert(path@, kind),
    {
        proof {
            lemma_registry_map_has(self.entries@, path@);
        }
        match self.find(&path) {
            Some(_) => Err(RegisterError::PathInUse),
            None => {
                let ghost before = self.entries@;
                self.entries.push(Registration { path, kind });
                proof {
                    assert(self.entries@.drop_last() == before);
                    assert forall|i: int, j: int|
                        0 <= i < self.entries@.len() && 0 <= j < self.entries@.len() && i
                            != j implies #[trigger] self.entries@[i].path@
                        != #[trigger] self.entries@[j].path@ by {
                        if i < before.len() && j < before.len() {
                            assert(before[i] == self.entries@[i]);
                            assert(before[j] == self.entries@[j]);
                        } else if i < before.len() {
                            assert(before[i] == self.entries@[i]);
                        } else {
                            assert(before[j] == self.entries@[j]);
                        }
                    }
                }
                Ok(())
            },
        }
    }

    /// Detaches the subscription under `path`; returns whether there was one.
    pub fn unregister(&mut self, path: &Vec<u64>) -> (r: bool)
        requires
            old(self).wf(),
        ensures
            final(self).wf(),
            r == old(self).view().contains_key(path@),
            final(self).view() == old(self).view().remove(path@),
    {
        proof {
            lemma_registry_map_has(self.entries@, path@);
        }
        match self.find(path) {
            Some(i) => {
                let ghost before = self.entries@;
                self.entries.remove(i);
                proof {
                    lemma_registry_map_remove(before, i as int);
                    assert(self.view() =~= registry_map(before).remove(path@));
                }
                true
            },
            None => {
                proof {
                    lemma_registry_map_absent(self.entries@, path@);
                    assert(self.view() =~= self.view().remove(path@));
                }
                false
            },
        }
    }
}

proof fn lemma_registry_map_absent(regs: Seq<Registration>, p: Seq<u64>)
    requires
        forall|i: int| 0 <= i < regs.len() ==> #[trigger] regs[i].path@ != p,
    ensures
        !registry_map(regs).contains_key(p),
    decreases regs.len(),
{
    if regs.len() > 0 {
        let init = regs.drop_last();
        assert forall|i: int| 0 <= i < init.len() implies #[trigger] init[i].path@ != p by {
            assert(init[i] == regs[i]);
        }
        lemma_registry_map_absent(init, p);
        assert(regs[regs.len() - 1].path@ != p);
    }
}

proof fn lemma_registry_map_len(regs: Seq<Registration>)
    requires
        paths_distinct(regs),
    ensures
        registry_map(regs).dom().finite(),
        registry_map(regs).len() == regs.len(),
    decreases regs.len(),
{
    if regs.len() > 0 {
        let init = regs.drop_last();
        assert(paths_distinct(init)) by {
            assert forall|i: int, j: int|
                0 <= i < init.len() && 0 <= j < init.len() && i != j implies #[trigger] init[i].path@
                != #[trigger] init[j].path@ by {
                assert(init[i] == regs[i]);
                assert(init[j] == regs[j]);
            }
        }
        lemma_registry_map_len(init);
        assert forall|i: int| 0 <= i < init.len() implies #[trigger] init[i].path@ != regs.last().path@ by {
            assert(init[i] == regs[i]);
        }
        lemma_registry_map_absent(init, regs.last().path@);
    }
}

proof fn lemma_registry_map_remove(regs: Seq<Registration>, k: int)
    requires
        paths_distinct(regs),
        0 <= k < regs.len(),
    ensures
        paths_distinct(regs.remove(k)),
        registry_map(regs.remove(k)) =~= registry_map(regs).remove(regs[k].path@),
{
    let rest = regs.remove(k);
    assert(paths_distinct(rest)) by {
        assert forall|i: int, j: int|
            0 <= i < rest.len() && 0 <= j < rest.len() && i != j implies #[trigger] rest[i].path@
            != #[trigger] rest[j].path@ by {
            let oi = if i < k { i } else { i + 1 };
            let oj = if j < k { j } else { j + 1 };
            assert(rest[i] == regs[oi]);
            assert(rest[j] == regs[oj]);
        }
    }
    let p = regs[k].path@;
    assert forall|q: Seq<u64>|
        #[trigger] registry_map(rest).contains_key(q) == registry_map(regs).remove(p).contains_key(q)
        && (registry_map(rest).contains_key(q) ==> registry_map(rest)[q] == registry_map(regs).remove(p)[q]) by {
        lemma_registry_map_has(rest, q);
        lemma_registry_map_has(regs, q);
        if registry_map(rest).contains_key(q) {
            let i = choose|i: int| 0 <= i < rest.len() && #[trigger] rest[i].path@ == q;
            let oi = if i < k { i } else { i + 1 };
            assert(rest[i] == regs[oi]);
        }
        if registry_map(regs).contains_key(q) && q != p {
            let i = choose|i: int| 0 <= i < regs.len() && #[trigger] regs[i].path@ == q;
            assert(i != k);
            let ri = if i < k { i } else { i - 1 };
            assert(rest[ri] == regs[i]);
        }
    }
    assert forall|q: Seq<u64>|
        #[trigger] registry_map(regs).remove(p).contains_key(q) implies registry_map(rest).contains_key(q) by {
        assert(registry_map(rest).contains_key(q) == registry_map(regs).remove(p).contains_key(q));
    }
}

/// An event that an external callback fired, tagged with the path that its
/// subscription captured.
pub struct QueuedMessage<P> {
    pub path: Vec<u64>,
    pub payload: P,
}

/// A message that still has a live subscriber, with the event that subscriber
/// registered for.
pub struct Delivery<P> {
    pub kind: EventKind,
    pub path: Vec<u64>,
    pub payload: P,
}

/// What draining `queue` against the live subscriptions `live` delivers: the
/// messages whose path is still registered, in the order they were queued, each
/// to the event registered under its path. The others are stale and dropped.
pub open spec fn deliveries<P>(queue: Seq<QueuedMessage<P>>, live: Map<Seq<u64>, EventKind>) -> Seq<
    Delivery<P>,
>
    decreases queue.len(),
{
    if queue.len() == 0 {
        Seq::empty()
    } else {
        let earlier = deliveries(queue.drop_last(), live);
        let m = queue.last();
        if live.contains_key(m.path@) {
            earlier.push(Delivery { kind: live[m.path@], path: m.path, payload: m.payload })
        } else {
            earlier
        }
    }
}

/// The mailbox shared by the listeners of one map: callbacks push, the host's
/// update cycle drains.
pub struct Mailbox<P> {
    queue: Vec<QueuedMessage<P>>,
}

impl<P> Mailbox<P> {
    pub closed spec fn view(&self) -> Seq<QueuedMessage<P>> {
        self.queue@
    }

    pub fn new() -> (r: Self)
        ensures
            r.view() == Seq::<QueuedMessage<P>>::empty(),
    {
        Mailbox { queue: Vec::new() }
    }

    pub fn len(&self) -> (r: usize)
        ensures
            r == self.view().len(),
    {
        self.queue.len()
    }

    /// Queues `payload` behind every message already waiting.
    pub fn enqueue(&mut self, path: Vec<u64>, payload: P)
        ensures
            final(self).view() == old(self).view().push(QueuedMessage { path, payload }),
    {
        self.queue.push(QueuedMessage { path, payload });
    }

    /// Empties the mailbox and returns, in queue order, the messages that still
    /// have a live subscriber in `live`; stale ones are dropped.
    pub fn drain(&mut self, live: &Subscriptions) -> (r: Vec<Delivery<P>>)
        requires
            live.wf(),
        ensures
            final(self).view() == Seq::<QueuedMessage<P>>::empty(),
            r@ == deliveries(old(self).view(), live.view()),
    {
        let mut pending: Vec<QueuedMessage<P>> = Vec::new();
        core::mem::swap(&mut self.queue, &mut pending);
        let ghost all = pending@;
        let total = pending.len();
        let mut out: Vec<Delivery<P>> = Vec::new();
        let mut k: usize = 0;
        while pending.len() > 0
            invariant
                self.queue@ == Seq::<QueuedMessage<P>>::empty(),
                live.wf(),
                k + pending@.len() == all.len(),
                all.len() == total,
                pending@ == all.skip(k as int),
                out@ == deliveries(all.take(k as int), live.view()),
            decreases pending@.len(),
        {
            let m = pending.remove(0);
            proof {
                assert(m == all[k as int]);
                assert(all.take(k + 1 as int).drop_last() =~= all.take(k as int));
                assert(all.take(k + 1 as int).last() == m);
                assert(pending@ =~= all.skip(k + 1 as int));
            }
            let QueuedMessage { path, payload } = m;
            match live.route(&path) {
                Some(kind) => out.push(Delivery { kind, path, payload }),
                None => {},
            }
            k = k + 1;
        }
        proof {
            assert(all.take(k as int) =~= all);
        }
        out
    }
}

/// A message queued under a path whose subscription was torn down before the
/// mailbox was drained reaches no handler: nothing is delivered under that path.
pub proof fn lemma_stale_messages_dropped<P>(
    live: Map<Seq<u64>, EventKind>,
    queue: Seq<QueuedMessage<P>>,
    path: Seq<u64>,
)
    ensures
        forall|i: int|
            0 <= i < deliveries(queue, live.remove(path)).len() ==> (#[trigger] deliveries(
                queue,
                live.remove(path),
            )[i]).path@ != path,
    decreases queue.len(),
{
    if queue.len() > 0 {
        lemma_stale_messages_dropped(live, queue.drop_last(), path);
    }
}

/// Every delivered message goes to the subscription registered under its own
/// path, and to no other.
pub proof fn lemma_delivered_to_own_path<P>(
    live: Map<Seq<u64>, EventKind>,
    queue: Seq<QueuedMessage<P>>,
)
    ensures
        forall|i: int|
            0 <= i < deliveries(queue, live).len() ==> live.contains_key(
                (#[trigger] deliveries(queue, live)[i]).path@,
            ) && deliveries(queue, live)[i].kind == live[deliveries(queue, live)[i].path@],
    decreases queue.len(),
{
    if queue.len() > 0 {
        lemma_delivered_to_own_path(live, queue.drop_last());
    }
}

} // verus!
