//! Addressing: the stack of view identifiers that tags every asynchronous message
//! with the place in the tree that registered for it.
use vstd::prelude::*;

use crate::child::EventKind;

verus! {

/// Identifier of a mouse-click subscription, distinctive for debugging.
pub const ON_MOUSE_CLICK_ID: u64 = 23668;

/// Identifier of a move-end subscription, distinctive for debugging.
pub const ON_MOVE_END_ID: u64 = 23669;

/// Identifier of a zoom-end subscription, distinctive for debugging.
pub const ON_ZOOM_END_ID: u64 = 23670;

/// The fixed identifier of each kind of subscription.
pub open spec fn event_id_spec(kind: EventKind) -> u64 {
    match kind {
        EventKind::ZoomEnd => ON_ZOOM_END_ID,
        EventKind::MoveEnd => ON_MOVE_END_ID,
        EventKind::MouseClick => ON_MOUSE_CLICK_ID,
    }
}

pub fn event_id(kind: EventKind) -> (r: u64)
    ensures
        r == event_id_spec(kind),
{
    match kind {
        EventKind::ZoomEnd => ON_ZOOM_END_ID,
        EventKind::MoveEnd => ON_MOVE_END_ID,
        EventKind::MouseClick => ON_MOUSE_CLICK_ID,
    }
}

/// The path under which the subscription at `position` of a map's children
/// registers, below the map's own path `base`: the position, then the fixed
/// identifier of the event.
pub open spec fn subscription_path_spec(base: Seq<u64>, position: nat, kind: EventKind) -> Seq<
    u64,
> {
    base + seq![position as u64, event_id_spec(kind)]
}

pub open spec fn is_event_id(id: u64) -> bool {
    id == ON_ZOOM_END_ID || id == ON_MOVE_END_ID || id == ON_MOUSE_CLICK_ID
}

/// The position of the subscription that registered under `path`, read back
/// from the path below the map's own path `base`; `None` where `path` is no
/// subscription path below `base`.
pub open spec fn subscription_position_spec(base: Seq<u64>, path: Seq<u64>) -> Option<nat> {
    if path.len() == base.len() + 2 && path.take(base.len() as int) == base && is_event_id(
        path[base.len() + 1int],
    ) && path[base.len() as int] <= usize::MAX {
        Some(path[base.len() as int] as nat)
    } else {
        None
    }
}

/// The context handed to a map's children while they are built, rebuilt or torn
/// down: the current identifier path, and a shared handle `H` to the live map
/// that children attach to but never replace.
pub struct MapCtx<H> {
    path: Vec<u64>,
    map: H,
}

impl<H> MapCtx<H> {
    pub closed spec fn path_spec(&self) -> Seq<u64> {
        self.path@
    }

    pub closed spec fn map_spec(&self) -> H {
        self.map
    }

    pub fn new(map: H) -> (r: Self)
        ensures
            r.path_spec() == Seq::<u64>::empty(),
            r.map_spec() == map,
    {
        MapCtx { path: Vec::new(), map }
    }

    pub fn map(&self) -> (r: &H)
        ensures
            *r == self.map_spec(),
    {
        &self.map
    }

    /// Enters a child view with identifier `id`.
    pub fn push_id(&mut self, id: u64)
        ensures
            final(self).path_spec() == old(self).path_spec().push(id),
            final(self).map_spec() == old(self).map_spec(),
    {
        self.path.push(id);
    }

    /// Leaves the innermost view.
    pub fn pop_id(&mut self)
        requires
            old(self).path_spec().len() > 0,
        ensures
            final(self).path_spec() == old(self).path_spec().drop_last(),
            final(self).map_spec() == old(self).map_spec(),
    {
        self.path.pop();
    }

    pub fn view_path(&self) -> (r: &[u64])
        ensures
            r@ == self.path_spec(),
    {
        self.path.as_slice()
    }

    /// The path that the subscription to `kind` at `position` captures when it
    /// registers, so that what it fires can find its way back.
    pub fn subscription_path(&self, position: usize, kind: EventKind) -> (r: Vec<u64>)
        ensures
            r@ == subscription_path_spec(self.path_spec(), position as nat, kind),
    {
        let mut r = self.path.clone();
        r.push(position as u64);
        r.push(event_id(kind));
        r
    }

    /// The position of the child whose subscription captured `path`, so that
    /// a delivered message reaches the handler of that child.
    pub fn subscription_position(&self, path: &Vec<u64>) -> (r: Option<usize>)
        ensures
            match r {
                Some(i) => subscription_position_spec(self.path_spec(), path@) == Some(i as nat),
                None => subscription_position_spec(self.path_spec(), path@) is None,
            },
    {
        let n = self.path.len();
        if path.len() < 2 || path.len() - 2 != n {
            return None;
        }
        let mut i: usize = 0;
        while i < n
            invariant
                n == self.path@.len(),
                path@.len() == n + 2,
                0 <= i <= n,
                forall|j: int| 0 <= j < i ==> path@[j] == self.path@[j],
            decreases n - i,
        {
            if path[i] != self.path[i] {
                assert(path@.take(n as int)[i as int] != self.path@[i as int]);
                return None;
            }
            i = i + 1;
        }
        assert(path@.take(n as int) =~= self.path@);
        let id = path[n + 1];
        if id != ON_ZOOM_END_ID && id != ON_MOVE_END_ID && id != ON_MOUSE_CLICK_ID {
            return None;
        }
        let position = path[n];
        if position > usize::MAX as u64 {
            return None;
        }
        Some(position as usize)
    }
}

/// A subscription's position is read back from the path it registered under.
pub proof fn lemma_subscription_position_round_trip(base: Seq<u64>, i: nat, kind: EventKind)
    requires
        i <= usize::MAX,
    ensures
        subscription_position_spec(base, subscription_path_spec(base, i, kind)) == Some(i),
{
    let p = subscription_path_spec(base, i, kind);
    assert(p.take(base.len() as int) =~= base);
    assert(p[base.len() as int] == i as u64);
    assert(p[base.len() + 1int] == event_id_spec(kind));
}

/// Subscriptions at two different positions, or to two different events, never
/// share a path, whatever the path of the map above them.
pub proof fn lemma_subscription_paths_distinct(
    base: Seq<u64>,
    i: nat,
    a: EventKind,
    j: nat,
    b: EventKind,
)
    requires
        i <= u64::MAX,
        j <= u64::MAX,
        i != j || a != b,
    ensures
        subscription_path_spec(base, i, a) != subscription_path_spec(base, j, b),
{
    let p = subscription_path_spec(base, i, a);
    let q = subscription_path_spec(base, j, b);
    assert(p[base.len() as int] == i as u64);
    assert(q[base.len() as int] == j as u64);
    assert(p[base.len() + 1int] == event_id_spec(a));
    assert(q[base.len() + 1int] == event_id_spec(b));
}

} // verus!
