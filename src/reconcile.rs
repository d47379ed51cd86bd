//! Positional reconciliation of a map's children against the previous pass.
use vstd::prelude::*;

use crate::child::{
    descriptor_kind, element_kind, unchanged, updatable, Descriptor, MapChildElement,
};
use crate::num::is_nan_bits;
use crate::splice::MapChildrenSplice;

verus! {

/// One cursor step of a reconciliation pass.
#[derive(Clone, Copy, Debug, PartialEq, Eq, Structural)]
pub enum Edit {
    /// The child under the cursor stays as it is.
    Skip,
    /// The child under the cursor is updated in place.
    Update,
    /// A new child is created and placed at the cursor.
    Insert,
    /// The child under the cursor is torn down and dropped.
    Delete,
}

/// The edits for position `i`, given the descriptors of the previous pass and
/// of this one. Positions are matched by index, never by content.
pub open spec fn position_edits(prev: Seq<Descriptor>, next: Seq<Descriptor>, i: int) -> Seq<Edit> {
    if i < prev.len() && i < next.len() {
        if unchanged(prev[i], next[i]) {
            seq![Edit::Skip]
        } else if updatable(prev[i], next[i]) {
            seq![Edit::Update]
        } else {
            seq![Edit::Delete, Edit::Insert]
        }
    } else if i < next.len() {
        seq![Edit::Insert]
    } else {
        seq![Edit::Delete]
    }
}

/// The edits for the first `n` positions, left to right.
pub open spec fn edits_upto(prev: Seq<Descriptor>, next: Seq<Descriptor>, n: nat) -> Seq<Edit>
    decreases n,
{
    if n == 0 {
        Seq::empty()
    } else {
        edits_upto(prev, next, (n - 1) as nat) + position_edits(prev, next, n - 1)
    }
}

pub open spec fn max_len(prev: Seq<Descriptor>, next: Seq<Descriptor>) -> nat {
    if prev.len() >= next.len() {
        prev.len()
    } else {
        next.len()
    }
}

/// The whole edit script that brings children built for `prev` to `next`.
pub open spec fn edit_script(prev: Seq<Descriptor>, next: Seq<Descriptor>) -> Seq<Edit> {
    edits_upto(prev, next, max_len(prev, next))
}

/// What becomes of position `i` (below `next.len()`) in a pass: the old child
/// is kept, updated, or replaced by a new one.
pub open spec fn kept_at(prev: Seq<Descriptor>, next: Seq<Descriptor>, i: int) -> bool {
    i < prev.len() && unchanged(prev[i], next[i])
}

pub open spec fn updated_at(prev: Seq<Descriptor>, next: Seq<Descriptor>, i: int) -> bool {
    i < prev.len() && !unchanged(prev[i], next[i]) && updatable(prev[i], next[i])
}

pub open spec fn created_at(prev: Seq<Descriptor>, next: Seq<Descriptor>, i: int) -> bool {
    !kept_at(prev, next, i) && !updated_at(prev, next, i)
}

/// Position `i` of the previous pass loses its live object in a pass: it is
/// past the end of `next`, or its descriptor changed to one it cannot be
/// updated to.
pub open spec fn torn_down_at(prev: Seq<Descriptor>, next: Seq<Descriptor>, i: int) -> bool {
    0 <= i < prev.len() && (i >= next.len() || created_at(prev, next, i))
}

/// The children carry, position by position, the kinds that `descs` asks for.
pub open spec fn kinds_match<M, L, S>(
    children: Seq<MapChildElement<M, L, S>>,
    descs: Seq<Descriptor>,
) -> bool {
    &&& children.len() == descs.len()
    &&& forall|i: int|
        0 <= i < descs.len() ==> element_kind(#[trigger] children[i]) == descriptor_kind(descs[i])
}

/// The host's callbacks build elements of the kind that they are asked for.
pub open spec fn callbacks_keep_kinds<M, L, S, C, U>(create: C, update: U) -> bool where
    C: Fn(usize, &Descriptor) -> MapChildElement<M, L, S>,
    U: Fn(MapChildElement<M, L, S>, &Descriptor, &Descriptor) -> MapChildElement<M, L, S>,
 {
    &&& forall|i: usize, d: &Descriptor, e: MapChildElement<M, L, S>|
        #[trigger] create.ensures((i, d), e) ==> element_kind(e) == descriptor_kind(*d)
    &&& forall|
        e: MapChildElement<M, L, S>,
        p: &Descriptor,
        n: &Descriptor,
        r: MapChildElement<M, L, S>,
    | #[trigger] update.ensures((e, p, n), r) ==> element_kind(r) == descriptor_kind(*n)
}

proof fn lemma_edits_step(prev: Seq<Descriptor>, next: Seq<Descriptor>, n: nat)
    ensures
        edits_upto(prev, next, n + 1) == edits_upto(prev, next, n) + position_edits(
            prev,
            next,
            n as int,
        ),
{
}

/// Brings `children`, built for the descriptors `prev` of the previous pass, to
/// the descriptors `next` of this one, visiting each position once, left to
/// right. An unchanged position is skipped; a changed one is updated in place
/// through `update` where the kinds allow it, and otherwise torn down through
/// `teardown` and created anew through `create`; positions past the end of
/// `prev` are created, and positions past the end of `next` are torn down.
/// Returns the edit script that the pass followed.
pub fn reconcile<M, L, S, C, U, T>(
    children: &mut Vec<MapChildElement<M, L, S>>,
    prev: &Vec<Descriptor>,
    next: &Vec<Descriptor>,
    create: C,
    update: U,
    teardown: T,
) -> (edits: Vec<Edit>) where
    C: Fn(usize, &Descriptor) -> MapChildElement<M, L, S>,
    U: Fn(MapChildElement<M, L, S>, &Descriptor, &Descriptor) -> MapChildElement<M, L, S>,
    T: Fn(MapChildElement<M, L, S>, &Descriptor),

    requires
        old(children)@.len() == prev@.len(),
        forall|i: usize, d: &Descriptor| create.requires((i, d)),
        forall|e: MapChildElement<M, L, S>, p: &Descriptor, n: &Descriptor|
            update.requires((e, p, n)),
        forall|e: MapChildElement<M, L, S>, d: &Descriptor| teardown.requires((e, d)),
    ensures
        edits@ == edit_script(prev@, next@),
        final(children)@.len() == next@.len(),
        forall|i: int|
            0 <= i < next@.len() && kept_at(prev@, next@, i) ==> #[trigger] final(children)@[i]
                == old(children)@[i],
        forall|i: int|
            0 <= i < next@.len() && updated_at(prev@, next@, i) ==> update.ensures(
                (old(children)@[i], &prev@[i], &next@[i]),
                #[trigger] final(children)@[i],
            ),
        forall|i: int|
            0 <= i < next@.len() && created_at(prev@, next@, i) ==> create.ensures(
                (i as usize, &next@[i]),
                #[trigger] final(children)@[i],
            ),
        forall|i: int|
            #[trigger] torn_down_at(prev@, next@, i) ==> teardown.ensures(
                (old(children)@[i], &prev@[i]),
                (),
            ),
        kinds_match(old(children)@, prev@) && callbacks_keep_kinds(create, update) ==> kinds_match(
            final(children)@,
            next@,
        ),
{
    let ghost before = children@;
    let mut taken: Vec<MapChildElement<M, L, S>> = Vec::new();
    core::mem::swap(children, &mut taken);
    let mut splice = MapChildrenSplice::new(taken);
    let mut edits: Vec<Edit> = Vec::new();
    let common: usize = if prev.len() <= next.len() {
        prev.len()
    } else {
        next.len()
    };
    let mut i: usize = 0;
    while i < common
        invariant
            common <= prev@.len(),
            common <= next@.len(),
            common == prev@.len() || common == next@.len(),
            before.len() == prev@.len(),
            0 <= i <= common,
            splice.wf(),
            splice.cursor() == i,
            splice.elements().len() == before.len(),
            edits@ == edits_upto(prev@, next@, i as nat),
            forall|j: int| i <= j < before.len() ==> splice.elements()[j] == before[j],
            forall|j: int|
                0 <= j < i && kept_at(prev@, next@, j) ==> #[trigger] splice.elements()[j]
                    == before[j],
            forall|j: int|
                0 <= j < i && updated_at(prev@, next@, j) ==> update.ensures(
                    (before[j], &prev@[j], &next@[j]),
                    #[trigger] splice.elements()[j],
                ),
            forall|j: int|
                0 <= j < i && created_at(prev@, next@, j) ==> create.ensures(
                    (j as usize, &next@[j]),
                    #[trigger] splice.elements()[j],
                ),
            forall|j: int|
                0 <= j < i && #[trigger] torn_down_at(prev@, next@, j) ==> teardown.ensures(
                    (before[j], &prev@[j]),
                    (),
                ),
            forall|i: usize, d: &Descriptor| create.requires((i, d)),
            forall|e: MapChildElement<M, L, S>, p: &Descriptor, n: &Descriptor|
                update.requires((e, p, n)),
            forall|e: MapChildElement<M, L, S>, d: &Descriptor| teardown.requires((e, d)),
        decreases common - i,
    {
        proof {
            lemma_edits_step(prev@, next@, i as nat);
        }
        let p = &prev[i];
        let n = &next[i];
        if p.is_unchanged(n) {
            splice.skip(1);
            edits.push(Edit::Skip);
        } else if p.is_updatable(n) {
            let f = |e: MapChildElement<M, L, S>| -> (r: MapChildElement<M, L, S>)
                requires
                    update.requires((e, p, n)),
                ensures
                    update.ensures((e, p, n), r),
                { update(e, p, n) };
            splice.mutate(f);
            edits.push(Edit::Update);
        } else {
            let old_child = splice.delete();
            teardown(old_child, p);
            let fresh = create(i, n);
            splice.insert(fresh);
            edits.push(Edit::Delete);
            edits.push(Edit::Insert);
        }
        i = i + 1;
    }
    if prev.len() <= next.len() {
        while i < next.len()
            invariant
                common == prev@.len(),
                prev@.len() <= next@.len(),
                before.len() == prev@.len(),
                common <= i <= next@.len(),
                splice.wf(),
                splice.cursor() == i,
                splice.elements().len() == i,
                edits@ == edits_upto(prev@, next@, i as nat),
                forall|j: int|
                    0 <= j < i && kept_at(prev@, next@, j) ==> #[trigger] splice.elements()[j]
                        == before[j],
                forall|j: int|
                    0 <= j < i && updated_at(prev@, next@, j) ==> update.ensures(
                        (before[j], &prev@[j], &next@[j]),
                        #[trigger] splice.elements()[j],
                    ),
                forall|j: int|
                    0 <= j < i && created_at(prev@, next@, j) ==> create.ensures(
                        (j as usize, &next@[j]),
                        #[trigger] splice.elements()[j],
                    ),
                forall|j: int|
                    #[trigger] torn_down_at(prev@, next@, j) && j < i ==> teardown.ensures(
                        (before[j], &prev@[j]),
                        (),
                    ),
                forall|i: usize, d: &Descriptor| create.requires((i, d)),
            decreases next@.len() - i,
        {
            proof {
                lemma_edits_step(prev@, next@, i as nat);
            }
            let fresh = create(i, &next[i]);
            splice.insert(fresh);
            edits.push(Edit::Insert);
            i = i + 1;
        }
    } else {
        while i < prev.len()
            invariant
                common == next@.len(),
                next@.len() <= prev@.len(),
                before.len() == prev@.len(),
                common <= i <= prev@.len(),
                splice.wf(),
                splice.cursor() == common,
                splice.elements().len() == common + (prev@.len() - i),
                edits@ == edits_upto(prev@, next@, i as nat),
                splice.elements().skip(common as int) == before.skip(i as int),
                forall|j: int|
                    0 <= j < common && kept_at(prev@, next@, j) ==> #[trigger] splice.elements()[j]
                        == before[j],
                forall|j: int|
                    0 <= j < common && updated_at(prev@, next@, j) ==> update.ensures(
                        (before[j], &prev@[j], &next@[j]),
                        #[trigger] splice.elements()[j],
                    ),
                forall|j: int|
                    0 <= j < common && created_at(prev@, next@, j) ==> create.ensures(
                        (j as usize, &next@[j]),
                        #[trigger] splice.elements()[j],
                    ),
                forall|j: int|
                    0 <= j < i && #[trigger] torn_down_at(prev@, next@, j) ==> teardown.ensures(
                        (before[j], &prev@[j]),
                        (),
                    ),
                forall|e: MapChildElement<M, L, S>, d: &Descriptor| teardown.requires((e, d)),
            decreases prev@.len() - i,
        {
            proof {
                lemma_edits_step(prev@, next@, i as nat);
            }
            let ghost ahead = splice.elements();
            let old_child = splice.delete();
            assert(old_child == before[i as int]) by {
                assert(ahead.skip(common as int)[0] == before.skip(i as int)[0]);
            }
            assert(splice.elements().skip(common as int) =~= before.skip(i + 1 as int)) by {
                assert(ahead.skip(common as int) == before.skip(i as int));
                assert forall|j: int| 0 <= j < prev@.len() - i - 1 implies splice.elements().skip(common as int)[j] == before.skip(i + 1 as int)[j] by {
                    assert(ahead.skip(common as int)[j + 1] == before.skip(i as int)[j + 1]);
                }
            }
            teardown(old_child, &prev[i]);
            edits.push(Edit::Delete);
            i = i + 1;
        }
    }
    let mut result = splice.into_inner();
    core::mem::swap(children, &mut result);
    proof {
        if kinds_match(before, prev@) && callbacks_keep_kinds(create, update) {
            assert forall|j: int| 0 <= j < next@.len() implies element_kind(
                #[trigger] children@[j],
            ) == descriptor_kind(next@[j]) by {
                if kept_at(prev@, next@, j) {
                    assert(element_kind(before[j]) == descriptor_kind(prev@[j]));
                } else if updated_at(prev@, next@, j) {
                } else {
                }
            }
        }
    }
    edits
}

/// A descriptor that compares equal to itself: a marker with a NaN coordinate
/// does not, as no NaN equals anything.
pub open spec fn self_equal(d: Descriptor) -> bool {
    match d {
        Descriptor::Marker(m) => !is_nan_bits(m.lat.bits) && !is_nan_bits(m.lng.bits),
        _ => true,
    }
}

/// Reconciling with an unchanged descriptor sequence only skips: no child is
/// created, updated or torn down, so every live child is kept as it is.
pub proof fn lemma_unchanged_pass_only_skips(descs: Seq<Descriptor>)
    requires
        forall|i: int| 0 <= i < descs.len() ==> self_equal(#[trigger] descs[i]),
    ensures
        edit_script(descs, descs) == Seq::new(descs.len(), |_i: int| Edit::Skip),
        forall|i: int| 0 <= i < descs.len() ==> kept_at(descs, descs, i),
{
    lemma_unchanged_prefix_only_skips(descs, descs.len());
}

proof fn lemma_unchanged_prefix_only_skips(descs: Seq<Descriptor>, n: nat)
    requires
        n <= descs.len(),
        forall|i: int| 0 <= i < descs.len() ==> self_equal(#[trigger] descs[i]),
    ensures
        edits_upto(descs, descs, n) == Seq::new(n, |_i: int| Edit::Skip),
        forall|i: int| 0 <= i < n ==> kept_at(descs, descs, i),
    decreases n,
{
    if n > 0 {
        lemma_unchanged_prefix_only_skips(descs, (n - 1) as nat);
        assert(self_equal(descs[n - 1]));
        assert(edits_upto(descs, descs, n) =~= Seq::new(n, |_i: int| Edit::Skip));
    }
}

/// Tears down every child, left to right, and drops it: the pass that brings
/// children built for `prev` to no descriptors at all.
pub fn tear_down_all<M, L, S, T>(
    children: &mut Vec<MapChildElement<M, L, S>>,
    prev: &Vec<Descriptor>,
    teardown: T,
) -> (edits: Vec<Edit>) where T: Fn(MapChildElement<M, L, S>, &Descriptor)
    requires
        old(children)@.len() == prev@.len(),
        forall|e: MapChildElement<M, L, S>, d: &Descriptor| teardown.requires((e, d)),
    ensures
        edits@ == edit_script(prev@, Seq::empty()),
        final(children)@.len() == 0,
        forall|i: int|
            0 <= i < prev@.len() ==> teardown.ensures((#[trigger] old(children)@[i], &prev@[i]), ()),
{
    let ghost before = children@;
    let mut taken: Vec<MapChildElement<M, L, S>> = Vec::new();
    core::mem::swap(children, &mut taken);
    let mut splice = MapChildrenSplice::new(taken);
    let mut edits: Vec<Edit> = Vec::new();
    let mut i: usize = 0;
    while i < prev.len()
        invariant
            0 <= i <= prev@.len(),
            splice.wf(),
            splice.cursor() == 0,
            splice.elements().len() == prev@.len() - i,
            splice.elements() == before.skip(i as int),
            before.len() == prev@.len(),
            forall|j: int| 0 <= j < i ==> teardown.ensures((#[trigger] before[j], &prev@[j]), ()),
            edits@ == edits_upto(prev@, Seq::empty(), i as nat),
            forall|e: MapChildElement<M, L, S>, d: &Descriptor| teardown.requires((e, d)),
        decreases prev@.len() - i,
    {
        proof {
            lemma_edits_step(prev@, Seq::empty(), i as nat);
        }
        let old_child = splice.delete();
        assert(old_child == before[i as int]);
        assert(splice.elements() =~= before.skip(i + 1 as int));
        teardown(old_child, &prev[i]);
        edits.push(Edit::Delete);
        i = i + 1;
    }
    let mut result = splice.into_inner();
    core::mem::swap(children, &mut result);
    edits
}

} // verus!
