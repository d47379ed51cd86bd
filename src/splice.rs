//! The cursor through which the reconciler edits a stored child sequence.
use vstd::prelude::*;

verus! {

/// A cursor over a list of live children. Every operation acts at the cursor:
/// `insert` and `mutate` advance it past the element they leave, `skip` passes
/// elements untouched, and `delete` removes the element under it, so that the
/// ones behind it shift down and the cursor stays.
pub struct MapChildrenSplice<E> {
    idx: usize,
    children: Vec<E>,
}

impl<E> MapChildrenSplice<E> {
    pub closed spec fn cursor(&self) -> nat {
        self.idx as nat
    }

    pub closed spec fn elements(&self) -> Seq<E> {
        self.children@
    }

    pub closed spec fn wf(&self) -> bool {
        self.idx <= self.children@.len()
    }

    pub fn new(children: Vec<E>) -> (r: Self)
        ensures
            r.wf(),
            r.cursor() == 0,
            r.elements() == children@,
    {
        MapChildrenSplice { idx: 0, children }
    }

    pub fn cursor_position(&self) -> (r: usize)
        ensures
            r == self.cursor(),
    {
        self.idx
    }

    pub fn len(&self) -> (r: usize)
        ensures
            r == self.elements().len(),
    {
        self.children.len()
    }

    /// Places `element` at the cursor and moves past it.
    pub fn insert(&mut self, element: E)
        requires
            old(self).wf(),
        ensures
            final(self).wf(),
            final(self).elements() == old(self).elements().insert(old(self).cursor() as int, element),
            final(self).cursor() == old(self).cursor() + 1,
    {
        self.children.insert(self.idx, element);
        // The new length is a `usize`, which bounds the advanced cursor.
        let _ = self.children.len();
        self.idx = self.idx + 1;
    }

    /// Places all of `scratch` at the cursor, in order, with one shift of the
    /// elements behind it, and moves past them.
    pub fn insert_all(&mut self, scratch: Vec<E>)
        requires
            old(self).wf(),
        ensures
            final(self).wf(),
            final(self).elements() == old(self).elements().take(old(self).cursor() as int)
                + scratch@ + old(self).elements().skip(old(self).cursor() as int),
            final(self).cursor() == old(self).cursor() + scratch@.len(),
    {
        let mut scratch = scratch;
        let ghost added = scratch@;
        let mut tail = self.children.split_off(self.idx);
        let n = scratch.len();
        self.children.append(&mut scratch);
        self.children.append(&mut tail);
        let _ = self.children.len();
        self.idx = self.idx + n;
        assert(self.children@ =~= old(self).elements().take(old(self).cursor() as int) + added
            + old(self).elements().skip(old(self).cursor() as int));
    }

    /// Moves past `n` elements without touching them.
    pub fn skip(&mut self, n: usize)
        requires
            old(self).wf(),
            old(self).cursor() + n <= old(self).elements().len(),
        ensures
            final(self).wf(),
            final(self).elements() == old(self).elements(),
            final(self).cursor() == old(self).cursor() + n,
    {
        let _ = self.children.len();
        self.idx = self.idx + n;
    }

    /// Replaces the element at the cursor by what `f` makes of it, and moves past it.
    pub fn mutate<F: FnOnce(E) -> E>(&mut self, f: F)
        requires
            old(self).wf(),
            old(self).cursor() < old(self).elements().len(),
            f.requires((old(self).elements()[old(self).cursor() as int],)),
        ensures
            final(self).wf(),
            final(self).elements().len() == old(self).elements().len(),
            final(self).cursor() == old(self).cursor() + 1,
            f.ensures(
                (old(self).elements()[old(self).cursor() as int],),
                final(self).elements()[old(self).cursor() as int],
            ),
            forall|j: int|
                0 <= j < old(self).elements().len() && j != old(self).cursor()
                    ==> final(self).elements()[j] == old(self).elements()[j],
    {
        let element = self.children.remove(self.idx);
        let changed = f(element);
        self.children.insert(self.idx, changed);
        let _ = self.children.len();
        self.idx = self.idx + 1;
    }

    /// Removes the element at the cursor and hands it back, for its teardown.
    /// The cursor stays.
    pub fn delete(&mut self) -> (r: E)
        requires
            old(self).wf(),
            old(self).cursor() < old(self).elements().len(),
        ensures
            final(self).wf(),
            r == old(self).elements()[old(self).cursor() as int],
            final(self).elements() == old(self).elements().remove(old(self).cursor() as int),
            final(self).cursor() == old(self).cursor(),
    {
        self.children.remove(self.idx)
    }

    pub fn into_inner(self) -> (r: Vec<E>)
        ensures
            r@ == self.elements(),
    {
        self.children
    }
}

} // verus!
