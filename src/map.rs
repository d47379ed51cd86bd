//! The root container: the declarative map value of one render pass, and the
//! lifecycle state that turns successive values into viewport commands and
//! child edits, with initialization deferred until the host element is mounted.
use vstd::prelude::*;

use crate::child::{Descriptor, EventKind, MapChildElement};
use crate::num::{is_nan_bits, num_eq, opt_num_eq, same_opt_value, Num};
use crate::reconcile::{
    callbacks_keep_kinds, created_at, edit_script, kept_at, kinds_match, lemma_unchanged_pass_only_skips, reconcile, self_equal, tear_down_all, torn_down_at, updated_at,
    Edit,
};

verus! {

/// The map that one render pass asks for: an optional zoom level, an optional
/// center, and the ordered overlay children.
pub struct MapView {
    zoom: Option<Num>,
    center: Option<(Num, Num)>,
    children: Vec<Descriptor>,
}

/// Describes a map with `children` and no zoom or center of its own.
pub fn map(children: Vec<Descriptor>) -> (r: MapView)
    ensures
        r.zoom_spec() == None::<Num>,
        r.center_spec() == None::<(Num, Num)>,
        r.children_spec() == children@,
{
    MapView { zoom: None, center: None, children }
}

impl MapView {
    pub closed spec fn zoom_spec(&self) -> Option<Num> {
        self.zoom
    }

    pub closed spec fn center_spec(&self) -> Option<(Num, Num)> {
        self.center
    }

    pub closed spec fn children_spec(&self) -> Seq<Descriptor> {
        self.children@
    }

    pub fn zoom(self, value: Num) -> (r: Self)
        ensures
            r.zoom_spec() == Some(value),
            r.center_spec() == self.center_spec(),
            r.children_spec() == self.children_spec(),
    {
        MapView { zoom: Some(value), ..self }
    }

    pub fn center(self, lat: Num, lng: Num) -> (r: Self)
        ensures
            r.zoom_spec() == self.zoom_spec(),
            r.center_spec() == Some((lat, lng)),
            r.children_spec() == self.children_spec(),
    {
        MapView { center: Some((lat, lng)), ..self }
    }

    fn subscribe(self, kind: EventKind) -> (r: Self)
        ensures
            r.zoom_spec() == self.zoom_spec(),
            r.center_spec() == self.center_spec(),
            r.children_spec() == self.children_spec().push(Descriptor::Event(kind)),
    {
        let mut children = self.children;
        children.push(Descriptor::Event(kind));
        MapView { zoom: self.zoom, center: self.center, children }
    }

    /// Adds, behind the other children, a subscription to the end of a zoom.
    pub fn on_zoom_end(self) -> (r: Self)
        ensures
            r.zoom_spec() == self.zoom_spec(),
            r.center_spec() == self.center_spec(),
            r.children_spec() == self.children_spec().push(Descriptor::Event(EventKind::ZoomEnd)),
    {
        self.subscribe(EventKind::ZoomEnd)
    }

    /// Adds, behind the other children, a subscription to the end of a move.
    pub fn on_move_end(self) -> (r: Self)
        ensures
            r.zoom_spec() == self.zoom_spec(),
            r.center_spec() == self.center_spec(),
            r.children_spec() == self.children_spec().push(Descriptor::Event(EventKind::MoveEnd)),
    {
        self.subscribe(EventKind::MoveEnd)
    }

    /// Adds, behind the other children, a subscription to mouse clicks.
    pub fn on_mouse_click(self) -> (r: Self)
        ensures
            r.zoom_spec() == self.zoom_spec(),
            r.center_spec() == self.center_spec(),
            r.children_spec() == self.children_spec().push(
                Descriptor::Event(EventKind::MouseClick),
            ),
    {
        self.subscribe(EventKind::MouseClick)
    }

    pub fn zoom_level(&self) -> (r: Option<Num>)
        ensures
            r == self.zoom_spec(),
    {
        self.zoom
    }

    pub fn center_point(&self) -> (r: Option<(Num, Num)>)
        ensures
            r == self.center_spec(),
    {
        self.center
    }

    pub fn children(&self) -> (r: &Vec<Descriptor>)
        ensures
            r@ == self.children_spec(),
    {
        &self.children
    }
}

impl Clone for MapView {
    fn clone(&self) -> (r: Self)
        ensures
            r.zoom_spec() == self.zoom_spec(),
            r.center_spec() == self.center_spec(),
            r.children_spec() == self.children_spec(),
    {
        let children = self.children.clone();
        assert(children@ =~= self.children@);
        MapView { zoom: self.zoom, center: self.center, children }
    }
}

/// The call that brings the live map's viewport to a configuration.
#[derive(Clone, Copy, Debug)]
pub enum ViewportCommand {
    /// Set the zoom level alone.
    SetZoom { zoom: Num },
    /// Set the center and the zoom level together.
    SetView { lat: Num, lng: Num, zoom: Num },
}

/// A zoom alone sets the zoom; a zoom with a center sets both at once; without
/// a zoom there is nothing the viewport API could be asked to do.
pub open spec fn viewport_command(zoom: Option<Num>, center: Option<(Num, Num)>) -> Option<
    ViewportCommand,
> {
    match (zoom, center) {
        (Some(z), None) => Some(ViewportCommand::SetZoom { zoom: z }),
        (Some(z), Some((lat, lng))) => Some(ViewportCommand::SetView { lat, lng, zoom: z }),
        _ => None,
    }
}

/// Chooses the viewport call for a zoom and a center.
pub fn apply_zoom_and_center(zoom: Option<Num>, center: Option<(Num, Num)>) -> (r: Option<
    ViewportCommand,
>)
    ensures
        r == viewport_command(zoom, center),
{
    match (zoom, center) {
        (Some(z), None) => Some(ViewportCommand::SetZoom { zoom: z }),
        (Some(z), Some((lat, lng))) => Some(ViewportCommand::SetView { lat, lng, zoom: z }),
        _ => None,
    }
}

pub open spec fn opt_point_eq(a: Option<(Num, Num)>, b: Option<(Num, Num)>) -> bool {
    match (a, b) {
        (None, None) => true,
        (Some((a0, a1)), Some((b0, b1))) => num_eq(a0, b0) && num_eq(a1, b1),
        _ => false,
    }
}

/// The zoom or the center differs between two passes, compared as numbers.
pub open spec fn viewport_changed(prev: MapView, next: MapView) -> bool {
    !opt_num_eq(prev.zoom_spec(), next.zoom_spec()) || !opt_point_eq(
        prev.center_spec(),
        next.center_spec(),
    )
}

/// A later pass with the same zoom and center, none of them NaN, makes no
/// viewport call.
pub proof fn lemma_same_viewport_not_reapplied(prev: MapView, next: MapView)
    requires
        prev.zoom_spec() == next.zoom_spec(),
        prev.center_spec() == next.center_spec(),
        prev.zoom_spec() matches Some(z) ==> !is_nan_bits(z.bits),
        prev.center_spec() matches Some((lat, lng)) ==> !is_nan_bits(lat.bits) && !is_nan_bits(
            lng.bits,
        ),
    ensures
        !viewport_changed(prev, next),
{
}

/// A render pass that hands a live map the same value again, with no NaN
/// coordinate, zoom or center in it, makes no viewport call and only skips:
/// no child is created, updated or torn down.
pub proof fn lemma_unchanged_map_pass_is_idle(view: MapView)
    requires
        view.zoom_spec() matches Some(z) ==> !is_nan_bits(z.bits),
        view.center_spec() matches Some((lat, lng)) ==> !is_nan_bits(lat.bits) && !is_nan_bits(
            lng.bits,
        ),
        forall|i: int|
            0 <= i < view.children_spec().len() ==> self_equal(#[trigger] view.children_spec()[i]),
    ensures
        !viewport_changed(view, view),
        edit_script(view.children_spec(), view.children_spec()) == Seq::new(
            view.children_spec().len(),
            |_i: int| Edit::Skip,
        ),
        forall|i: int|
            0 <= i < view.children_spec().len() ==> kept_at(
                view.children_spec(),
                view.children_spec(),
                i,
            ),
{
    lemma_same_viewport_not_reapplied(view, view);
    lemma_unchanged_pass_only_skips(view.children_spec());
}

fn same_point(a: Option<(Num, Num)>, b: Option<(Num, Num)>) -> (r: bool)
    ensures
        r == opt_point_eq(a, b),
{
    match (a, b) {
        (None, None) => true,
        (Some((a0, a1)), Some((b0, b1))) => a0.same_value(b0) && a1.same_value(b1),
        _ => false,
    }
}

/// The message a map sends itself to run its deferred initialization once its
/// host element is mounted.
#[derive(Clone, Copy, Debug, PartialEq, Eq, Structural)]
pub enum MapMessage {
    InitMap,
}

/// Where a map stands in its lifecycle. A built map waits for its host element
/// to be mounted before the live map may be touched.
#[derive(Clone, Copy, Debug, PartialEq, Eq, Structural)]
pub enum Phase {
    DeferredInit,
    Live,
    TornDown,
}

/// What one step of the lifecycle asks of the live map: at most one viewport
/// call, and the child edits already made through the host's callbacks.
pub struct Pass {
    pub viewport: Option<ViewportCommand>,
    pub edits: Vec<Edit>,
}

/// The persistent state of a map between render passes: its phase, the handle
/// `R` to the live root map it alone releases, the last map value it was given,
/// and the live children it holds for that value.
pub struct MapViewState<R, M, L, S> {
    phase: Phase,
    root: Option<R>,
    shown: MapView,
    children: Vec<MapChildElement<M, L, S>>,
}

impl<R, M, L, S> MapViewState<R, M, L, S> {
    pub closed spec fn phase_spec(&self) -> Phase {
        self.phase
    }

    pub closed spec fn root_spec(&self) -> Option<R> {
        self.root
    }

    pub closed spec fn shown_spec(&self) -> MapView {
        self.shown
    }

    pub closed spec fn children_spec(&self) -> Seq<MapChildElement<M, L, S>> {
        self.children@
    }

    /// Live children stand one for one with the shown descriptors; before the
    /// mount and after teardown there are none. The root map is held until
    /// teardown.
    pub open spec fn wf(&self) -> bool {
        &&& if self.phase_spec() == Phase::Live {
            self.children_spec().len() == self.shown_spec().children_spec().len()
        } else {
            self.children_spec().len() == 0
        }
        &&& (self.root_spec() is Some <==> self.phase_spec() != Phase::TornDown)
    }

    /// The live root map, until teardown releases it.
    pub fn root(&self) -> (r: Option<&R>)
        ensures
            r == match self.root_spec() {
                Some(m) => Some(&m),
                None => None::<&R>,
            },
    {
        match &self.root {
            Some(m) => Some(m),
            None => None,
        }
    }

    pub fn phase(&self) -> (r: Phase)
        ensures
            r == self.phase_spec(),
    {
        self.phase
    }

    pub fn shown(&self) -> (r: &MapView)
        ensures
            *r == self.shown_spec(),
    {
        &self.shown
    }

    pub fn children(&self) -> (r: &Vec<MapChildElement<M, L, S>>)
        ensures
            r@ == self.children_spec(),
    {
        &self.children
    }

    /// Builds the state for a first pass. It takes no callbacks: nothing is
    /// created and no viewport call is made until the host reports the element
    /// mounted.
    pub fn build(view: &MapView, root: R) -> (r: Self)
        ensures
            r.wf(),
            r.root_spec() == Some(root),
            r.phase_spec() == Phase::DeferredInit,
            r.children_spec().len() == 0,
            r.shown_spec().zoom_spec() == view.zoom_spec(),
            r.shown_spec().center_spec() == view.center_spec(),
            r.shown_spec().children_spec() == view.children_spec(),
    {
        MapViewState {
            phase: Phase::DeferredInit,
            root: Some(root),
            shown: view.clone(),
            children: Vec::new(),
        }
    }

    /// The deferred initialization, run once the host element is mounted: the
    /// viewport is set to the shown configuration and every child is created.
    pub fn mount<C, U, T>(&mut self, create: C, update: U, teardown: T) -> (r: Pass) where
        C: Fn(usize, &Descriptor) -> MapChildElement<M, L, S>,
        U: Fn(MapChildElement<M, L, S>, &Descriptor, &Descriptor) -> MapChildElement<M, L, S>,
        T: Fn(MapChildElement<M, L, S>, &Descriptor),

        requires
            old(self).wf(),
            old(self).phase_spec() == Phase::DeferredInit,
            forall|i: usize, d: &Descriptor| create.requires((i, d)),
            forall|e: MapChildElement<M, L, S>, p: &Descriptor, n: &Descriptor|
                update.requires((e, p, n)),
            forall|e: MapChildElement<M, L, S>, d: &Descriptor| teardown.requires((e, d)),
        ensures
            final(self).wf(),
            final(self).phase_spec() == Phase::Live,
            final(self).root_spec() == old(self).root_spec(),
            final(self).shown_spec() == old(self).shown_spec(),
            r.viewport == viewport_command(
                old(self).shown_spec().zoom_spec(),
                old(self).shown_spec().center_spec(),
            ),
            r.edits@ == edit_script(Seq::empty(), old(self).shown_spec().children_spec()),
            forall|i: int|
                0 <= i < final(self).children_spec().len() ==> create.ensures(
                    (i as usize, &old(self).shown_spec().children_spec()[i]),
                    #[trigger] final(self).children_spec()[i],
                ),
            callbacks_keep_kinds(create, update) ==> kinds_match(
                final(self).children_spec(),
                old(self).shown_spec().children_spec(),
            ),
    {
        let viewport = apply_zoom_and_center(self.shown.zoom, self.shown.center);
        let nothing: Vec<Descriptor> = Vec::new();
        let edits = reconcile(
            &mut self.children,
            &nothing,
            &self.shown.children,
            create,
            update,
            teardown,
        );
        self.phase = Phase::Live;
        Pass { viewport, edits }
    }

    /// A later render pass with the map value `next`. Before the mount it only
    /// records `next`, to be applied when the mount comes. Once live, the
    /// viewport call is made only if the zoom or the center changed, and the
    /// children are reconciled against the previous pass.
    pub fn rebuild<C, U, T>(&mut self, next: &MapView, create: C, update: U, teardown: T) -> (r:
        Pass) where
        C: Fn(usize, &Descriptor) -> MapChildElement<M, L, S>,
        U: Fn(MapChildElement<M, L, S>, &Descriptor, &Descriptor) -> MapChildElement<M, L, S>,
        T: Fn(MapChildElement<M, L, S>, &Descriptor),

        requires
            old(self).wf(),
            old(self).phase_spec() != Phase::TornDown,
            forall|i: usize, d: &Descriptor| create.requires((i, d)),
            forall|e: MapChildElement<M, L, S>, p: &Descriptor, n: &Descriptor|
                update.requires((e, p, n)),
            forall|e: MapChildElement<M, L, S>, d: &Descriptor| teardown.requires((e, d)),
        ensures
            final(self).wf(),
            final(self).phase_spec() == old(self).phase_spec(),
            final(self).root_spec() == old(self).root_spec(),
            final(self).shown_spec().zoom_spec() == next.zoom_spec(),
            final(self).shown_spec().center_spec() == next.center_spec(),
            final(self).shown_spec().children_spec() == next.children_spec(),
            old(self).phase_spec() == Phase::DeferredInit ==> {
                &&& r.viewport is None
                &&& r.edits@.len() == 0
                &&& final(self).children_spec().len() == 0
            },
            old(self).phase_spec() == Phase::Live ==> {
                &&& r.viewport == (if viewport_changed(old(self).shown_spec(), *next) {
                    viewport_command(next.zoom_spec(), next.center_spec())
                } else {
                    None
                })
                &&& r.edits@ == edit_script(
                    old(self).shown_spec().children_spec(),
                    next.children_spec(),
                )
            },
            old(self).phase_spec() == Phase::Live ==> forall|i: int|
                0 <= i < next.children_spec().len() && kept_at(
                    old(self).shown_spec().children_spec(),
                    next.children_spec(),
                    i,
                ) ==> #[trigger] final(self).children_spec()[i] == old(self).children_spec()[i],
            old(self).phase_spec() == Phase::Live ==> forall|i: int|
                0 <= i < next.children_spec().len() && updated_at(
                    old(self).shown_spec().children_spec(),
                    next.children_spec(),
                    i,
                ) ==> update.ensures(
                    (
                        old(self).children_spec()[i],
                        &old(self).shown_spec().children_spec()[i],
                        &next.children_spec()[i],
                    ),
                    #[trigger] final(self).children_spec()[i],
                ),
            old(self).phase_spec() == Phase::Live ==> forall|i: int|
                0 <= i < next.children_spec().len() && created_at(
                    old(self).shown_spec().children_spec(),
                    next.children_spec(),
                    i,
                ) ==> create.ensures(
                    (i as usize, &next.children_spec()[i]),
                    #[trigger] final(self).children_spec()[i],
                ),
            old(self).phase_spec() == Phase::Live ==> forall|i: int|
                #[trigger] torn_down_at(
                    old(self).shown_spec().children_spec(),
                    next.children_spec(),
                    i,
                ) ==> teardown.ensures(
                    (old(self).children_spec()[i], &old(self).shown_spec().children_spec()[i]),
                    (),
                ),
            old(self).phase_spec() == Phase::Live && kinds_match(
                old(self).children_spec(),
                old(self).shown_spec().children_spec(),
            ) && callbacks_keep_kinds(create, update) ==> kinds_match(
                final(self).children_spec(),
                next.children_spec(),
            ),
    {
        let shown = next.clone();
        match self.phase {
            Phase::Live => {
                let changed = !same_opt_value(self.shown.zoom, next.zoom) || !same_point(
                    self.shown.center,
                    next.center,
                );
                let viewport = if changed {
                    apply_zoom_and_center(next.zoom, next.center)
                } else {
                    None
                };
                let edits = reconcile(
                    &mut self.children,
                    &self.shown.children,
                    &next.children,
                    create,
                    update,
                    teardown,
                );
                self.shown = shown;
                Pass { viewport, edits }
            },
            _ => {
                self.shown = shown;
                Pass { viewport: None, edits: Vec::new() }
            },
        }
    }

    /// Tears the map down: every live child is torn down, left to right, before
    /// the state lets go of it; then the root map is handed to `release`.
    /// Returns the child edits made.
    pub fn teardown<T, F>(&mut self, teardown: T, release: F) -> (r: Vec<Edit>) where
        T: Fn(MapChildElement<M, L, S>, &Descriptor),
        F: FnOnce(R),

        requires
            old(self).wf(),
            forall|e: MapChildElement<M, L, S>, d: &Descriptor| teardown.requires((e, d)),
            forall|root: R| release.requires((root,)),
        ensures
            final(self).wf(),
            final(self).phase_spec() == Phase::TornDown,
            final(self).children_spec().len() == 0,
            final(self).root_spec() is None,
            old(self).phase_spec() == Phase::Live ==> r@ == edit_script(
                old(self).shown_spec().children_spec(),
                Seq::empty(),
            ),
            old(self).phase_spec() == Phase::Live ==> forall|i: int|
                0 <= i < old(self).children_spec().len() ==> teardown.ensures(
                    (
                        #[trigger] old(self).children_spec()[i],
                        &old(self).shown_spec().children_spec()[i],
                    ),
                    (),
                ),
            old(self).phase_spec() != Phase::Live ==> r@.len() == 0,
            old(self).root_spec() matches Some(root) ==> release.ensures((root,), ()),
    {
        let edits = match self.phase {
            Phase::Live => tear_down_all(&mut self.children, &self.shown.children, teardown),
            _ => Vec::new(),
        };
        self.phase = Phase::TornDown;
        let mut root: Option<R> = None;
        core::mem::swap(&mut self.root, &mut root);
        match root {
            Some(map) => release(map),
            None => {},
        }
        edits
    }
}

} // verus!
