//! Subscriptions to viewport events, each carrying the host's handler.
use vstd::prelude::*;

use crate::child::{Descriptor, EventKind, MapChild};

verus! {

/// A subscription to the end of a zoom; `callback` is the host's handler.
pub struct OnZoomEnd<F> {
    callback: F,
}

/// Describes a subscription to the end of a zoom, handled by `callback`.
pub fn on_zoom_end<F>(callback: F) -> (r: OnZoomEnd<F>)
    ensures
        r.callback_spec() == callback,
{
    OnZoomEnd { callback }
}

impl<F> OnZoomEnd<F> {
    pub closed spec fn callback_spec(&self) -> F {
        self.callback
    }

    pub fn callback(&self) -> (r: &F)
        ensures
            *r == self.callback_spec(),
    {
        &self.callback
    }
}

impl<F> MapChild for OnZoomEnd<F> {
    open spec fn descriptor_spec(&self) -> Descriptor {
        Descriptor::Event(EventKind::ZoomEnd)
    }

    fn descriptor(&self) -> (r: Descriptor) {
        Descriptor::Event(EventKind::ZoomEnd)
    }
}

/// A subscription to the end of a move; `callback` is the host's handler.
pub struct OnMoveEnd<F> {
    callback: F,
}

/// Describes a subscription to the end of a move, handled by `callback`.
pub fn on_move_end<F>(callback: F) -> (r: OnMoveEnd<F>)
    ensures
        r.callback_spec() == callback,
{
    OnMoveEnd { callback }
}

impl<F> OnMoveEnd<F> {
    pub closed spec fn callback_spec(&self) -> F {
        self.callback
    }

    pub fn callback(&self) -> (r: &F)
        ensures
            *r == self.callback_spec(),
    {
        &self.callback
    }
}

impl<F> MapChild for OnMoveEnd<F> {
    open spec fn descriptor_spec(&self) -> Descriptor {
        Descriptor::Event(EventKind::MoveEnd)
    }

    fn descriptor(&self) -> (r: Descriptor) {
        Descriptor::Event(EventKind::MoveEnd)
    }
}

/// A subscription to mouse clicks on the map; `callback` is the host's handler.
pub struct OnMouseClick<F> {
    callback: F,
}

/// Describes a subscription to mouse clicks, handled by `callback`.
pub fn on_mouse_click<F>(callback: F) -> (r: OnMouseClick<F>)
    ensures
        r.callback_spec() == callback,
{
    OnMouseClick { callback }
}

impl<F> OnMouseClick<F> {
    pub closed spec fn callback_spec(&self) -> F {
        self.callback
    }

    pub fn callback(&self) -> (r: &F)
        ensures
            *r == self.callback_spec(),
    {
        &self.callback
    }
}

impl<F> MapChild for OnMouseClick<F> {
    open spec fn descriptor_spec(&self) -> Descriptor {
        Descriptor::Event(EventKind::MouseClick)
    }

    fn descriptor(&self) -> (r: Descriptor) {
        Descriptor::Event(EventKind::MouseClick)
    }
}

} // verus!
