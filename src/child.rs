//! Overlay descriptors, the per-pass values that say which child a map should
//! have, and the live elements that stand for them between passes.
use vstd::prelude::*;

use crate::num::{num_eq, Num};

verus! {

/// A raster tile layer, drawn from a URL template such as
/// `https://{s}.tile.example.org/{z}/{x}/{y}.png`.
pub struct TileLayer {
    url_template: String,
}

/// Describes a tile layer drawn from `url_template`.
pub fn tile_layer(url_template: &str) -> (r: TileLayer)
    ensures
        r.url_spec() == url_template@,
{
    TileLayer { url_template: url_template.to_owned() }
}

impl TileLayer {
    pub closed spec fn url_spec(&self) -> Seq<char> {
        self.url_template@
    }

    pub fn url_template(&self) -> (r: &str)
        ensures
            r@ == self.url_spec(),
    {
        self.url_template.as_str()
    }
}

impl Clone for TileLayer {
    fn clone(&self) -> (r: Self)
        ensures
            r == *self,
    {
        TileLayer { url_template: self.url_template.clone() }
    }
}

/// A marker pinned at a latitude and a longitude.
#[derive(Clone, Copy, Debug)]
pub struct Marker {
    pub lat: Num,
    pub lng: Num,
}

/// Describes a marker at (`lat`, `lng`).
pub fn marker(lat: Num, lng: Num) -> (r: Marker)
    ensures
        r.lat == lat,
        r.lng == lng,
{
    Marker { lat, lng }
}

/// The viewport events a map can be subscribed to.
#[derive(Clone, Copy, Debug, PartialEq, Eq, Structural)]
pub enum EventKind {
    ZoomEnd,
    MoveEnd,
    MouseClick,
}

/// One desired child of a map, for one render pass.
pub enum Descriptor {
    TileLayer(TileLayer),
    Marker(Marker),
    /// A subscription to a viewport event. It holds no content: whatever
    /// the handler does is the host's business.
    Event(EventKind),
}

impl Clone for Descriptor {
    fn clone(&self) -> (r: Self)
        ensures
            r == *self,
    {
        match self {
            Descriptor::TileLayer(t) => Descriptor::TileLayer(t.clone()),
            Descriptor::Marker(m) => Descriptor::Marker(*m),
            Descriptor::Event(k) => Descriptor::Event(*k),
        }
    }
}

/// What a child is, without its content.
#[derive(Clone, Copy, Debug, PartialEq, Eq, Structural)]
pub enum ChildKind {
    TileLayer,
    Marker,
    Event,
}

pub open spec fn descriptor_kind(d: Descriptor) -> ChildKind {
    match d {
        Descriptor::TileLayer(_) => ChildKind::TileLayer,
        Descriptor::Marker(_) => ChildKind::Marker,
        Descriptor::Event(_) => ChildKind::Event,
    }
}

/// Two descriptors at one position ask for the same live object: nothing has to
/// be done to it. Markers compare their coordinates as numbers, so a marker with
/// a NaN coordinate never counts as unchanged.
pub open spec fn unchanged(prev: Descriptor, next: Descriptor) -> bool {
    match (prev, next) {
        (Descriptor::TileLayer(a), Descriptor::TileLayer(b)) => a.url_spec() == b.url_spec(),
        (Descriptor::Marker(a), Descriptor::Marker(b)) => num_eq(a.lat, b.lat) && num_eq(
            a.lng,
            b.lng,
        ),
        (Descriptor::Event(a), Descriptor::Event(b)) => a == b,
        _ => false,
    }
}

/// The live object for `prev` can be brought to `next` in place: both are tile
/// layers or both are markers. Two subscriptions of different events are not:
/// a listener cannot be moved from one event to another.
pub open spec fn updatable(prev: Descriptor, next: Descriptor) -> bool {
    match (prev, next) {
        (Descriptor::TileLayer(_), Descriptor::TileLayer(_)) => true,
        (Descriptor::Marker(_), Descriptor::Marker(_)) => true,
        _ => false,
    }
}

impl Descriptor {
    pub fn kind(&self) -> (r: ChildKind)
        ensures
            r == descriptor_kind(*self),
    {
        match self {
            Descriptor::TileLayer(_) => ChildKind::TileLayer,
            Descriptor::Marker(_) => ChildKind::Marker,
            Descriptor::Event(_) => ChildKind::Event,
        }
    }

    /// Whether `next`, standing where `self` stood in the previous pass, leaves
    /// the live object as it is.
    pub fn is_unchanged(&self, next: &Descriptor) -> (r: bool)
        ensures
            r == unchanged(*self, *next),
    {
        match (self, next) {
            (Descriptor::TileLayer(a), Descriptor::TileLayer(b)) => a.url_template == b.url_template,
            (Descriptor::Marker(a), Descriptor::Marker(b)) => a.lat.same_value(b.lat)
                && a.lng.same_value(b.lng),
            (Descriptor::Event(a), Descriptor::Event(b)) => *a == *b,
            _ => false,
        }
    }

    /// Whether the live object for `self` can be updated in place to `next`.
    pub fn is_updatable(&self, next: &Descriptor) -> (r: bool)
        ensures
            r == updatable(*self, *next),
    {
        match (self, next) {
            (Descriptor::TileLayer(_), Descriptor::TileLayer(_)) => true,
            (Descriptor::Marker(_), Descriptor::Marker(_)) => true,
            _ => false,
        }
    }
}

impl From<TileLayer> for Descriptor {
    fn from(t: TileLayer) -> (r: Descriptor)
        ensures
            r == Descriptor::TileLayer(t),
    {
        Descriptor::TileLayer(t)
    }
}

impl vstd::std_specs::convert::FromSpecImpl<TileLayer> for Descriptor {
    open spec fn obeys_from_spec() -> bool {
        true
    }

    open spec fn from_spec(t: TileLayer) -> Descriptor {
        Descriptor::TileLayer(t)
    }
}

impl From<Marker> for Descriptor {
    fn from(m: Marker) -> (r: Descriptor)
        ensures
            r == Descriptor::Marker(m),
    {
        Descriptor::Marker(m)
    }
}

impl vstd::std_specs::convert::FromSpecImpl<Marker> for Descriptor {
    open spec fn obeys_from_spec() -> bool {
        true
    }

    open spec fn from_spec(m: Marker) -> Descriptor {
        Descriptor::Marker(m)
    }
}

/// The live element that stands at one position of a map's children: a handle
/// `M` to a live marker, `L` to a live tile layer, or `S` to a registered event
/// listener.
#[derive(Debug)]
pub enum MapChildElement<M, L, S> {
    Marker(M),
    TileLayer(L),
    Event(S),
}

pub open spec fn element_kind<M, L, S>(e: MapChildElement<M, L, S>) -> ChildKind {
    match e {
        MapChildElement::Marker(_) => ChildKind::Marker,
        MapChildElement::TileLayer(_) => ChildKind::TileLayer,
        MapChildElement::Event(_) => ChildKind::Event,
    }
}

impl<M, L, S> MapChildElement<M, L, S> {
    pub fn kind(&self) -> (r: ChildKind)
        ensures
            r == element_kind(*self),
    {
        match self {
            MapChildElement::Marker(_) => ChildKind::Marker,
            MapChildElement::TileLayer(_) => ChildKind::TileLayer,
            MapChildElement::Event(_) => ChildKind::Event,
        }
    }

    /// The live marker. Asking a tile layer or a listener for one is a bug of the
    /// caller, which `requires` rules out.
    pub fn as_marker_mut(&mut self) -> (r: &mut M)
        requires
            *old(self) is Marker,
        ensures
            *r == (*old(self))->Marker_0,
            *final(self) == MapChildElement::<M, L, S>::Marker(*final(r)),
    {
        match self {
            MapChildElement::Marker(m) => m,
            _ => unreached(),
        }
    }

    /// The live tile layer. Asking a marker or a listener for one is a bug of the
    /// caller, which `requires` rules out.
    pub fn as_tile_layer_mut(&mut self) -> (r: &mut L)
        requires
            *old(self) is TileLayer,
        ensures
            *r == (*old(self))->TileLayer_0,
            *final(self) == MapChildElement::<M, L, S>::TileLayer(*final(r)),
    {
        match self {
            MapChildElement::TileLayer(l) => l,
            _ => unreached(),
        }
    }
}

/// A value that can stand as one child of a map.
pub trait MapChild {
    spec fn descriptor_spec(&self) -> Descriptor;

    /// The descriptor of this child for the current pass.
    fn descriptor(&self) -> (r: Descriptor)
        ensures
            r == self.descriptor_spec(),
    ;
}

impl MapChild for Descriptor {
    open spec fn descriptor_spec(&self) -> Descriptor {
        *self
    }

    fn descriptor(&self) -> (r: Descriptor) {
        self.clone()
    }
}

impl MapChild for TileLayer {
    open spec fn descriptor_spec(&self) -> Descriptor {
        Descriptor::TileLayer(*self)
    }

    fn descriptor(&self) -> (r: Descriptor) {
        Descriptor::TileLayer(self.clone())
    }
}

impl MapChild for Marker {
    open spec fn descriptor_spec(&self) -> Descriptor {
        Descriptor::Marker(*self)
    }

    fn descriptor(&self) -> (r: Descriptor) {
        Descriptor::Marker(*self)
    }
}

/// An ordered sequence of map children.
pub trait MapChildren {
    spec fn descriptors_spec(&self) -> Seq<Descriptor>;

    /// The descriptors of the children, in order.
    fn descriptors(&self) -> (r: Vec<Descriptor>)
        ensures
            r@ == self.descriptors_spec(),
    ;
}

impl<T: MapChild> MapChildren for Vec<T> {
    open spec fn descriptors_spec(&self) -> Seq<Descriptor> {
        Seq::new(self@.len(), |i: int| self@[i].descriptor_spec())
    }

    fn descriptors(&self) -> (r: Vec<Descriptor>) {
        let mut r: Vec<Descriptor> = Vec::new();
        let mut i: usize = 0;
        while i < self.len()
            invariant
                0 <= i <= self@.len(),
                r@ == Seq::new(i as nat, |j: int| self@[j].descriptor_spec()),
            decreases self@.len() - i,
        {
            let d = self[i].descriptor();
            r.push(d);
            i = i + 1;
            assert(r@ =~= Seq::new(i as nat, |j: int| self@[j].descriptor_spec()));
        }
        assert(r@ =~= self.descriptors_spec());
        r
    }
}

} // verus!
