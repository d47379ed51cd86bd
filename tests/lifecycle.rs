use std::cell::RefCell;

use xilem_leaflet::{
    apply_zoom_and_center, marker, EventKind, tile_layer, Descriptor, Edit, MapChildElement, MapView,
    MapViewState, Num, Phase, ViewportCommand,
};

type Element = MapChildElement<u32, u32, u32>;

fn n(v: f64) -> Num {
    Num::from_bits(v.to_bits())
}

fn bits(v: Num) -> f64 {
    f64::from_bits(v.to_bits())
}

fn view(zoom: f64, lat: f64, lng: f64) -> MapView {
    xilem_leaflet::map::map(vec![Descriptor::TileLayer(tile_layer("https://{s}.tile.example.org/{z}/{x}/{y}.png"))])
        .center(n(lat), n(lng))
        .zoom(n(zoom))
}

struct Counter {
    created: RefCell<u32>,
    updated: RefCell<u32>,
    removed: RefCell<u32>,
    released: RefCell<Vec<String>>,
}

impl Counter {
    fn new() -> Counter {
        Counter { created: RefCell::new(0), updated: RefCell::new(0), removed: RefCell::new(0), released: RefCell::new(Vec::new()) }
    }
    fn create(&self, _i: usize, d: &Descriptor) -> Element {
        *self.created.borrow_mut() += 1;
        match d {
            Descriptor::TileLayer(_) => MapChildElement::TileLayer(0),
            Descriptor::Marker(_) => MapChildElement::Marker(0),
            Descriptor::Event(_) => MapChildElement::Event(0),
        }
    }
    fn update(&self, e: Element, _p: &Descriptor, _n: &Descriptor) -> Element {
        *self.updated.borrow_mut() += 1;
        e
    }
    fn teardown(&self, _e: Element, _d: &Descriptor) {
        *self.removed.borrow_mut() += 1;
        self.released.borrow_mut().push("child".to_string());
    }
    fn release(&self, root: &str) {
        self.released.borrow_mut().push(root.to_string());
    }
}

fn set_view(cmd: Option<ViewportCommand>) -> Option<(f64, f64, f64)> {
    match cmd {
        Some(ViewportCommand::SetView { lat, lng, zoom }) => Some((bits(zoom), bits(lat), bits(lng))),
        _ => None,
    }
}

#[test]
fn viewport_waits_for_mount() {
    let c = Counter::new();
    let v = view(12.0, 48.64, 9.46);
    let mut state: MapViewState<&str, u32, u32, u32> = MapViewState::build(&v, "root");
    assert_eq!(state.phase(), Phase::DeferredInit);
    assert!(state.children().is_empty());
    assert_eq!(*c.created.borrow(), 0);

    let pass = state.mount(|i, d| c.create(i, d), |e, p, n| c.update(e, p, n), |e, d| c.teardown(e, d));
    assert_eq!(state.phase(), Phase::Live);
    assert_eq!(set_view(pass.viewport), Some((12.0, 48.64, 9.46)));
    assert_eq!(pass.edits, vec![Edit::Insert]);
    assert_eq!(*c.created.borrow(), 1);
    assert_eq!(state.children().len(), 1);
}

#[test]
fn rebuild_before_mount_is_deferred() {
    let c = Counter::new();
    let mut state: MapViewState<&str, u32, u32, u32> = MapViewState::build(&view(12.0, 48.64, 9.46), "root");
    let pass = state.rebuild(
        &view(13.0, 48.64, 9.46),
        |i, d| c.create(i, d),
        |e, p, n| c.update(e, p, n),
        |e, d| c.teardown(e, d),
    );
    assert!(pass.viewport.is_none());
    assert!(pass.edits.is_empty());
    assert_eq!(*c.created.borrow(), 0);
    let pass = state.mount(|i, d| c.create(i, d), |e, p, n| c.update(e, p, n), |e, d| c.teardown(e, d));
    assert_eq!(set_view(pass.viewport), Some((13.0, 48.64, 9.46)));
}

#[test]
fn zoom_update_scenario() {
    let c = Counter::new();
    let mut state: MapViewState<&str, u32, u32, u32> = MapViewState::build(&view(12.0, 48.64, 9.46), "root");
    state.mount(|i, d| c.create(i, d), |e, p, n| c.update(e, p, n), |e, d| c.teardown(e, d));

    let pass = state.rebuild(
        &view(12.0, 48.64, 9.46),
        |i, d| c.create(i, d),
        |e, p, n| c.update(e, p, n),
        |e, d| c.teardown(e, d),
    );
    assert!(pass.viewport.is_none());
    assert_eq!(pass.edits, vec![Edit::Skip]);

    let pass = state.rebuild(
        &view(14.0, 48.64, 9.46),
        |i, d| c.create(i, d),
        |e, p, n| c.update(e, p, n),
        |e, d| c.teardown(e, d),
    );
    assert_eq!(set_view(pass.viewport), Some((14.0, 48.64, 9.46)));
    assert_eq!(pass.edits, vec![Edit::Skip]);
    assert_eq!(*c.created.borrow(), 1);
    assert_eq!(*c.updated.borrow(), 0);
}

#[test]
fn zoom_alone_sets_zoom() {
    match apply_zoom_and_center(Some(n(3.0)), None) {
        Some(ViewportCommand::SetZoom { zoom }) => assert_eq!(bits(zoom), 3.0),
        other => panic!("unexpected {:?}", other),
    }
    assert!(apply_zoom_and_center(None, Some((n(1.0), n(2.0)))).is_none());
    assert!(apply_zoom_and_center(None, None).is_none());
}

#[test]
fn teardown_removes_children() {
    let c = Counter::new();
    let v = xilem_leaflet::map::map(vec![
        Descriptor::TileLayer(tile_layer("A")),
        Descriptor::Marker(marker(n(1.0), n(2.0))),
    ])
    .on_zoom_end();
    let mut state: MapViewState<&str, u32, u32, u32> = MapViewState::build(&v, "root");
    let pass = state.mount(|i, d| c.create(i, d), |e, p, n| c.update(e, p, n), |e, d| c.teardown(e, d));
    assert!(pass.viewport.is_none());
    assert_eq!(state.children().len(), 3);
    assert_eq!(state.root(), Some(&"root"));
    let edits = state.teardown(|e, d| c.teardown(e, d), |root| c.release(root));
    assert_eq!(edits, vec![Edit::Delete, Edit::Delete, Edit::Delete]);
    assert_eq!(*c.removed.borrow(), 3);
    assert_eq!(*c.released.borrow(), vec!["child", "child", "child", "root"]);
    assert_eq!(state.root(), None);
    assert_eq!(state.phase(), Phase::TornDown);
    assert!(state.children().is_empty());
}

#[test]
fn teardown_before_mount_touches_nothing() {
    let c = Counter::new();
    let mut state: MapViewState<&str, u32, u32, u32> = MapViewState::build(&view(12.0, 1.0, 2.0), "root");
    let edits = state.teardown(|e, d| c.teardown(e, d), |root| c.release(root));
    assert!(edits.is_empty());
    assert_eq!(*c.removed.borrow(), 0);
    assert_eq!(*c.released.borrow(), vec!["root"]);
    assert_eq!(state.phase(), Phase::TornDown);
}

#[test]
fn builders_append_subscriptions() {
    let v = xilem_leaflet::map::map(vec![]).on_zoom_end().on_move_end().on_mouse_click().zoom(n(5.0));
    let kinds: Vec<EventKind> = v
        .children()
        .iter()
        .map(|d| match d {
            Descriptor::Event(k) => *k,
            _ => panic!("not a subscription"),
        })
        .collect();
    assert_eq!(kinds, vec![EventKind::ZoomEnd, EventKind::MoveEnd, EventKind::MouseClick]);
    assert_eq!(v.zoom_level().map(bits), Some(5.0));
    assert!(v.center_point().is_none());
}
