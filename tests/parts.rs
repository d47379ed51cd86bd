use xilem_leaflet::num::{same_opt_value, Num};
use xilem_leaflet::{
    marker, on_mouse_click, on_move_end, on_zoom_end, tile_layer, ChildKind, Descriptor,
    EventKind, MapChild, MapChildElement, MapChildren, MapChildrenSplice, Marker, TileLayer,
};

fn n(v: f64) -> Num {
    Num::from_bits(v.to_bits())
}

#[test]
fn numbers_compare_as_floats() {
    assert!(n(1.5).same_value(n(1.5)));
    assert!(!n(1.5).same_value(n(2.5)));
    assert!(n(0.0).same_value(n(-0.0)));
    assert!(!n(f64::NAN).same_value(n(f64::NAN)));
    assert!(n(f64::NAN).is_nan());
    assert!(!n(f64::INFINITY).is_nan());
    assert!(n(f64::INFINITY).same_value(n(f64::INFINITY)));
    assert!(same_opt_value(None, None));
    assert!(!same_opt_value(Some(n(1.0)), None));
    assert!(!same_opt_value(Some(n(f64::NAN)), Some(n(f64::NAN))));
    assert_eq!(n(2.0).to_bits(), 2.0f64.to_bits());
}

#[test]
fn tile_layer_keeps_url() {
    let t: TileLayer = tile_layer("https://{s}.tile.openstreetmap.org/{z}/{x}/{y}.png");
    assert_eq!(t.url_template(), "https://{s}.tile.openstreetmap.org/{z}/{x}/{y}.png");
    let d: Descriptor = t.clone().into();
    assert_eq!(d.kind(), ChildKind::TileLayer);
    assert!(d.is_unchanged(&Descriptor::TileLayer(t)));
    assert!(!d.is_unchanged(&Descriptor::TileLayer(tile_layer("other"))));
}

#[test]
fn marker_descriptor() {
    let m: Marker = marker(n(48.0), n(9.0));
    assert_eq!(m.lat.to_bits(), 48.0f64.to_bits());
    let d: Descriptor = m.into();
    assert_eq!(d.kind(), ChildKind::Marker);
    assert!(d.is_updatable(&Descriptor::Marker(marker(n(1.0), n(1.0)))));
    assert!(!d.is_updatable(&Descriptor::TileLayer(tile_layer("A"))));
    assert!(!d.is_updatable(&Descriptor::Event(EventKind::ZoomEnd)));
}

#[test]
fn subscriptions_describe_their_event() {
    let z = on_zoom_end(|x: u32| x + 1);
    assert!(matches!(z.descriptor(), Descriptor::Event(EventKind::ZoomEnd)));
    assert_eq!((z.callback())(1), 2);
    let m = on_move_end(7u8);
    assert!(matches!(m.descriptor(), Descriptor::Event(EventKind::MoveEnd)));
    assert_eq!(*m.callback(), 7);
    let c = on_mouse_click("handler");
    assert!(matches!(c.descriptor(), Descriptor::Event(EventKind::MouseClick)));
    assert_eq!(*c.callback(), "handler");
}

#[test]
fn children_list_descriptors() {
    let v = vec![marker(n(1.0), n(2.0)), marker(n(3.0), n(4.0))];
    let ds = v.descriptors();
    assert_eq!(ds.len(), 2);
    assert!(matches!(&ds[1], Descriptor::Marker(m) if m.lng.to_bits() == 4.0f64.to_bits()));
}

#[test]
fn element_casts() {
    let mut e: MapChildElement<u32, String, ()> = MapChildElement::Marker(5);
    *e.as_marker_mut() = 6;
    assert!(matches!(e, MapChildElement::Marker(6)));
    let mut t: MapChildElement<u32, String, ()> = MapChildElement::TileLayer("A".to_string());
    t.as_tile_layer_mut().push('B');
    assert!(matches!(&t, MapChildElement::TileLayer(s) if s == "AB"));
    assert_eq!(t.kind(), ChildKind::TileLayer);
}

#[test]
fn splice_operations() {
    let mut s = MapChildrenSplice::new(vec![1, 2, 3]);
    s.skip(1);
    s.insert(10);
    assert_eq!(s.cursor_position(), 2);
    s.mutate(|x| x * 100);
    assert_eq!(s.delete(), 3);
    s.insert_all(vec![7, 8]);
    assert_eq!(s.cursor_position(), 5);
    assert_eq!(s.len(), 5);
    assert_eq!(s.into_inner(), vec![1, 10, 200, 7, 8]);
}

#[test]
fn scratch_insert_in_the_middle() {
    let mut s = MapChildrenSplice::new(vec!['a', 'd']);
    s.skip(1);
    s.insert_all(vec!['b', 'c']);
    assert_eq!(s.cursor_position(), 3);
    assert_eq!(s.into_inner(), vec!['a', 'b', 'c', 'd']);
}
