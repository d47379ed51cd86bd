use std::cell::RefCell;

use xilem_leaflet::path::event_id;
use xilem_leaflet::{
    reconcile, Descriptor, MapChildElement,
    EventKind, Mailbox, MapCtx, RegisterError, Subscriptions, ON_MOUSE_CLICK_ID, ON_MOVE_END_ID,
    ON_ZOOM_END_ID,
};

#[test]
fn event_ids_are_distinct() {
    assert_eq!(event_id(EventKind::MouseClick), ON_MOUSE_CLICK_ID);
    assert_eq!(event_id(EventKind::MoveEnd), ON_MOVE_END_ID);
    assert_eq!(event_id(EventKind::ZoomEnd), ON_ZOOM_END_ID);
    assert_ne!(ON_MOUSE_CLICK_ID, ON_MOVE_END_ID);
    assert_ne!(ON_MOUSE_CLICK_ID, ON_ZOOM_END_ID);
    assert_ne!(ON_MOVE_END_ID, ON_ZOOM_END_ID);
}

#[test]
fn context_path_stack() {
    let mut ctx = MapCtx::new("live map");
    assert_eq!(ctx.view_path(), &[] as &[u64]);
    ctx.push_id(7);
    ctx.push_id(3);
    assert_eq!(ctx.view_path(), &[7, 3]);
    assert_eq!(ctx.subscription_path(2, EventKind::ZoomEnd), vec![7, 3, 2, ON_ZOOM_END_ID]);
    ctx.pop_id();
    assert_eq!(ctx.view_path(), &[7]);
    assert_eq!(*ctx.map(), "live map");
}

#[test]
fn subscription_paths_never_alias() {
    let ctx = MapCtx::new(());
    let a = ctx.subscription_path(0, EventKind::ZoomEnd);
    let b = ctx.subscription_path(1, EventKind::ZoomEnd);
    let c = ctx.subscription_path(0, EventKind::MouseClick);
    assert_ne!(a, b);
    assert_ne!(a, c);
    let mut subs = Subscriptions::new();
    assert_eq!(subs.register(a.clone(), EventKind::ZoomEnd), Ok(()));
    assert_eq!(subs.register(b.clone(), EventKind::ZoomEnd), Ok(()));
    assert_eq!(subs.register(a.clone(), EventKind::MouseClick), Err(RegisterError::PathInUse));
    assert_eq!(subs.len(), 2);
    assert_eq!(subs.route(&a), Some(EventKind::ZoomEnd));
    assert_eq!(subs.route(&c), None);
}

#[test]
fn messages_are_delivered_in_order_to_their_path() {
    let mut subs = Subscriptions::new();
    subs.register(vec![0, ON_ZOOM_END_ID], EventKind::ZoomEnd).unwrap();
    subs.register(vec![1, ON_MOUSE_CLICK_ID], EventKind::MouseClick).unwrap();
    let mut mailbox: Mailbox<&str> = Mailbox::new();
    mailbox.enqueue(vec![1, ON_MOUSE_CLICK_ID], "click one");
    mailbox.enqueue(vec![0, ON_ZOOM_END_ID], "zoom");
    mailbox.enqueue(vec![1, ON_MOUSE_CLICK_ID], "click two");
    assert_eq!(mailbox.len(), 3);
    let out = mailbox.drain(&subs);
    assert_eq!(mailbox.len(), 0);
    let got: Vec<(EventKind, &str)> = out.iter().map(|d| (d.kind, d.payload)).collect();
    assert_eq!(
        got,
        vec![
            (EventKind::MouseClick, "click one"),
            (EventKind::ZoomEnd, "zoom"),
            (EventKind::MouseClick, "click two"),
        ]
    );
    assert_eq!(out[1].path, vec![0, ON_ZOOM_END_ID]);
}

#[test]
fn stale_message_is_dropped() {
    let path = vec![0, ON_MOVE_END_ID];
    let mut subs = Subscriptions::new();
    subs.register(path.clone(), EventKind::MoveEnd).unwrap();
    let mut mailbox: Mailbox<u32> = Mailbox::new();
    mailbox.enqueue(path.clone(), 1);
    assert!(subs.unregister(&path));
    assert!(!subs.unregister(&path));
    let out = mailbox.drain(&subs);
    assert!(out.is_empty());
    assert_eq!(mailbox.len(), 0);
}

#[test]
fn unregister_keeps_other_subscriptions() {
    let mut subs = Subscriptions::new();
    subs.register(vec![0, ON_ZOOM_END_ID], EventKind::ZoomEnd).unwrap();
    subs.register(vec![1, ON_MOVE_END_ID], EventKind::MoveEnd).unwrap();
    subs.register(vec![2, ON_MOUSE_CLICK_ID], EventKind::MouseClick).unwrap();
    assert!(subs.unregister(&vec![1, ON_MOVE_END_ID]));
    assert_eq!(subs.len(), 2);
    assert_eq!(subs.route(&vec![0, ON_ZOOM_END_ID]), Some(EventKind::ZoomEnd));
    assert_eq!(subs.route(&vec![2, ON_MOUSE_CLICK_ID]), Some(EventKind::MouseClick));
    assert_eq!(subs.route(&vec![1, ON_MOVE_END_ID]), None);
}

#[test]
fn reconciled_subscriptions_register_and_detach() {
    let subs = RefCell::new(Subscriptions::new());
    let ctx = MapCtx::new(());
    let create = |i: usize, d: &Descriptor| -> MapChildElement<(), (), Vec<u64>> {
        match d {
            Descriptor::Event(k) => {
                let path = ctx.subscription_path(i, *k);
                subs.borrow_mut().register(path.clone(), *k).unwrap();
                MapChildElement::Event(path)
            }
            _ => panic!("only subscriptions here"),
        }
    };
    let update = |e: MapChildElement<(), (), Vec<u64>>, _p: &Descriptor, _n: &Descriptor| e;
    let teardown = |e: MapChildElement<(), (), Vec<u64>>, _d: &Descriptor| {
        if let MapChildElement::Event(path) = e {
            assert!(subs.borrow_mut().unregister(&path));
        }
    };
    let d1 = vec![Descriptor::Event(EventKind::ZoomEnd), Descriptor::Event(EventKind::ZoomEnd)];
    let mut children = Vec::new();
    reconcile(&mut children, &Vec::new(), &d1, &create, &update, &teardown);
    assert_eq!(subs.borrow().len(), 2);
    let d2 = vec![Descriptor::Event(EventKind::MouseClick)];
    reconcile(&mut children, &d1, &d2, &create, &update, &teardown);
    assert_eq!(subs.borrow().len(), 1);
    assert_eq!(subs.borrow().route(&vec![0, ON_MOUSE_CLICK_ID]), Some(EventKind::MouseClick));
    assert_eq!(subs.borrow().route(&vec![0, ON_ZOOM_END_ID]), None);
    assert_eq!(subs.borrow().route(&vec![1, ON_ZOOM_END_ID]), None);
}

#[test]
fn subscription_position_reads_back_the_path() {
    let mut ctx = MapCtx::new(());
    ctx.push_id(4);
    let path = ctx.subscription_path(3, EventKind::MoveEnd);
    assert_eq!(ctx.subscription_position(&path), Some(3));
    assert_eq!(ctx.subscription_position(&vec![4, 3]), None);
    assert_eq!(ctx.subscription_position(&vec![5, 3, ON_MOVE_END_ID]), None);
    assert_eq!(ctx.subscription_position(&vec![4, 3, 99]), None);
    assert_eq!(ctx.subscription_position(&vec![4, 3, ON_MOVE_END_ID, 1]), None);
}

#[test]
fn shrinking_detaches_trailing_listeners() {
    let detached = RefCell::new(Vec::new());
    let d1 = vec![
        Descriptor::Event(EventKind::ZoomEnd),
        Descriptor::Event(EventKind::MoveEnd),
        Descriptor::Event(EventKind::MouseClick),
    ];
    let mut children: Vec<MapChildElement<(), (), usize>> = Vec::new();
    reconcile(
        &mut children,
        &Vec::new(),
        &d1,
        |i, _d| MapChildElement::Event(i),
        |e, _p, _n| e,
        |_e, _d| panic!("nothing to tear down yet"),
    );
    let d2 = vec![Descriptor::Event(EventKind::ZoomEnd)];
    reconcile(
        &mut children,
        &d1,
        &d2,
        |_i, _d| panic!("nothing to create"),
        |e, _p, _n| e,
        |e, d| detached.borrow_mut().push((e.kind(), d.kind())),
    );
    assert_eq!(detached.borrow().len(), 2);
    assert_eq!(children.len(), 1);
}
