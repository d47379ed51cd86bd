//! Reconciliation and event routing for a map surface whose overlays live in an
//! externally owned object graph.
//!
//! The library decides; the host performs. Each render pass hands in a declarative
//! [`MapView`], and the library works out which live overlays to create, update or
//! tear down, when the viewport must be set, and which queued external events still
//! have a live subscriber to be delivered to.
pub mod bridge;
pub mod child;
pub mod events;
pub mod map;
pub mod num;
pub mod path;
pub mod reconcile;
pub mod splice;

pub use bridge::{Delivery, Mailbox, QueuedMessage, RegisterError, Registration, Subscriptions};
pub use child::{
    marker, tile_layer, ChildKind, Descriptor, EventKind, MapChild, MapChildElement,
    MapChildren, Marker, TileLayer,
};
pub use events::{on_mouse_click, on_move_end, on_zoom_end, OnMouseClick, OnMoveEnd, OnZoomEnd};
pub use map::{
    apply_zoom_and_center, MapMessage, MapView, MapViewState, Pass, Phase, ViewportCommand,
};
pub use num::Num;
pub use path::{MapCtx, ON_MOUSE_CLICK_ID, ON_MOVE_END_ID, ON_ZOOM_END_ID};
pub use reconcile::{reconcile, tear_down_all, Edit};
pub use splice::MapChildrenSplice;
