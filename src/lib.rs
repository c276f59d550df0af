//! Transient text popups for a UI scene graph: the decisions behind them.
//!
//! A popup request becomes a planned subtree (root, frame, text, action row
//! and up to two buttons), a layout for its placement and exactly one expiry
//! marker. Two reapers decide, tick by tick, which popups have outlived their
//! budget, and a dispatcher decides which button actions to invoke. The host
//! engine spawns, despawns and renders; this crate decides what it does.

pub mod dispatch;
pub mod layout;
pub mod lifecycle;
pub mod markers;
pub mod reaper;
pub mod tree;

pub use dispatch::{text_popup_button_system, ActionCall, ButtonChange, Interaction};
pub use layout::{
    frame_anchors, root_justification, FrameAnchors, FrameOffset, JustifyContent, TextPopupLocation,
};
pub use markers::{
    TextPopup, TextPopupExpires, TextPopupExpiresInFrames, TextPopupExpiry, TextPopupNeverExpires,
    TextPopupTimeout, NANOS_PER_SECOND,
};
pub use reaper::{cleanup_expired_text_popups, cleanup_frame_expired_text_popups, TrackedPopup};
pub use tree::{
    generate_text_popup_from_event, ButtonSlot, PlannedNode, PopupNodeKind, TextPopupPlan,
    TextPopupShape,
};
