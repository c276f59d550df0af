//! Projection of a logical placement onto the root's flex row and the
//! frame's absolute offsets.

use vstd::prelude::*;

verus! {

/// Where on the viewport a popup's frame stands.
#[derive(Debug, Clone, Copy, PartialEq, Eq, Structural)]
pub enum TextPopupLocation {
    TopLeft,
    Top,
    TopRight,
    Left,
    Center,
    Right,
    BottomLeft,
    Bottom,
    BottomRight,
    /// The frame's top-left corner at `x`, `y` logical pixels.
    Custom(i32, i32),
}

impl Default for TextPopupLocation {
    fn default() -> (r: Self)
        ensures
            r == TextPopupLocation::Center,
    {
        TextPopupLocation::Center
    }
}

/// Main-axis justification of the root's flex row.
#[derive(Debug, Clone, Copy, PartialEq, Eq, Structural)]
pub enum JustifyContent {
    Start,
    Center,
    End,
}

/// An absolute offset of the frame from one edge of the root.
#[derive(Debug, Clone, Copy, PartialEq, Eq, Structural)]
pub enum FrameOffset {
    Percent(u32),
    Px(i32),
}

/// The frame's absolute offsets; `None` leaves that edge unset.
#[derive(Debug, Clone, Copy, PartialEq, Eq, Structural)]
pub struct FrameAnchors {
    pub top: Option<FrameOffset>,
    pub bottom: Option<FrameOffset>,
    pub left: Option<FrameOffset>,
    pub right: Option<FrameOffset>,
}

/// Column of the viewport grid: 0 left, 1 middle, 2 right. `Custom` counts
/// as the left column.
pub open spec fn column_of(l: TextPopupLocation) -> int {
    match l {
        TextPopupLocation::TopLeft | TextPopupLocation::Left | TextPopupLocation::BottomLeft
        | TextPopupLocation::Custom(_, _) => 0,
        TextPopupLocation::Top | TextPopupLocation::Center | TextPopupLocation::Bottom => 1,
        TextPopupLocation::TopRight | TextPopupLocation::Right | TextPopupLocation::BottomRight => 2,
    }
}

/// Row of the viewport grid: 0 top, 1 middle, 2 bottom (`Custom` has none).
pub open spec fn row_of(l: TextPopupLocation) -> int {
    match l {
        TextPopupLocation::TopLeft | TextPopupLocation::Top | TextPopupLocation::TopRight => 0,
        TextPopupLocation::Left | TextPopupLocation::Center | TextPopupLocation::Right => 1,
        TextPopupLocation::BottomLeft | TextPopupLocation::Bottom | TextPopupLocation::BottomRight => 2,
        TextPopupLocation::Custom(_, _) => 1,
    }
}

/// The root's justification: by column.
pub open spec fn justify_of(l: TextPopupLocation) -> JustifyContent {
    if column_of(l) == 0 {
        JustifyContent::Start
    } else if column_of(l) == 1 {
        JustifyContent::Center
    } else {
        JustifyContent::End
    }
}

/// The frame's offsets: `top` for the top row, `bottom` for the bottom row,
/// `left` / `right` for the middle row's side cells, and the pixel position
/// for `Custom`.
pub open spec fn anchors_of(l: TextPopupLocation) -> FrameAnchors {
    let zero = Some(FrameOffset::Percent(0));
    match l {
        TextPopupLocation::Custom(x, y) => FrameAnchors {
            top: Some(FrameOffset::Px(y)),
            bottom: None,
            left: Some(FrameOffset::Px(x)),
            right: None,
        },
        _ => FrameAnchors {
            top: if row_of(l) == 0 { zero } else { None },
            bottom: if row_of(l) == 2 { zero } else { None },
            left: if l == TextPopupLocation::Left { zero } else { None },
            right: if l == TextPopupLocation::Right { zero } else { None },
        },
    }
}

/// The root's main-axis justification for `location`.
pub fn root_justification(location: &TextPopupLocation) -> (r: JustifyContent)
    ensures
        r == justify_of(*location),
{
    match location {
        TextPopupLocation::TopLeft | TextPopupLocation::Left | TextPopupLocation::BottomLeft => {
            JustifyContent::Start
        },
        TextPopupLocation::Top | TextPopupLocation::Center | TextPopupLocation::Bottom => {
            JustifyContent::Center
        },
        TextPopupLocation::TopRight | TextPopupLocation::Right | TextPopupLocation::BottomRight => {
            JustifyContent::End
        },
        TextPopupLocation::Custom(_, _) => JustifyContent::Start,
    }
}

/// The frame's absolute offsets for `location`.
pub fn frame_anchors(location: &TextPopupLocation) -> (r: FrameAnchors)
    ensures
        r == anchors_of(*location),
{
    let mut anchors = FrameAnchors { top: None, bottom: None, left: None, right: None };
    match location {
        TextPopupLocation::TopLeft | TextPopupLocation::Top | TextPopupLocation::TopRight => {
            anchors.top = Some(FrameOffset::Percent(0));
        },
        TextPopupLocation::Left => anchors.left = Some(FrameOffset::Percent(0)),
        TextPopupLocation::Center => {},
        TextPopupLocation::Right => anchors.right = Some(FrameOffset::Percent(0)),
        TextPopupLocation::BottomLeft
        | TextPopupLocation::Bottom
        | TextPopupLocation::BottomRight => {
            anchors.bottom = Some(FrameOffset::Percent(0));
        },
        TextPopupLocation::Custom(x, y) => {
            anchors.left = Some(FrameOffset::Px(*x));
            anchors.top = Some(FrameOffset::Px(*y));
        },
    }
    anchors
}

} // verus!
