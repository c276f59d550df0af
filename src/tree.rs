//! The tree builder: from one popup request to the ordered list of nodes
//! that make its subtree, with the root's layout and expiry marker.

use vstd::prelude::*;
use crate::layout::{
    anchors_of, frame_anchors, justify_of, root_justification, FrameAnchors, JustifyContent,
    TextPopupLocation,
};
use crate::markers::{expiry_of, TextPopupExpiry, TextPopupTimeout};

verus! {

/// Which of a popup's two buttons a node belongs to.
#[derive(Debug, Clone, Copy, PartialEq, Eq, Structural)]
pub enum ButtonSlot {
    Confirm,
    Dismiss,
}

/// The part a node plays in a popup's subtree.
#[derive(Debug, Clone, Copy, PartialEq, Eq, Structural)]
pub enum PopupNodeKind {
    /// The full-viewport root: tagged as a popup, with layer, modal fill,
    /// expiry marker and name.
    Root,
    /// The bordered box, placed by the frame anchors.
    Frame,
    /// The popup's text.
    Text,
    /// The row below the text that holds the buttons.
    ActionRow,
    /// An interactive button, bound to the root.
    Button(ButtonSlot),
    /// The text inside a button.
    ButtonLabel(ButtonSlot),
}

/// One node of a planned subtree; `parent` is the index of its parent in
/// the plan, `None` for the root.
#[derive(Debug, Clone, Copy, PartialEq, Eq, Structural)]
pub struct PlannedNode {
    pub kind: PopupNodeKind,
    pub parent: Option<usize>,
}

/// What the tree builder needs to know of a popup request.
#[derive(Debug, Clone, Copy, PartialEq, Eq, Structural)]
pub struct TextPopupShape {
    pub location: TextPopupLocation,
    pub timeout: TextPopupTimeout,
    pub has_confirm_button: bool,
    pub has_dismiss_button: bool,
}

/// A popup's subtree, ready to spawn: nodes in spawn order (every parent
/// before its children), the root's justification, the frame's anchors and
/// the root's expiry marker. A button's action is bound to the node at
/// index `0`.
#[derive(Debug, Clone, PartialEq, Eq)]
pub struct TextPopupPlan {
    pub nodes: Vec<PlannedNode>,
    pub justify_content: JustifyContent,
    pub anchors: FrameAnchors,
    pub expiry: TextPopupExpiry,
}

/// Index of the root node in every plan.
pub const ROOT_INDEX: usize = 0;

/// Index of the action row in every plan.
pub const ACTION_ROW_INDEX: usize = 3;

pub open spec fn node(kind: PopupNodeKind, parent: Option<usize>) -> PlannedNode {
    PlannedNode { kind, parent }
}

/// Root, frame, text and action row, in that order.
pub open spec fn skeleton() -> Seq<PlannedNode> {
    seq![
        node(PopupNodeKind::Root, None),
        node(PopupNodeKind::Frame, Some(0)),
        node(PopupNodeKind::Text, Some(1)),
        node(PopupNodeKind::ActionRow, Some(1)),
    ]
}

/// A button under the action row and its label under it, the button at index `at`.
pub open spec fn button_nodes(slot: ButtonSlot, at: usize) -> Seq<PlannedNode> {
    seq![
        node(PopupNodeKind::Button(slot), Some(ACTION_ROW_INDEX)),
        node(PopupNodeKind::ButtonLabel(slot), Some(at)),
    ]
}

/// The nodes of a popup: the skeleton, then the confirm button if asked
/// for, then the dismiss button if asked for.
pub open spec fn planned_nodes(confirm: bool, dismiss: bool) -> Seq<PlannedNode> {
    let with_confirm = if confirm {
        skeleton() + button_nodes(ButtonSlot::Confirm, 4)
    } else {
        skeleton()
    };
    if dismiss {
        with_confirm + button_nodes(ButtonSlot::Dismiss, with_confirm.len() as usize)
    } else {
        with_confirm
    }
}

/// Whether node `i` reaches the root at index `0` by parent links that go
/// strictly back in the list.
pub open spec fn in_root_subtree(nodes: Seq<PlannedNode>, i: nat) -> bool
    decreases i,
{
    if i == 0 {
        nodes[0].kind == PopupNodeKind::Root
    } else {
        match nodes[i as int].parent {
            Some(p) => p < i && in_root_subtree(nodes, p as nat),
            None => false,
        }
    }
}

/// Every node but the first has a parent that stands before it.
pub open spec fn parents_precede(nodes: Seq<PlannedNode>) -> bool {
    forall|i: int|
        0 < i < nodes.len() ==> (#[trigger] nodes[i]).parent is Some && nodes[i].parent->0 < i
}

proof fn lemma_rooted_when_parents_precede(nodes: Seq<PlannedNode>, i: nat)
    requires
        parents_precede(nodes),
        nodes.len() > 0,
        nodes[0].kind == PopupNodeKind::Root,
        i < nodes.len(),
    ensures
        in_root_subtree(nodes, i),
    decreases i,
{
    if i > 0 {
        let p = nodes[i as int].parent->0;
        lemma_rooted_when_parents_precede(nodes, p as nat);
    }
}

/// Every planned subtree has exactly one root, at index `0` and without a
/// parent, and every other node (frame, text, action row, each button and
/// its label) lies in that root's subtree, so despawning the root with its
/// descendants leaves none of the popup's nodes behind.
pub proof fn lemma_plan_is_one_rooted_tree(confirm: bool, dismiss: bool)
    ensures
        ({
            let nodes = planned_nodes(confirm, dismiss);
            &&& nodes.len() > 0
            &&& nodes[0].parent is None
            &&& forall|i: int| 0 <= i < nodes.len() ==> ((#[trigger] nodes[i]).kind == PopupNodeKind::Root <==> i == 0)
            &&& forall|i: nat| i < nodes.len() ==> #[trigger] in_root_subtree(nodes, i)
        }),
{
    let nodes = planned_nodes(confirm, dismiss);
    let base = skeleton();
    let with_confirm = if confirm {
        base + button_nodes(ButtonSlot::Confirm, 4)
    } else {
        base
    };
    assert(parents_precede(nodes)) by {
        assert forall|i: int| 0 < i < nodes.len() implies (#[trigger] nodes[i]).parent is Some && nodes[i].parent->0 < i by {
            if i < 4 {
                assert(nodes[i] == base[i]);
            } else if i < with_confirm.len() {
                assert(nodes[i] == with_confirm[i]);
            }
        }
    }
    assert forall|i: int| 0 <= i < nodes.len() implies ((#[trigger] nodes[i]).kind == PopupNodeKind::Root <==> i == 0) by {
        if i < 4 {
            assert(nodes[i] == base[i]);
        } else if i < with_confirm.len() {
            assert(nodes[i] == with_confirm[i]);
        }
    }
    assert forall|i: nat| i < nodes.len() implies #[trigger] in_root_subtree(nodes, i) by {
        assert(nodes[0] == base[0]);
        lemma_rooted_when_parents_precede(nodes, i);
    }
}

/// Appends a button under the action row and its label under the button.
fn push_button(nodes: &mut Vec<PlannedNode>, slot: ButtonSlot)
    requires
        old(nodes).len() <= 6,
    ensures
        final(nodes)@ == old(nodes)@ + button_nodes(slot, old(nodes).len()),
{
    let at = nodes.len();
    nodes.push(PlannedNode { kind: PopupNodeKind::Button(slot), parent: Some(ACTION_ROW_INDEX) });
    nodes.push(PlannedNode { kind: PopupNodeKind::ButtonLabel(slot), parent: Some(at) });
    assert(final(nodes)@ =~= old(nodes)@ + button_nodes(slot, at));
}

/// Plans the subtree of one popup, created when the clock reads `now`
/// nanoseconds: root, frame, text and action row, then the confirm button
/// and the dismiss button where the request has them; the root's layout
/// for the placement; and the one expiry marker that the timeout gives.
pub fn generate_text_popup_from_event(shape: &TextPopupShape, now: u64) -> (r: TextPopupPlan)
    ensures
        r.nodes@ == planned_nodes(shape.has_confirm_button, shape.has_dismiss_button),
        r.justify_content == justify_of(shape.location),
        r.anchors == anchors_of(shape.location),
        r.expiry == expiry_of(shape.timeout, now),
{
    let mut nodes: Vec<PlannedNode> = Vec::new();
    nodes.push(PlannedNode { kind: PopupNodeKind::Root, parent: None });
    nodes.push(PlannedNode { kind: PopupNodeKind::Frame, parent: Some(ROOT_INDEX) });
    nodes.push(PlannedNode { kind: PopupNodeKind::Text, parent: Some(1) });
    nodes.push(PlannedNode { kind: PopupNodeKind::ActionRow, parent: Some(1) });
    assert(nodes@ =~= skeleton());
    if shape.has_confirm_button {
        push_button(&mut nodes, ButtonSlot::Confirm);
    }
    if shape.has_dismiss_button {
        push_button(&mut nodes, ButtonSlot::Dismiss);
    }
    TextPopupPlan {
        nodes,
        justify_content: root_justification(&shape.location),
        anchors: frame_anchors(&shape.location),
        expiry: shape.timeout.expiry_at(now),
    }
}

} // verus!
