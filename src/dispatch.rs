//! The interaction dispatcher: which button actions a tick's interaction
//! changes invoke, and with which popup root.

use vstd::prelude::*;

verus! {

/// The interaction state of a button node.
#[derive(Debug, Clone, Copy, PartialEq, Eq, Structural)]
pub enum Interaction {
    Pressed,
    Hovered,
    /// Neither pressed nor hovered.
    Idle,
}

/// A button whose interaction state changed this tick: its new state and
/// the root of the popup that its action is bound to.
#[derive(Debug, Clone, Copy, PartialEq, Eq, Structural)]
pub struct ButtonChange {
    pub interaction: Interaction,
    pub root_id: u64,
}

/// One action to invoke: the button's index among the tick's changes, and
/// the popup root to hand to its action.
#[derive(Debug, Clone, Copy, PartialEq, Eq, Structural)]
pub struct ActionCall {
    pub button: usize,
    pub root_id: u64,
}

/// `calls` invokes, in order of the changes, one action for each change
/// into `Pressed`, each with that button's root, and nothing else.
pub open spec fn dispatches(changes: Seq<ButtonChange>, calls: Seq<ActionCall>) -> bool {
    &&& forall|k: int|
        0 <= k < calls.len() ==> {
            let b = (#[trigger] calls[k]).button as int;
            &&& 0 <= b < changes.len()
            &&& changes[b].interaction == Interaction::Pressed
            &&& calls[k].root_id == changes[b].root_id
        }
    &&& forall|k1: int, k2: int|
        0 <= k1 < k2 < calls.len() ==> (#[trigger] calls[k1]).button < (#[trigger] calls[k2]).button
    &&& forall|j: int|
        0 <= j < changes.len() && (#[trigger] changes[j]).interaction == Interaction::Pressed
            ==> exists|k: int| 0 <= k < calls.len() && (#[trigger] calls[k]).button == j
}

impl Interaction {
    /// Whether a change into this state invokes the button's action: only
    /// `Pressed` does; hovering and leaving are without effect.
    pub fn invokes_action(&self) -> (r: bool)
        ensures
            r == (*self == Interaction::Pressed),
    {
        match self {
            Interaction::Pressed => true,
            Interaction::Hovered => false,
            Interaction::Idle => false,
        }
    }
}

/// The actions that one tick's button changes invoke: one per change into
/// `Pressed`, in order, each with the root that the button is bound to.
pub fn text_popup_button_system(changes: &Vec<ButtonChange>) -> (calls: Vec<ActionCall>)
    ensures
        dispatches(changes@, calls@),
{
    let mut calls: Vec<ActionCall> = Vec::new();
    let mut i: usize = 0;
    while i < changes.len()
        invariant
            i <= changes.len(),
            forall|k: int|
                0 <= k < calls.len() ==> {
                    let b = (#[trigger] calls@[k]).button as int;
                    &&& 0 <= b < i
                    &&& changes@[b].interaction == Interaction::Pressed
                    &&& calls@[k].root_id == changes@[b].root_id
                },
            forall|k1: int, k2: int|
                0 <= k1 < k2 < calls.len() ==> (#[trigger] calls@[k1]).button < (#[trigger] calls@[k2]).button,
            forall|j: int|
                0 <= j < i && (#[trigger] changes@[j]).interaction == Interaction::Pressed
                    ==> exists|k: int| 0 <= k < calls.len() && (#[trigger] calls@[k]).button == j,
        decreases changes.len() - i,
    {
        let change = changes[i];
        if change.interaction.invokes_action() {
            let ghost before = calls@;
            calls.push(ActionCall { button: i, root_id: change.root_id });
            assert forall|j: int|
                0 <= j <= i && (#[trigger] changes@[j]).interaction == Interaction::Pressed
                    implies exists|k: int| 0 <= k < calls.len() && (#[trigger] calls@[k]).button == j by {
                if j < i {
                    let k = choose|k: int| 0 <= k < before.len() && (#[trigger] before[k]).button == j;
                    assert(calls@[k] == before[k]);
                } else {
                    assert(calls@[before.len() as int].button == j);
                }
            }
        }
        i = i + 1;
    }
    calls
}

/// Each press invokes exactly one action, with its button's root, and a
/// change into any other state invokes none.
pub proof fn lemma_one_call_per_press(changes: Seq<ButtonChange>, calls: Seq<ActionCall>, j: int)
    requires
        dispatches(changes, calls),
        0 <= j < changes.len(),
    ensures
        changes[j].interaction == Interaction::Pressed ==> exists|k: int|
            0 <= k < calls.len() && (#[trigger] calls[k]).button == j && calls[k].root_id == changes[j].root_id,
        forall|k1: int, k2: int|
            0 <= k1 < calls.len() && 0 <= k2 < calls.len() && (#[trigger] calls[k1]).button == j
                && (#[trigger] calls[k2]).button == j ==> k1 == k2,
        changes[j].interaction != Interaction::Pressed ==> forall|k: int|
            0 <= k < calls.len() ==> (#[trigger] calls[k]).button != j,
{
    if changes[j].interaction == Interaction::Pressed {
        let k = choose|k: int| 0 <= k < calls.len() && (#[trigger] calls[k]).button == j;
        assert(calls[k].root_id == changes[j].root_id);
    }
    assert forall|k1: int, k2: int|
        0 <= k1 < calls.len() && 0 <= k2 < calls.len() && (#[trigger] calls[k1]).button == j
            && (#[trigger] calls[k2]).button == j implies k1 == k2 by {
        if k1 < k2 {
            assert(calls[k1].button < calls[k2].button);
        } else if k2 < k1 {
            assert(calls[k2].button < calls[k1].button);
        }
    }
}

} // verus!
