//! What the registrar and the reapers together say of a popup's lifetime.

use vstd::prelude::*;
use crate::layout::{anchors_of, justify_of, FrameAnchors, FrameOffset, JustifyContent, TextPopupLocation};
use crate::markers::{deadline, expiry_of, TextPopupTimeout, NANOS_PER_SECOND};
use crate::reaper::{after_frame, clock_pass, frame_pass, survives_clock, survives_frame, TrackedPopup};

verus! {

/// A popup root stamped with the marker that `timeout` gives at clock
/// reading `created`.
pub open spec fn stamped(entity: u64, timeout: TextPopupTimeout, created: u64) -> TrackedPopup {
    TrackedPopup { entity, expiry: expiry_of(timeout, created) }
}

proof fn lemma_single_passes(p: TrackedPopup, now: u64)
    ensures
        clock_pass(seq![p], now) == if survives_clock(p, now) {
            seq![p]
        } else {
            Seq::<TrackedPopup>::empty()
        },
        frame_pass(seq![p]) == if survives_frame(p) {
            seq![after_frame(p)]
        } else {
            Seq::<TrackedPopup>::empty()
        },
{
    assert(seq![p].drop_last() =~= Seq::<TrackedPopup>::empty());
    assert(clock_pass(Seq::<TrackedPopup>::empty(), now) =~= Seq::<TrackedPopup>::empty());
    assert(frame_pass(Seq::<TrackedPopup>::empty()) =~= Seq::<TrackedPopup>::empty());
    assert(Seq::<TrackedPopup>::empty().push(p) =~= seq![p]);
    assert(Seq::<TrackedPopup>::empty().push(after_frame(p)) =~= seq![after_frame(p)]);
}

/// A popup of `Seconds(n)` created at clock reading `created` survives a
/// wall-clock pass at `now` exactly when `now` has not passed its deadline,
/// `created + n` seconds (held at the largest instant), and frame passes
/// leave it alone.
pub proof fn lemma_seconds_lifetime(entity: u64, n: u32, created: u64, now: u64)
    ensures
        ({
            let p = stamped(entity, TextPopupTimeout::Seconds(n), created);
            &&& clock_pass(seq![p], now) == if now <= deadline(created, n) {
                seq![p]
            } else {
                Seq::<TrackedPopup>::empty()
            }
            &&& frame_pass(seq![p]) == seq![p]
        }),
        created + n * NANOS_PER_SECOND <= u64::MAX ==> deadline(created, n) == created + n
            * NANOS_PER_SECOND,
{
    lemma_single_passes(stamped(entity, TextPopupTimeout::Seconds(n), created), now);
}

/// The zero timeouts: a `Seconds(0)` popup survives every wall-clock pass
/// whose clock has not moved past its creation and no other; a `Frames(0)`
/// popup is gone after its first frame pass.
pub proof fn lemma_zero_timeouts(entity: u64, created: u64, now: u64)
    ensures
        clock_pass(seq![stamped(entity, TextPopupTimeout::Seconds(0), created)], now) == if now
            <= created {
            seq![stamped(entity, TextPopupTimeout::Seconds(0), created)]
        } else {
            Seq::<TrackedPopup>::empty()
        },
        frame_pass(seq![stamped(entity, TextPopupTimeout::Frames(0), created)]) == Seq::<
            TrackedPopup,
        >::empty(),
{
    lemma_single_passes(stamped(entity, TextPopupTimeout::Seconds(0), created), now);
    lemma_single_passes(stamped(entity, TextPopupTimeout::Frames(0), created), now);
}

/// A `Never` popup is left, unchanged, by every pass of both reapers.
pub proof fn lemma_never_expires(entity: u64, created: u64, now: u64)
    ensures
        clock_pass(seq![stamped(entity, TextPopupTimeout::Never, created)], now) == seq![
            stamped(entity, TextPopupTimeout::Never, created),
        ],
        frame_pass(seq![stamped(entity, TextPopupTimeout::Never, created)]) == seq![
            stamped(entity, TextPopupTimeout::Never, created),
        ],
{
    lemma_single_passes(stamped(entity, TextPopupTimeout::Never, created), now);
}

/// A custom placement, negative coordinates included, pins the frame's
/// top-left corner at those pixels, sets no other offset and justifies the
/// root's row at its start. The expiry marker depends on the timeout alone,
/// so such a popup, even when drawn off-screen, is reaped like any other.
pub proof fn lemma_custom_location(x: i32, y: i32)
    ensures
        anchors_of(TextPopupLocation::Custom(x, y)) == (FrameAnchors {
            top: Some(FrameOffset::Px(y)),
            bottom: None,
            left: Some(FrameOffset::Px(x)),
            right: None,
        }),
        justify_of(TextPopupLocation::Custom(x, y)) == JustifyContent::Start,
{
}

} // verus!
