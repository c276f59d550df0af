//! Popup markers and the registrar that stamps one expiry marker per root.

use vstd::prelude::*;

verus! {

/// Nanoseconds in one second of clock time.
pub const NANOS_PER_SECOND: u64 = 1_000_000_000;

/// Tags the root node of every popup.
#[derive(Debug, Clone, Copy, PartialEq, Eq, Structural)]
pub struct TextPopup;

/// Marks a popup that is only removed by a button action or an explicit despawn.
#[derive(Debug, Clone, Copy, PartialEq, Eq, Structural)]
pub struct TextPopupNeverExpires;

/// Marks a popup that is removed once the clock has passed `expiration_time`
/// (nanoseconds since the clock started).
#[derive(Debug, Clone, Copy, PartialEq, Eq, Structural)]
pub struct TextPopupExpires {
    pub expiration_time: u64,
}

/// Marks a popup that is removed after a number of reaper ticks.
#[derive(Debug, Clone, Copy, PartialEq, Eq, Structural)]
pub struct TextPopupExpiresInFrames {
    pub frames_remaining: u32,
}

/// How long a requested popup lives.
#[derive(Debug, Clone, Copy, PartialEq, Eq, Structural)]
pub enum TextPopupTimeout {
    Never,
    Seconds(u32),
    Frames(u32),
}

/// The one expiry marker that a popup root carries.
#[derive(Debug, Clone, Copy, PartialEq, Eq, Structural)]
pub enum TextPopupExpiry {
    Never(TextPopupNeverExpires),
    At(TextPopupExpires),
    InFrames(TextPopupExpiresInFrames),
}

/// The clock reading `now + seconds`, in nanoseconds, held at the largest
/// representable instant when it would not fit.
pub open spec fn deadline(now: u64, seconds: u32) -> u64 {
    let t = now + seconds * NANOS_PER_SECOND;
    if t <= u64::MAX {
        t as u64
    } else {
        u64::MAX
    }
}

/// The marker that a timeout chosen at clock reading `now` stamps on the root.
pub open spec fn expiry_of(timeout: TextPopupTimeout, now: u64) -> TextPopupExpiry {
    match timeout {
        TextPopupTimeout::Never => TextPopupExpiry::Never(TextPopupNeverExpires),
        TextPopupTimeout::Seconds(n) => TextPopupExpiry::At(
            TextPopupExpires { expiration_time: deadline(now, n) },
        ),
        TextPopupTimeout::Frames(n) => TextPopupExpiry::InFrames(
            TextPopupExpiresInFrames { frames_remaining: n },
        ),
    }
}

impl TextPopupTimeout {
    /// The expiry marker for this timeout, for a popup created when the clock
    /// reads `now` nanoseconds.
    pub fn expiry_at(&self, now: u64) -> (r: TextPopupExpiry)
        ensures
            r == expiry_of(*self, now),
    {
        match self {
            TextPopupTimeout::Never => TextPopupExpiry::Never(TextPopupNeverExpires),
            TextPopupTimeout::Seconds(n) => {
                let span: u64 = *n as u64 * NANOS_PER_SECOND;
                TextPopupExpiry::At(TextPopupExpires { expiration_time: now.saturating_add(span) })
            },
            TextPopupTimeout::Frames(n) => TextPopupExpiry::InFrames(
                TextPopupExpiresInFrames { frames_remaining: *n },
            ),
        }
    }
}

} // verus!
