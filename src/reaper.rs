//! The two expiry reapers: a wall-clock pass and a frame pass, each run once
//! per tick over the popups that carry its marker.

use vstd::prelude::*;
use crate::markers::{TextPopupExpires, TextPopupExpiresInFrames, TextPopupExpiry};

verus! {

/// A live popup root, by entity identity, with its expiry marker.
#[derive(Debug, Clone, Copy, PartialEq, Eq, Structural)]
pub struct TrackedPopup {
    pub entity: u64,
    pub expiry: TextPopupExpiry,
}

/// Whether a popup is still there after a wall-clock pass at `now`: only an
/// `At(t)` marker with `t < now` removes it.
pub open spec fn survives_clock(p: TrackedPopup, now: u64) -> bool {
    match p.expiry {
        TextPopupExpiry::At(m) => !(m.expiration_time < now),
        _ => true,
    }
}

/// The frame count left after one decrement, held at zero.
pub open spec fn frames_after_tick(n: u32) -> u32 {
    if n == 0 {
        0
    } else {
        (n - 1) as u32
    }
}

/// A popup as a frame pass leaves it: frame counters go down by one.
pub open spec fn after_frame(p: TrackedPopup) -> TrackedPopup {
    match p.expiry {
        TextPopupExpiry::InFrames(m) => TrackedPopup {
            entity: p.entity,
            expiry: TextPopupExpiry::InFrames(
                TextPopupExpiresInFrames { frames_remaining: frames_after_tick(m.frames_remaining) },
            ),
        },
        _ => p,
    }
}

/// Whether a popup is still there after a frame pass: only a frame counter
/// that reaches zero removes it.
pub open spec fn survives_frame(p: TrackedPopup) -> bool {
    match p.expiry {
        TextPopupExpiry::InFrames(m) => frames_after_tick(m.frames_remaining) != 0,
        _ => true,
    }
}

/// The popups left, in order, after a wall-clock pass at `now`.
pub open spec fn clock_pass(s: Seq<TrackedPopup>, now: u64) -> Seq<TrackedPopup>
    decreases s.len(),
{
    if s.len() == 0 {
        Seq::empty()
    } else {
        let rest = clock_pass(s.drop_last(), now);
        if survives_clock(s.last(), now) {
            rest.push(s.last())
        } else {
            rest
        }
    }
}

/// The identities, in order, that a wall-clock pass at `now` despawns.
pub open spec fn clock_victims(s: Seq<TrackedPopup>, now: u64) -> Seq<u64>
    decreases s.len(),
{
    if s.len() == 0 {
        Seq::empty()
    } else {
        let rest = clock_victims(s.drop_last(), now);
        if survives_clock(s.last(), now) {
            rest
        } else {
            rest.push(s.last().entity)
        }
    }
}

/// The popups left, in order and with their counters updated, after a frame pass.
pub open spec fn frame_pass(s: Seq<TrackedPopup>) -> Seq<TrackedPopup>
    decreases s.len(),
{
    if s.len() == 0 {
        Seq::empty()
    } else {
        let rest = frame_pass(s.drop_last());
        if survives_frame(s.last()) {
            rest.push(after_frame(s.last()))
        } else {
            rest
        }
    }
}

/// The identities, in order, that a frame pass despawns.
pub open spec fn frame_victims(s: Seq<TrackedPopup>) -> Seq<u64>
    decreases s.len(),
{
    if s.len() == 0 {
        Seq::empty()
    } else {
        let rest = frame_victims(s.drop_last());
        if survives_frame(s.last()) {
            rest
        } else {
            rest.push(s.last().entity)
        }
    }
}

impl TextPopupExpires {
    /// Whether a wall-clock pass at `now` reaps this popup: strictly after
    /// the deadline, so a zero-second popup lives through the tick that made it.
    pub fn is_expired(&self, now: u64) -> (r: bool)
        ensures
            r == (self.expiration_time < now),
    {
        self.expiration_time < now
    }
}

impl TextPopupExpiresInFrames {
    /// Counts one reaper tick down, held at zero; returns whether the popup
    /// is to be despawned now.
    pub fn tick(&mut self) -> (r: bool)
        ensures
            final(self).frames_remaining == frames_after_tick(old(self).frames_remaining),
            r == (final(self).frames_remaining == 0),
    {
        self.frames_remaining = self.frames_remaining.saturating_sub(1);
        self.frames_remaining == 0
    }
}

/// One wall-clock reaper tick at clock reading `now`: keeps, in order, the
/// popups that survive and returns the identities to despawn.
pub fn cleanup_expired_text_popups(popups: &mut Vec<TrackedPopup>, now: u64) -> (despawned: Vec<u64>)
    ensures
        final(popups)@ == clock_pass(old(popups)@, now),
        despawned@ == clock_victims(old(popups)@, now),
{
    let ghost start = popups@;
    let mut kept: Vec<TrackedPopup> = Vec::new();
    let mut despawned: Vec<u64> = Vec::new();
    let mut i: usize = 0;
    while i < popups.len()
        invariant
            popups@ == start,
            i <= popups.len(),
            kept@ == clock_pass(start.take(i as int), now),
            despawned@ == clock_victims(start.take(i as int), now),
        decreases popups.len() - i,
    {
        let p = popups[i];
        assert(start.take(i + 1).drop_last() =~= start.take(i as int));
        let gone = match p.expiry {
            TextPopupExpiry::At(m) => m.is_expired(now),
            _ => false,
        };
        if gone {
            despawned.push(p.entity);
        } else {
            kept.push(p);
        }
        i = i + 1;
    }
    assert(start.take(i as int) =~= start);
    *popups = kept;
    despawned
}

/// One frame reaper tick: counts every frame marker down, keeps, in order,
/// the popups that survive and returns the identities to despawn.
pub fn cleanup_frame_expired_text_popups(popups: &mut Vec<TrackedPopup>) -> (despawned: Vec<u64>)
    ensures
        final(popups)@ == frame_pass(old(popups)@),
        despawned@ == frame_victims(old(popups)@),
{
    let ghost start = popups@;
    let mut kept: Vec<TrackedPopup> = Vec::new();
    let mut despawned: Vec<u64> = Vec::new();
    let mut i: usize = 0;
    while i < popups.len()
        invariant
            popups@ == start,
            i <= popups.len(),
            kept@ == frame_pass(start.take(i as int)),
            despawned@ == frame_victims(start.take(i as int)),
        decreases popups.len() - i,
    {
        let p = popups[i];
        assert(start.take(i + 1).drop_last() =~= start.take(i as int));
        match p.expiry {
            TextPopupExpiry::InFrames(m) => {
                let mut counter = m;
                if counter.tick() {
                    despawned.push(p.entity);
                } else {
                    kept.push(TrackedPopup { entity: p.entity, expiry: TextPopupExpiry::InFrames(counter) });
                }
            },
            _ => kept.push(p),
        }
        i = i + 1;
    }
    assert(start.take(i as int) =~= start);
    *popups = kept;
    despawned
}

/// The popups left after `k` frame passes in a row.
pub open spec fn frame_passes(s: Seq<TrackedPopup>, k: nat) -> Seq<TrackedPopup>
    decreases k,
{
    if k == 0 {
        s
    } else {
        frame_pass(frame_passes(s, (k - 1) as nat))
    }
}

proof fn lemma_clock_pass_push(s: Seq<TrackedPopup>, p: TrackedPopup, now: u64)
    ensures
        clock_pass(s.push(p), now) == if survives_clock(p, now) {
            clock_pass(s, now).push(p)
        } else {
            clock_pass(s, now)
        },
{
    assert(s.push(p).drop_last() =~= s);
}

proof fn lemma_frame_pass_push(s: Seq<TrackedPopup>, p: TrackedPopup)
    ensures
        frame_pass(s.push(p)) == if survives_frame(p) {
            frame_pass(s).push(after_frame(p))
        } else {
            frame_pass(s)
        },
{
    assert(s.push(p).drop_last() =~= s);
}

/// The two reapers commute: a wall-clock pass then a frame pass leaves the
/// same popups, in the same order and with the same markers, as a frame pass
/// then a wall-clock pass.
pub proof fn lemma_reapers_commute(s: Seq<TrackedPopup>, now: u64)
    ensures
        clock_pass(frame_pass(s), now) == frame_pass(clock_pass(s, now)),
    decreases s.len(),
{
    if s.len() > 0 {
        let rest = s.drop_last();
        let p = s.last();
        lemma_reapers_commute(rest, now);
        assert(survives_clock(after_frame(p), now) == survives_clock(p, now));
        if survives_frame(p) {
            lemma_clock_pass_push(frame_pass(rest), after_frame(p), now);
        }
        if survives_clock(p, now) {
            lemma_frame_pass_push(clock_pass(rest, now), p);
        }
    }
}

/// A wall-clock pass treats every popup on its own: over two groups of
/// popups it leaves what it leaves of each group.
pub proof fn lemma_clock_pass_independent(a: Seq<TrackedPopup>, b: Seq<TrackedPopup>, now: u64)
    ensures
        clock_pass(a + b, now) == clock_pass(a, now) + clock_pass(b, now),
    decreases b.len(),
{
    if b.len() == 0 {
        assert(a + b =~= a);
        assert(clock_pass(a, now) + clock_pass(b, now) =~= clock_pass(a, now));
    } else {
        let rest = b.drop_last();
        let p = b.last();
        lemma_clock_pass_independent(a, rest, now);
        assert(a + b =~= (a + rest).push(p));
        lemma_clock_pass_push(a + rest, p, now);
        lemma_clock_pass_push(rest, p, now);
        assert(rest.push(p) =~= b);
        assert((clock_pass(a, now) + clock_pass(rest, now)).push(p) =~= clock_pass(a, now) + clock_pass(rest, now).push(p));
    }
}

/// A frame pass treats every popup on its own: over two groups of popups it
/// leaves what it leaves of each group.
pub proof fn lemma_frame_pass_independent(a: Seq<TrackedPopup>, b: Seq<TrackedPopup>)
    ensures
        frame_pass(a + b) == frame_pass(a) + frame_pass(b),
    decreases b.len(),
{
    if b.len() == 0 {
        assert(a + b =~= a);
        assert(frame_pass(a) + frame_pass(b) =~= frame_pass(a));
    } else {
        let rest = b.drop_last();
        let p = b.last();
        lemma_frame_pass_independent(a, rest);
        assert(a + b =~= (a + rest).push(p));
        lemma_frame_pass_push(a + rest, p);
        lemma_frame_pass_push(rest, p);
        assert(rest.push(p) =~= b);
        assert((frame_pass(a) + frame_pass(rest)).push(after_frame(p)) =~= frame_pass(a) + frame_pass(rest).push(after_frame(p)));
    }
}

/// A popup root under a frame counter of `n`.
pub open spec fn frame_popup(entity: u64, n: u32) -> TrackedPopup {
    TrackedPopup {
        entity,
        expiry: TextPopupExpiry::InFrames(TextPopupExpiresInFrames { frames_remaining: n }),
    }
}

/// A popup stamped with `n` frames is still there after `k` frame passes,
/// its counter reading `n - k`, exactly when `k < max(n, 1)`; after that it
/// is gone for good. Its first pass comes on the tick after the one whose
/// commands spawned it, so it stays through tick `max(n, 1)` after that one.
pub proof fn lemma_frame_countdown(entity: u64, n: u32, k: nat)
    ensures
        frame_passes(seq![frame_popup(entity, n)], k) == if k == 0 || k < n {
            seq![frame_popup(entity, (n - k) as u32)]
        } else {
            Seq::<TrackedPopup>::empty()
        },
    decreases k,
{
    if k > 0 {
        lemma_frame_countdown(entity, n, (k - 1) as nat);
        if (k - 1) as nat == 0 || ((k - 1) as nat) < n {
            let q = frame_popup(entity, (n - (k - 1)) as u32);
            lemma_frame_pass_push(Seq::empty(), q);
            assert(Seq::<TrackedPopup>::empty().push(q) =~= seq![q]);
            assert(frame_pass(Seq::<TrackedPopup>::empty()) =~= Seq::<TrackedPopup>::empty());
        } else {
            assert(frame_pass(Seq::<TrackedPopup>::empty()) =~= Seq::<TrackedPopup>::empty());
        }
    }
}

} // verus!
