//! Sprite-sheet animation driver: a bounded frame index that advances
//! by one, wrapping from the last frame back to the first, each time a
//! repeating timer completes an interval.

use vstd::prelude::*;
use crate::timer::Timer;

verus! {

/// Number of frames in a sprite-sheet row.
pub const FRAME_COUNT: usize = 4;

/// The per-entity animation state: the index of the frame currently
/// shown, which doubles as the sprite-sheet cell selector.
#[derive(Clone, Copy, Debug, PartialEq, Eq, Structural)]
pub struct AnimationNode {
    pub position: usize,
}

/// The next frame index: one step forward, wrapping at the frame count.
pub open spec fn spec_advance(p: usize) -> usize {
    if p < FRAME_COUNT - 1 {
        (p + 1) as usize
    } else {
        0usize
    }
}

impl AnimationNode {
    /// A node is well formed when its frame index is a valid frame.
    pub open spec fn wf(self) -> bool {
        self.position < FRAME_COUNT
    }

    /// Animation starts on the first frame.
    pub fn new() -> (n: AnimationNode)
        ensures
            n.position == 0,
            n.wf(),
    {
        AnimationNode { position: 0 }
    }
}

/// One animation update: advance the timer by `delta_ms`, and when it
/// completes an interval move the frame index one step forward, modulo
/// the frame count. Returns whether the frame changed this tick.
pub fn animation_tick(timer: &mut Timer, node: &mut AnimationNode, delta_ms: u64) -> (fired: bool)
    requires
        old(timer).wf(),
        old(timer).mode is Repeating,
        old(node).wf(),
        old(timer).elapsed_ms + delta_ms <= u64::MAX,
    ensures
        final(timer).wf(),
        final(node).wf(),
        *final(timer) == old(timer).spec_tick(delta_ms),
        fired == (old(timer).spec_completions(delta_ms) > 0),
        fired ==> final(node).position == (old(node).position + 1) % (FRAME_COUNT as int),
        fired ==> final(node).position == spec_advance(old(node).position),
        !fired ==> *final(node) == *old(node),
{
    let completions: u64 = timer.tick(delta_ms);
    if completions > 0 {
        node.position = if node.position < FRAME_COUNT - 1 {
            node.position + 1
        } else {
            0
        };
        true
    } else {
        false
    }
}

/// The animation state reached from `(t, n)` after ticking once per
/// entry of `deltas`, mirroring `animation_tick`.
pub open spec fn spec_run_animation(t: Timer, n: AnimationNode, deltas: Seq<u64>) -> (Timer, AnimationNode)
    decreases deltas.len(),
{
    if deltas.len() == 0 {
        (t, n)
    } else {
        let fired = t.spec_completions(deltas[0]) > 0;
        let n1 = if fired {
            AnimationNode { position: spec_advance(n.position) }
        } else {
            n
        };
        spec_run_animation(t.spec_tick(deltas[0]), n1, deltas.drop_first())
    }
}

/// How many of the ticks in `deltas` complete at least one interval,
/// and so advance the frame, when run from the timer state `t`.
pub open spec fn spec_count_fired(t: Timer, deltas: Seq<u64>) -> nat
    decreases deltas.len(),
{
    if deltas.len() == 0 {
        0nat
    } else {
        (if t.spec_completions(deltas[0]) > 0 {
            1nat
        } else {
            0nat
        }) + spec_count_fired(t.spec_tick(deltas[0]), deltas.drop_first())
    }
}

/// Law: however many ticks the animation runs for, and whatever their
/// durations, the frame index stays a valid frame (within `[0, 3]`);
/// each tick either leaves it unchanged or advances it by exactly one
/// modulo the frame count, never skipping and never going negative.
pub proof fn lemma_animation_run_in_bounds(t: Timer, n: AnimationNode, deltas: Seq<u64>)
    requires
        t.wf(),
        t.mode is Repeating,
        n.wf(),
    ensures
        spec_run_animation(t, n, deltas).0.wf(),
        spec_run_animation(t, n, deltas).0.mode is Repeating,
        spec_run_animation(t, n, deltas).1.wf(),
    decreases deltas.len(),
{
    if deltas.len() > 0 {
        let t1 = t.spec_tick(deltas[0]);
        let fired = t.spec_completions(deltas[0]) > 0;
        let n1 = if fired {
            AnimationNode { position: spec_advance(n.position) }
        } else {
            n
        };
        assert(t1.wf());
        assert(n1.wf());
        lemma_animation_run_in_bounds(t1, n1, deltas.drop_first());
    }
}

/// Law: the frame index advances by exactly one, modulo the frame
/// count, per tick that completes an interval — never skipping and
/// never stepping back. After any run it equals the starting index
/// plus the number of such ticks, modulo the frame count.
pub proof fn lemma_animation_advances_one_per_firing(t: Timer, n: AnimationNode, deltas: Seq<u64>)
    requires
        t.wf(),
        t.mode is Repeating,
        n.wf(),
    ensures
        spec_run_animation(t, n, deltas).1.position == (n.position + spec_count_fired(t, deltas))
            % (FRAME_COUNT as int),
    decreases deltas.len(),
{
    if deltas.len() == 0 {
        assert((n.position as int) % (FRAME_COUNT as int) == n.position);
    } else {
        let t1 = t.spec_tick(deltas[0]);
        let fired = t.spec_completions(deltas[0]) > 0;
        let n1 = if fired {
            AnimationNode { position: spec_advance(n.position) }
        } else {
            n
        };
        assert(t1.wf());
        assert(n1.wf());
        lemma_animation_advances_one_per_firing(t1, n1, deltas.drop_first());
        let rest: int = spec_count_fired(t1, deltas.drop_first()) as int;
        if fired {
            assert(n1.position == (n.position + 1) % (FRAME_COUNT as int));
            vstd::arithmetic::div_mod::lemma_add_mod_noop(
                n.position + 1,
                rest,
                FRAME_COUNT as int,
            );
            vstd::arithmetic::div_mod::lemma_add_mod_noop(
                (n.position + 1) % (FRAME_COUNT as int),
                rest,
                FRAME_COUNT as int,
            );
            vstd::arithmetic::div_mod::lemma_mod_twice(
                n.position + 1,
                FRAME_COUNT as int,
            );
        }
    }
}

} // verus!
