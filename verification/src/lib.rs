//! A sprite-sheet animation clock for a 2D game.
//!
//! An [`Animation`] owns an ordered sequence of [`Frame`]s (each a source
//! rectangle on a texture plus a display duration) together with scalar
//! playback state: an `active` flag, a `looping` flag, an elapsed-time
//! accumulator and the index of the current frame. The one transition,
//! [`Animation::advance_frame`], moves the index forward by one step,
//! wrapping to the first frame when `looping` is set and clamping at the
//! last frame otherwise. No rendering, texture loading or time-driven
//! scheduling lives here: the embedding game loop decides when to advance.
//!
//! An animation with an empty frame sequence is treated as a safe no-op by
//! `advance_frame`; [`Animation::try_get_texture_rect`] surfaces the
//! out-of-bounds case as an explicit `None` rather than a placeholder
//! rectangle.

use vstd::prelude::*;
use vstd::arithmetic::div_mod::lemma_small_mod;
use vstd::arithmetic::div_mod::lemma_mod_multiples_basic;
use vstd::arithmetic::div_mod::lemma_mod_add_multiples_vanish;

verus! {

/// A source-region descriptor: the top-left offset and extent of one frame's
/// artwork inside a larger texture. A pure value; non-negative width and
/// height are the caller's responsibility and are not enforced here.
#[derive(Clone, Copy, Debug, PartialEq, Eq, Structural)]
pub struct Rect {
    pub x: i32,
    pub y: i32,
    pub width: i32,
    pub height: i32,
}

/// One step of an animation: the sub-image to display and how long it should
/// stay current under a time-driven scheduler. The duration is carried in the
/// data model but is not consumed by `advance_frame`, which advances on
/// demand.
#[derive(Clone, Copy, Debug, PartialEq, Eq, Structural)]
pub struct Frame {
    pub rect: Rect,
    pub time_to_next_frame: u32,
}

/// Playback state over an ordered frame sequence. Insertion order of
/// `frames` is playback order.
pub struct Animation {
    pub active: bool,
    pub looping: bool,
    pub frames: Vec<Frame>,
    pub ellapsed_ms: u32,
    pub current_frame: usize,
}

/// The frame index after one advance step, as a function of the playback
/// flags, the number of frames and the current index. An inactive animation
/// and one with no frames do not move; at the last frame the index wraps to
/// zero when looping and stays put otherwise; anywhere else it moves forward
/// by one.
pub open spec fn next_index(active: bool, looping: bool, len: nat, cur: nat) -> nat {
    if !active || len == 0 {
        cur
    } else if cur >= len - 1 {
        if looping {
            0
        } else {
            cur
        }
    } else {
        cur + 1
    }
}

/// The frame index after `n` advance steps from index `cur`, iterating
/// [`next_index`] with the same flags and frame count throughout.
pub open spec fn index_after(active: bool, looping: bool, len: nat, cur: nat, n: nat) -> nat
    decreases n,
{
    if n == 0 {
        cur
    } else {
        index_after(active, looping, len, next_index(active, looping, len, cur), (n - 1) as nat)
    }
}

impl Animation {
    /// The current index is valid whenever any frames exist.
    pub open spec fn wf(self) -> bool {
        self.frames@.len() > 0 ==> (self.current_frame as nat) < self.frames@.len()
    }

    /// Move to the next frame of the sequence. Does nothing when the
    /// animation is inactive or has no frames; at the last frame the index
    /// wraps to zero when looping and is left in place otherwise; anywhere
    /// else it is incremented. Only `current_frame` ever changes.
    pub fn advance_frame(&mut self)
        ensures
            final(self).active == old(self).active,
            final(self).looping == old(self).looping,
            final(self).frames == old(self).frames,
            final(self).ellapsed_ms == old(self).ellapsed_ms,
            final(self).current_frame as nat == next_index(
                old(self).active,
                old(self).looping,
                old(self).frames@.len(),
                old(self).current_frame as nat,
            ),
            old(self).wf() ==> final(self).wf(),
    {
        if !self.active {
            return;
        }

        let len = self.frames.len();
        if len == 0 {
            return;
        }

        if self.current_frame >= len - 1 {
            if self.looping {
                self.current_frame = 0;
            }
        } else {
            self.current_frame = self.current_frame + 1;
        }
    }

    /// A copy of the source rectangle of the current frame, untransformed:
    /// its fields equal those of `frames[current_frame].rect` exactly. The
    /// index must be valid; callers that cannot promise that use
    /// [`Animation::try_get_texture_rect`].
    pub fn get_texture_rect(&self) -> (r: Rect)
        requires
            (self.current_frame as nat) < self.frames@.len(),
        ensures
            r == self.frames@[self.current_frame as int].rect,
    {
        let active_frame = &self.frames[self.current_frame];

        Rect {
            x: active_frame.rect.x,
            y: active_frame.rect.y,
            width: active_frame.rect.width,
            height: active_frame.rect.height,
        }
    }

    /// The current frame's source rectangle, or `None` exactly when
    /// `current_frame` is out of bounds (in particular when the frame
    /// sequence is empty). This is the explicit failure channel for the
    /// invalid-frame-index condition.
    pub fn try_get_texture_rect(&self) -> (r: Option<Rect>)
        ensures
            (self.current_frame as nat) < self.frames@.len() ==> r == Some(
                self.frames@[self.current_frame as int].rect,
            ),
            (self.current_frame as nat) >= self.frames@.len() ==> r is None,
    {
        if self.current_frame < self.frames.len() {
            Some(self.get_texture_rect())
        } else {
            None
        }
    }
}

impl Default for Animation {
    /// A fresh animation: active and looping, with no frames, no elapsed
    /// time, at index zero. Callers populate `frames` before use.
    fn default() -> (a: Animation)
        ensures
            a.active,
            a.looping,
            a.ellapsed_ms == 0,
            a.current_frame == 0,
            a.frames@.len() == 0,
    {
        Animation {
            active: true,
            looping: true,
            ellapsed_ms: 0,
            current_frame: 0,
            frames: Vec::new(),
        }
    }
}

/// Law: an inactive animation never moves, whatever the looping flag, the
/// frame count, the starting index or the number of advance calls.
pub proof fn lemma_inactive_never_advances(looping: bool, len: nat, cur: nat, n: nat)
    ensures
        index_after(false, looping, len, cur, n) == cur,
    decreases n,
{
    if n > 0 {
        lemma_inactive_never_advances(looping, len, cur, (n - 1) as nat);
    }
}

/// Law: an active, non-looping animation walks forward one index per call
/// and clamps at the last frame: after `n` calls from a valid index `cur`
/// the index is `cur + n`, capped at `len - 1`.
pub proof fn lemma_non_looping_clamps(len: nat, cur: nat, n: nat)
    requires
        len >= 1,
        cur < len,
    ensures
        index_after(true, false, len, cur, n) == if cur + n < len {
            cur + n
        } else {
            (len - 1) as nat
        },
    decreases n,
{
    if n > 0 {
        let next = next_index(true, false, len, cur);
        lemma_non_looping_clamps(len, next, (n - 1) as nat);
    }
}

/// Law: an active, non-looping animation with at least two frames, started
/// at index zero, reaches the last index after `len - 1` calls, and any
/// number of further calls leaves it there.
pub proof fn lemma_non_looping_reaches_and_stays(len: nat, n: nat)
    requires
        len >= 2,
    ensures
        index_after(true, false, len, 0, (len - 1) as nat) == len - 1,
        n >= len - 1 ==> index_after(true, false, len, 0, n) == len - 1,
{
    lemma_non_looping_clamps(len, 0, (len - 1) as nat);
    lemma_non_looping_clamps(len, 0, n);
}

/// Law: an active, looping animation cycles: after `n` calls from a valid
/// index `cur` the index is `(cur + n) mod len`.
pub proof fn lemma_looping_mod(len: nat, cur: nat, n: nat)
    requires
        len >= 1,
        cur < len,
    ensures
        index_after(true, true, len, cur, n) == ((cur + n) as int) % (len as int),
    decreases n,
{
    if n == 0 {
        lemma_small_mod(cur, len);
    } else {
        let next = next_index(true, true, len, cur);
        lemma_looping_mod(len, next, (n - 1) as nat);
        if cur >= len - 1 {
            lemma_mod_add_multiples_vanish((n - 1) as int, len as int);
        }
    }
}

/// Law: an active, looping animation with at least two frames, started at
/// index zero, returns to index zero after any whole number of full cycles
/// of `len` calls.
pub proof fn lemma_looping_full_cycles(len: nat, k: nat)
    requires
        len >= 2,
        k >= 1,
    ensures
        index_after(true, true, len, 0, k * len) == 0,
{
    lemma_looping_mod(len, 0, k * len);
    lemma_mod_multiples_basic(k as int, len as int);
}

} // verus!

