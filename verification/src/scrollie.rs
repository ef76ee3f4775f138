//! The scroll viewport state machine.
//!
//! [`State`] persists across frames and carries everything the viewport
//! knows: its own bounds, the aggregate content bounds, the previous
//! frame's layout table, the scroll offset (`translation`), the smooth
//! scroll animation, and a flag recording that the offset changed this
//! frame so the host can be notified once.
//!
//! Per frame the host drives three passes, in order: the layout pass
//! ([`State::update_layout`]), the input/event pass
//! ([`State::add_scroll_delta`] and the direct scroll operations), and the
//! redraw-tick pass ([`State::tick`]). All of them hold the hard clamp
//! `0 <= translation <= max(0, content_height - viewport_height)`.

use vstd::prelude::*;

use crate::geometry::{clamp_spec, ItemExtent, Rect, MAX_DIM, SIGMA};
use crate::layout::{
    content_rect, entry_heights, stack_items, stacked_table, sum_prefix, table_wf, total_height,
    LayoutEntry,
};

verus! {

/// Full animation progress, in thousandths.
pub const PROGRESS_UNIT: i64 = 1000;

/// Progress gained per elapsed millisecond, in thousandths: the rate of
/// 30 full animations per second.
pub const PROGRESS_PER_MS: i64 = 30;

/// Bound on an animation target. A target may overshoot the valid scroll
/// range while wheel deltas compose, but is kept within this bound so all
/// interpolation arithmetic stays far from `i64` overflow.
pub const MAX_TARGET: i64 = 0x4_0000_0000_0000;

/// Bound on a single scroll delta accepted by the viewport.
pub const MAX_DELTA: i64 = 0x2000_0000_0000;

/// The non-negative part of `v`.
pub open spec fn max0(v: int) -> int {
    if v > 0 {
        v
    } else {
        0
    }
}

/// The viewport edge `translation + viewport_height` sits strictly within
/// [`SIGMA`] of the content height.
pub open spec fn at_bottom_spec(translation: int, viewport_height: int, content_height: int) -> bool {
    content_height - SIGMA < translation + viewport_height < content_height + SIGMA
}

/// A smooth scroll in flight, or nothing.
#[derive(Clone, Copy, Debug, PartialEq, Eq, Structural)]
pub enum AnimationState {
    Idle,
    Animating { start: i64, target: i64, progress: i64 },
}

/// What the viewport reports when its offset changed: the new offset and
/// the rectangles a consumer needs to derive "at top" / "at bottom".
#[derive(Clone, Copy, Debug, PartialEq, Eq, Structural)]
pub struct ScrollViewport {
    pub translation: i64,
    pub bounds: Rect,
    pub content_bounds: Rect,
}

/// The retained state of one scroll viewport instance.
pub struct State {
    /// Last-known visible rectangle of the viewport itself.
    pub bounds: Rect,
    /// Union of all item bounds from the last layout pass.
    pub content_bounds: Rect,
    /// The last layout pass's table, used to locate the anchor item.
    pub layouts: Vec<LayoutEntry>,
    /// Vertical distance from the content top to the viewport top.
    pub translation: i64,
    /// The smooth scroll animation, if one is in flight.
    pub animation_state: AnimationState,
    /// Set while the offset has changed and no notification was taken yet.
    pub scrolled: bool,
}

/// No two entries of the layout table share a key.
pub open spec fn unique_keys(s: Seq<LayoutEntry>) -> bool {
    forall|i: int, j: int|
        0 <= i < s.len() && 0 <= j < s.len() && i != j ==> (#[trigger] s[i]).key != (#[trigger] s[j]).key
}

impl State {
    /// Greatest valid scroll offset: content below the viewport, or 0 when
    /// the content fits entirely.
    pub open spec fn max_scroll(self) -> int {
        max0(self.content_bounds.height - self.bounds.height)
    }

    /// The hard clamp every pass re-establishes.
    pub open spec fn translation_in_range(self) -> bool {
        0 <= self.translation <= self.max_scroll()
    }

    /// An in-flight animation keeps its start inside the valid scroll
    /// range and its target within [`MAX_TARGET`].
    pub open spec fn anim_wf(self) -> bool {
        match self.animation_state {
            AnimationState::Idle => true,
            AnimationState::Animating { start, target, progress } => {
                &&& 0 <= start <= self.max_scroll()
                &&& -MAX_TARGET <= target <= MAX_TARGET
                &&& 0 <= progress <= PROGRESS_UNIT
            },
        }
    }

    /// Well-formedness: sound geometry, a layout table that matches the
    /// content bounds with unique keys, and the clamp invariants.
    pub open spec fn wf(self) -> bool {
        &&& self.bounds.wf()
        &&& self.content_bounds.wf()
        &&& table_wf(self.layouts@, self.content_bounds)
        &&& unique_keys(self.layouts@)
        &&& self.translation_in_range()
        &&& self.anim_wf()
    }

    /// `self` with any in-flight animation discarded.
    pub open spec fn cancel_animation(self) -> State {
        State { animation_state: AnimationState::Idle, ..self }
    }

    /// `self` scrolled directly to offset `y`: the offset is clamped into
    /// the valid range, and the change is recorded for notification.
    pub open spec fn scrolled_to(self, y: int) -> State {
        let t = clamp_spec(y, 0, self.max_scroll());
        State {
            translation: t as i64,
            scrolled: self.scrolled || t != self.translation,
            ..self
        }
    }

    /// A fresh viewport: empty, parked at offset 0.
    pub fn new() -> (s: State)
        ensures
            s.bounds.x == 0 && s.bounds.y == 0 && s.bounds.width == 0 && s.bounds.height == 0,
            s.content_bounds == s.bounds,
            s.layouts@.len() == 0,
            s.translation == 0,
            s.animation_state is Idle,
            s.scrolled == false,
            s.wf(),
    {
        State {
            bounds: Rect::zero(),
            content_bounds: Rect::zero(),
            layouts: Vec::new(),
            translation: 0,
            animation_state: AnimationState::Idle,
            scrolled: false,
        }
    }

    /// The greatest valid scroll offset, computed.
    pub fn max_scroll_offset(&self) -> (r: i64)
        requires
            self.bounds.wf(),
            self.content_bounds.wf(),
        ensures
            r == self.max_scroll(),
    {
        let d = self.content_bounds.height - self.bounds.height;
        if d > 0 {
            d
        } else {
            0
        }
    }

    /// Clamp the offset into the valid range against the current bounds.
    fn clamp(&mut self)
        requires
            old(self).bounds.wf(),
            old(self).content_bounds.wf(),
        ensures
            *final(self) == (State {
                translation: clamp_spec(
                    old(self).translation as int,
                    0,
                    old(self).max_scroll(),
                ) as i64,
                ..*old(self)
            }),
    {
        let hi = self.max_scroll_offset();
        self.translation = crate::geometry::clamp_i64(self.translation, 0, hi);
    }

    /// Whether the viewport would be at the bottom of the given geometry.
    ///
    /// The anchor decision evaluates this against the previous frame's
    /// rectangles, so the geometry is a parameter rather than `self`'s.
    pub fn is_at_bottom(&self, bounds: Rect, content_bounds: Rect) -> (r: bool)
        requires
            self.translation_in_range(),
            self.bounds.wf(),
            self.content_bounds.wf(),
            bounds.wf(),
            content_bounds.wf(),
        ensures
            r == at_bottom_spec(
                self.translation as int,
                bounds.height as int,
                content_bounds.height as int,
            ),
    {
        let edge = self.translation + bounds.height;
        edge < content_bounds.height + SIGMA && edge > content_bounds.height - SIGMA
    }

    /// Whether the offset sits strictly within [`SIGMA`] of the top.
    pub fn is_at_top(&self) -> (r: bool)
        ensures
            r == (-SIGMA < self.translation < SIGMA),
    {
        self.translation < SIGMA && self.translation > -SIGMA
    }

    /// Scroll directly to `translation`, clamped; an in-flight animation
    /// is left untouched.
    pub fn scroll_to(&mut self, translation: i64)
        requires
            old(self).wf(),
        ensures
            *final(self) == old(self).scrolled_to(translation as int),
            final(self).wf(),
    {
        let prev = self.translation;
        self.translation = translation;
        self.clamp();
        if self.translation != prev {
            self.scrolled = true;
        }
    }

    /// Jump to the top of item `idx`, immediately and without animation;
    /// an in-flight animation is cancelled. An out-of-range index is a
    /// no-op.
    pub fn scroll_to_idx(&mut self, idx: usize)
        requires
            old(self).wf(),
        ensures
            idx < old(self).layouts@.len() ==> *final(self) == old(self).cancel_animation()
                .scrolled_to(old(self).layouts@[idx as int].bounds.y as int),
            idx >= old(self).layouts@.len() ==> *final(self) == *old(self),
            final(self).wf(),
    {
        if idx < self.layouts.len() {
            self.animation_state = AnimationState::Idle;
            let y = self.layouts[idx].bounds.y;
            self.scroll_to(y);
        }
    }

    /// Whether an animation is in flight — while one is, the viewport
    /// wants another redraw tick, so the animation drives its own
    /// continuation.
    pub fn is_animating(&self) -> (r: bool)
        ensures
            r == (self.animation_state is Animating),
    {
        match self.animation_state {
            AnimationState::Animating { .. } => true,
            AnimationState::Idle => false,
        }
    }

    /// Hand out the pending change notification, if the offset changed
    /// since the last call, and clear the flag.
    pub fn take_notification(&mut self) -> (r: Option<ScrollViewport>)
        requires
            old(self).wf(),
        ensures
            old(self).scrolled ==> {
                &&& r == Some(ScrollViewport {
                    translation: old(self).translation,
                    bounds: old(self).bounds,
                    content_bounds: old(self).content_bounds,
                })
                &&& *final(self) == (State { scrolled: false, ..*old(self) })
            },
            !old(self).scrolled ==> r is None && *final(self) == *old(self),
            final(self).wf(),
    {
        if self.scrolled {
            self.scrolled = false;
            Some(ScrollViewport {
                translation: self.translation,
                bounds: self.bounds,
                content_bounds: self.content_bounds,
            })
        } else {
            None
        }
    }
}

/// The vertical span of `e` contains offset `t`.
pub open spec fn entry_contains(e: LayoutEntry, t: int) -> bool {
    e.bounds.y <= t < e.bounds.y + e.bounds.height
}

/// `i` is the first entry of `s` whose span contains `t`: the anchor item.
pub open spec fn is_anchor(s: Seq<LayoutEntry>, t: int, i: int) -> bool {
    &&& 0 <= i < s.len()
    &&& entry_contains(s[i], t)
    &&& forall|j: int| 0 <= j < i ==> !entry_contains(#[trigger] s[j], t)
}

/// Some entry of `s` contains `t`.
pub open spec fn has_anchor(s: Seq<LayoutEntry>, t: int) -> bool {
    exists|i: int| is_anchor(s, t, i)
}

/// The index of the anchor item (meaningful only when one exists).
pub open spec fn anchor_index(s: Seq<LayoutEntry>, t: int) -> int {
    choose|i: int| is_anchor(s, t, i)
}

/// Some entry of `s` carries key `k`.
pub open spec fn has_key(s: Seq<LayoutEntry>, k: u64) -> bool {
    exists|i: int| 0 <= i < s.len() && (#[trigger] s[i]).key == k
}

/// The index of the entry carrying key `k` (meaningful only when one
/// exists; unique under [`unique_keys`]).
pub open spec fn key_index(s: Seq<LayoutEntry>, k: u64) -> int {
    choose|i: int| 0 <= i < s.len() && (#[trigger] s[i]).key == k
}

/// There is at most one anchor for a given offset.
pub proof fn lemma_anchor_unique(s: Seq<LayoutEntry>, t: int, i: int)
    requires
        is_anchor(s, t, i),
    ensures
        has_anchor(s, t),
        anchor_index(s, t) == i,
{
    let a = anchor_index(s, t);
    assert(is_anchor(s, t, a));
    if a < i {
        assert(entry_contains(s[a], t));
    } else if a > i {
        assert(entry_contains(s[i], t));
    }
}

/// Where the offset `t` moves under anchor preservation: the anchor item
/// of the old table is located in the new table by key (falling back to
/// the same numeric index if the key is gone, and to no adjustment at all
/// if that index is gone too), and `t` keeps its offset within the item.
/// With no anchor, `t` is unchanged.
pub open spec fn anchored_translation(
    old_table: Seq<LayoutEntry>,
    new_table: Seq<LayoutEntry>,
    t: int,
) -> int {
    if !has_anchor(old_table, t) {
        t
    } else {
        let i = anchor_index(old_table, t);
        let k = old_table[i].key;
        if has_key(new_table, k) {
            new_table[key_index(new_table, k)].bounds.y + (t - old_table[i].bounds.y)
        } else if i < new_table.len() {
            new_table[i].bounds.y + (t - old_table[i].bounds.y)
        } else {
            t
        }
    }
}

/// The lesser of `a` and `b`.
pub open spec fn spec_min(a: int, b: int) -> int {
    if a < b {
        a
    } else {
        b
    }
}

/// Linear interpolation from `start` toward `target` at `progress`
/// thousandths, rounding the travelled distance down.
pub open spec fn lerp_spec(start: int, target: int, progress: int) -> int {
    if target >= start {
        start + (progress * (target - start)) / (PROGRESS_UNIT as int)
    } else {
        start - (progress * (start - target)) / (PROGRESS_UNIT as int)
    }
}

impl State {
    /// `self` with a new scroll delta folded into the animator: the
    /// animation restarts from the current offset, and the delta is added
    /// to the previous target (composing with an animation in flight) or
    /// to the current offset.
    pub open spec fn composed_delta(self, delta: int) -> State {
        let base = match self.animation_state {
            AnimationState::Animating { target, .. } => target as int,
            AnimationState::Idle => self.translation as int,
        };
        State {
            animation_state: AnimationState::Animating {
                start: self.translation,
                target: clamp_spec(base + delta, -(MAX_TARGET as int), MAX_TARGET as int) as i64,
                progress: 0,
            },
            ..self
        }
    }

    /// `self` after a redraw tick `elapsed_ms` milliseconds after the
    /// previous one: progress advances at [`PROGRESS_PER_MS`], the offset
    /// follows the interpolation clamped into the valid range, and the
    /// animation ends once progress is full.
    pub open spec fn ticked(self, elapsed_ms: int) -> State {
        match self.animation_state {
            AnimationState::Idle => self,
            AnimationState::Animating { start, target, progress } => {
                let p2 = spec_min(
                    PROGRESS_UNIT as int,
                    progress + elapsed_ms * PROGRESS_PER_MS,
                );
                let t = clamp_spec(lerp_spec(start as int, target as int, p2), 0, self.max_scroll());
                State {
                    translation: t as i64,
                    scrolled: self.scrolled || t != self.translation,
                    animation_state: if p2 >= PROGRESS_UNIT {
                        AnimationState::Idle
                    } else {
                        AnimationState::Animating { start, target, progress: p2 as i64 }
                    },
                    ..self
                }
            },
        }
    }

    /// Fold one scroll delta (from a wheel tick, page key, or similar)
    /// into the animator, per [`State::composed_delta`].
    pub fn add_scroll_delta(&mut self, delta: i64)
        requires
            old(self).wf(),
            -MAX_DELTA <= delta <= MAX_DELTA,
        ensures
            *final(self) == old(self).composed_delta(delta as int),
            final(self).wf(),
    {
        let base = match self.animation_state {
            AnimationState::Animating { target, .. } => target,
            AnimationState::Idle => self.translation,
        };
        let target = crate::geometry::clamp_i64(base + delta, -MAX_TARGET, MAX_TARGET);
        self.animation_state = AnimationState::Animating {
            start: self.translation,
            target,
            progress: 0,
        };
    }

    /// Advance the animation by one redraw tick, per [`State::ticked`].
    /// With no animation in flight the tick changes nothing.
    pub fn tick(&mut self, elapsed_ms: u64)
        requires
            old(self).wf(),
        ensures
            *final(self) == old(self).ticked(elapsed_ms as int),
            final(self).wf(),
    {
        match self.animation_state {
            AnimationState::Idle => {},
            AnimationState::Animating { start, target, progress } => {
                let gained = if elapsed_ms >= 34 {
                    PROGRESS_UNIT
                } else {
                    (elapsed_ms as i64) * PROGRESS_PER_MS
                };
                let p2 = if progress + gained >= PROGRESS_UNIT {
                    PROGRESS_UNIT
                } else {
                    progress + gained
                };
                assert(p2 == spec_min(
                    PROGRESS_UNIT as int,
                    progress + elapsed_ms * PROGRESS_PER_MS,
                ));
                let span: u64 = if target >= start {
                    (target - start) as u64
                } else {
                    (start - target) as u64
                };
                proof {
                    vstd::arithmetic::mul::lemma_mul_inequality(0, p2 as int, span as int);
                    vstd::arithmetic::mul::lemma_mul_inequality(
                        p2 as int,
                        PROGRESS_UNIT as int,
                        span as int,
                    );
                    vstd::arithmetic::div_mod::lemma_div_is_ordered(
                        0,
                        (p2 as int) * (span as int),
                        PROGRESS_UNIT as int,
                    );
                    vstd::arithmetic::div_mod::lemma_div_is_ordered(
                        (p2 as int) * (span as int),
                        (PROGRESS_UNIT as int) * (span as int),
                        PROGRESS_UNIT as int,
                    );
                    vstd::arithmetic::div_mod::lemma_div_multiples_vanish(
                        span as int,
                        PROGRESS_UNIT as int,
                    );
                }
                let travelled = (p2 as u64) * span / (PROGRESS_UNIT as u64);
                assert(travelled <= span);
                let raw = if target >= start {
                    start + travelled as i64
                } else {
                    start - travelled as i64
                };
                assert(raw == lerp_spec(start as int, target as int, p2 as int));
                let prev = self.translation;
                let hi = self.max_scroll_offset();
                self.translation = crate::geometry::clamp_i64(raw, 0, hi);
                if self.translation != prev {
                    self.scrolled = true;
                }
                self.animation_state = if p2 >= PROGRESS_UNIT {
                    AnimationState::Idle
                } else {
                    AnimationState::Animating { start, target, progress: p2 }
                };
            },
        }
    }

    /// Scroll to a fraction of the content height, given in thousandths,
    /// immediately; an in-flight animation is cancelled.
    pub fn snap_to(&mut self, fraction: u32)
        requires
            old(self).wf(),
            fraction <= PROGRESS_UNIT,
        ensures
            *final(self) == old(self).cancel_animation().scrolled_to(
                (old(self).content_bounds.height * fraction) / (PROGRESS_UNIT as int),
            ),
            final(self).wf(),
    {
        self.animation_state = AnimationState::Idle;
        proof {
            vstd::arithmetic::mul::lemma_mul_inequality(
                fraction as int,
                PROGRESS_UNIT as int,
                self.content_bounds.height as int,
            );
            vstd::arithmetic::div_mod::lemma_div_basics_4(
                (self.content_bounds.height as int) * (fraction as int),
                PROGRESS_UNIT as int,
            );
            vstd::arithmetic::div_mod::lemma_div_basics_5(
                (self.content_bounds.height as int) * (fraction as int),
                PROGRESS_UNIT as int,
            );
        }
        let scaled = (self.content_bounds.height as u64) * (fraction as u64)
            / (PROGRESS_UNIT as u64);
        self.scroll_to(scaled as i64);
    }

    /// Scroll to an absolute offset, immediately; an in-flight animation
    /// is cancelled.
    pub fn scroll_to_absolute(&mut self, offset: i64)
        requires
            old(self).wf(),
        ensures
            *final(self) == old(self).cancel_animation().scrolled_to(offset as int),
            final(self).wf(),
    {
        self.animation_state = AnimationState::Idle;
        let ghost hs = entry_heights(self.layouts@);
        let mut height: i64 = 0;
        let mut i: usize = 0;
        while i < self.layouts.len()
            invariant
                old(self).wf(),
                *self == (State { animation_state: AnimationState::Idle, ..*old(self) }),
                hs == entry_heights(self.layouts@),
                i <= self.layouts@.len(),
                height == sum_prefix(hs, i as int),
                0 <= height <= self.content_bounds.height,
            decreases self.layouts@.len() - i,
        {
            proof {
                crate::layout::lemma_sum_prefix_mono(hs, i as int + 1, hs.len() as int);
                crate::layout::lemma_sum_prefix_mono(hs, 0, i as int + 1);
            }
            height = height + self.layouts[i].bounds.height;
            i = i + 1;
        }
        assert(height == self.content_bounds.height);
        let capped = crate::geometry::clamp_i64(offset, 0, height);
        self.scroll_to(capped);
    }

    /// Scroll by a delta relative to the current offset, immediately; an
    /// in-flight animation is cancelled.
    pub fn scroll_by(&mut self, delta: i64)
        requires
            old(self).wf(),
            -MAX_DELTA <= delta <= MAX_DELTA,
        ensures
            *final(self) == old(self).cancel_animation().scrolled_to(
                old(self).translation + delta,
            ),
            final(self).wf(),
    {
        self.animation_state = AnimationState::Idle;
        let y = self.translation + delta;
        self.scroll_to(y);
    }
}

impl State {
    /// One anchor decision, taken once per layout pass.
    ///
    /// Evaluated against the *previous* frame's geometry: a viewport that
    /// was at the bottom sticks to the new bottom; otherwise the offset
    /// follows the anchor item per [`anchored_translation`]. Either way
    /// the offset — and any in-flight animation's start and target, the
    /// latter shifted along with the anchor — is clamped into the new
    /// valid range, and a change of offset is recorded for notification.
    pub open spec fn laid_out(
        self,
        new_layouts: Vec<LayoutEntry>,
        new_content: Rect,
        new_bounds: Rect,
    ) -> State {
        let was_at_bottom = at_bottom_spec(
            self.translation as int,
            self.bounds.height as int,
            self.content_bounds.height as int,
        );
        let raw = if was_at_bottom {
            new_content.height - new_bounds.height
        } else {
            anchored_translation(self.layouts@, new_layouts@, self.translation as int)
        };
        let shift = if was_at_bottom {
            0
        } else {
            raw - self.translation
        };
        let ms = max0(new_content.height - new_bounds.height);
        let t = clamp_spec(raw, 0, ms);
        let anim = match self.animation_state {
            AnimationState::Idle => AnimationState::Idle,
            AnimationState::Animating { start, target, progress } => AnimationState::Animating {
                start: clamp_spec(start + shift, 0, ms) as i64,
                target: clamp_spec(target + shift, 0, ms) as i64,
                progress,
            },
        };
        State {
            bounds: new_bounds,
            content_bounds: new_content,
            layouts: new_layouts,
            translation: t as i64,
            animation_state: anim,
            scrolled: self.scrolled || t != self.translation,
        }
    }

    /// The index of the anchor item: the first entry of the layout table
    /// whose vertical span contains the current offset.
    pub fn current_idx(&self) -> (r: Option<usize>)
        requires
            self.wf(),
        ensures
            match r {
                Some(i) => is_anchor(self.layouts@, self.translation as int, i as int),
                None => !has_anchor(self.layouts@, self.translation as int),
            },
    {
        let ghost s = self.layouts@;
        let ghost t = self.translation as int;
        let mut i: usize = 0;
        while i < self.layouts.len()
            invariant
                self.wf(),
                s == self.layouts@,
                t == self.translation as int,
                i <= s.len(),
                forall|j: int| 0 <= j < i ==> !entry_contains(#[trigger] s[j], t),
            decreases s.len() - i,
        {
            let e = self.layouts[i];
            if e.bounds.y <= self.translation && self.translation < e.bounds.y + e.bounds.height {
                return Some(i);
            }
            i = i + 1;
        }
        proof {
            if has_anchor(s, t) {
                let a = choose|a: int| is_anchor(s, t, a);
                assert(entry_contains(s[a], t));
            }
        }
        None
    }

    /// Record the new frame's layout and re-derive the scroll offset, per
    /// [`State::laid_out`].
    pub fn apply_layout(&mut self, new_layouts: Vec<LayoutEntry>, new_content: Rect, new_bounds: Rect)
        requires
            old(self).wf(),
            table_wf(new_layouts@, new_content),
            unique_keys(new_layouts@),
            new_bounds.wf(),
        ensures
            *final(self) == old(self).laid_out(new_layouts, new_content, new_bounds),
            final(self).wf(),
    {
        let ghost old_table = self.layouts@;
        let ghost t0 = self.translation as int;
        let was_at_bottom = self.is_at_bottom(self.bounds, self.content_bounds);
        let prev_t = self.translation;
        let mut raw: i64 = self.translation;
        let mut shift: i64 = 0;
        if was_at_bottom {
            raw = new_content.height - new_bounds.height;
        } else if let Some(idx) = self.current_idx() {
            proof {
                lemma_anchor_unique(old_table, t0, idx as int);
            }
            let cur = self.layouts[idx];
            let mut found: Option<usize> = None;
            let mut j: usize = 0;
            while j < new_layouts.len()
                invariant_except_break
                    found is None,
                invariant
                    j <= new_layouts@.len(),
                    forall|p: int| 0 <= p < j ==> (#[trigger] new_layouts@[p]).key != cur.key,
                ensures
                    match found {
                        Some(p) => p < new_layouts@.len() && new_layouts@[p as int].key == cur.key,
                        None => forall|p: int|
                            0 <= p < new_layouts@.len() ==> (#[trigger] new_layouts@[p]).key
                                != cur.key,
                    },
                decreases new_layouts@.len() - j,
            {
                if new_layouts[j].key == cur.key {
                    found = Some(j);
                    break ;
                }
                j = j + 1;
            }
            let base_y: i64 = match found {
                Some(p) => {
                    proof {
                        assert(has_key(new_layouts@, cur.key));
                        let ki = key_index(new_layouts@, cur.key);
                        assert(0 <= ki < new_layouts@.len() && new_layouts@[ki].key == cur.key);
                        assert(ki == p as int);
                    }
                    new_layouts[p].bounds.y
                },
                None => {
                    proof {
                        if has_key(new_layouts@, cur.key) {
                            let ki = choose|ki: int|
                                0 <= ki < new_layouts@.len() && (#[trigger] new_layouts@[ki]).key
                                    == cur.key;
                            assert(new_layouts@[ki].key == cur.key);
                        }
                    }
                    if idx < new_layouts.len() {
                        new_layouts[idx].bounds.y
                    } else {
                        cur.bounds.y
                    }
                },
            };
            raw = base_y + (self.translation - cur.bounds.y);
            shift = raw - prev_t;
        }
        self.layouts = new_layouts;
        self.content_bounds = new_content;
        self.bounds = new_bounds;
        self.translation = raw;
        self.clamp();
        if let AnimationState::Animating { start, target, progress } = self.animation_state {
            let hi = self.max_scroll_offset();
            self.animation_state = AnimationState::Animating {
                start: crate::geometry::clamp_i64(start + shift, 0, hi),
                target: crate::geometry::clamp_i64(target + shift, 0, hi),
                progress,
            };
        }
        if self.translation != prev_t {
            self.scrolled = true;
        }
    }

    /// One whole layout pass: stack the frame's items into a fresh layout
    /// table, then re-derive the scroll offset per [`State::laid_out`].
    pub fn update_layout(&mut self, items: &Vec<ItemExtent>, keys: &Vec<u64>, viewport: Rect)
        requires
            old(self).wf(),
            items@.len() == keys@.len(),
            forall|i: int| 0 <= i < items@.len() ==> (#[trigger] items@[i]).wf(),
            total_height(items@) <= MAX_DIM,
            keys@.no_duplicates(),
            viewport.wf(),
        ensures
            final(self).layouts@ == stacked_table(items@, keys@),
            *final(self) == old(self).laid_out(
                final(self).layouts,
                content_rect(items@),
                viewport,
            ),
            final(self).wf(),
    {
        let (table, content) = stack_items(items, keys);
        proof {
            assert forall|i: int, j: int|
                0 <= i < table@.len() && 0 <= j < table@.len() && i != j implies (#[trigger] table@[i]).key
                != (#[trigger] table@[j]).key by {
                assert(table@[i].key == keys@[i]);
                assert(table@[j].key == keys@[j]);
            }
        }
        self.apply_layout(table, content, viewport);
    }
}

/// Law: the hard clamp `0 <= translation <= max(0, content_height −
/// viewport_height)` holds of every well-formed viewport state — and every
/// pass of the viewport ensures well-formedness, so it holds after layout,
/// after an animation tick, and after any scroll operation.
pub proof fn lemma_clamp_invariant(s: State)
    requires
        s.wf(),
    ensures
        0 <= s.translation <= max0(s.content_bounds.height - s.bounds.height),
{
}

/// Law (stick to bottom): if the viewport was at the bottom before the
/// layout pass and the content has only grown — items appended, say —
/// while the viewport height is unchanged, then after the pass it is at
/// the bottom again, at exactly `content_height − viewport_height`.
pub proof fn lemma_bottom_stick(
    s: State,
    new_layouts: Vec<LayoutEntry>,
    new_content: Rect,
    new_bounds: Rect,
)
    requires
        s.wf(),
        new_content.wf(),
        new_bounds.wf(),
        at_bottom_spec(
            s.translation as int,
            s.bounds.height as int,
            s.content_bounds.height as int,
        ),
        new_bounds.height == s.bounds.height,
        new_content.height >= s.content_bounds.height,
    ensures
        s.laid_out(new_layouts, new_content, new_bounds).translation == new_content.height
            - new_bounds.height,
        at_bottom_spec(
            s.laid_out(new_layouts, new_content, new_bounds).translation as int,
            new_bounds.height as int,
            new_content.height as int,
        ),
{
}

/// Law (anchor stability): when the viewport was not at the bottom and
/// the anchor item survives the edit — an insertion or removal elsewhere
/// in the list — the offset into the anchor item is preserved exactly:
/// `new_translation − new_y == old_translation − old_y`. The one proviso
/// is that the adjusted offset lies in the new valid range, since the
/// hard clamp would otherwise pull it back in.
pub proof fn lemma_anchor_stability(
    s: State,
    new_layouts: Vec<LayoutEntry>,
    new_content: Rect,
    new_bounds: Rect,
)
    requires
        s.wf(),
        new_content.wf(),
        new_bounds.wf(),
        !at_bottom_spec(
            s.translation as int,
            s.bounds.height as int,
            s.content_bounds.height as int,
        ),
        has_anchor(s.layouts@, s.translation as int),
        has_key(
            new_layouts@,
            s.layouts@[anchor_index(s.layouts@, s.translation as int)].key,
        ),
        0 <= anchored_translation(s.layouts@, new_layouts@, s.translation as int) <= max0(
            new_content.height - new_bounds.height,
        ),
    ensures
        ({
            let i = anchor_index(s.layouts@, s.translation as int);
            let j = key_index(new_layouts@, s.layouts@[i].key);
            s.laid_out(new_layouts, new_content, new_bounds).translation
                - new_layouts@[j].bounds.y == s.translation - s.layouts@[i].bounds.y
        }),
{
}

/// Law (animation convergence): a redraw tick that brings the animation's
/// progress to full lands the offset exactly at the clamped target and
/// ends the animation, so no further interpolation frames occur.
pub proof fn lemma_animation_convergence(
    s: State,
    start: i64,
    target: i64,
    progress: i64,
    elapsed_ms: int,
)
    requires
        s.wf(),
        s.animation_state == (AnimationState::Animating { start, target, progress }),
        elapsed_ms >= 0,
        progress + elapsed_ms * PROGRESS_PER_MS >= PROGRESS_UNIT,
    ensures
        s.ticked(elapsed_ms).animation_state is Idle,
        s.ticked(elapsed_ms).translation == clamp_spec(target as int, 0, s.max_scroll()),
{
    if target >= start {
        vstd::arithmetic::div_mod::lemma_div_multiples_vanish(
            target - start,
            PROGRESS_UNIT as int,
        );
    } else {
        vstd::arithmetic::div_mod::lemma_div_multiples_vanish(
            start - target,
            PROGRESS_UNIT as int,
        );
    }
    assert(lerp_spec(start as int, target as int, PROGRESS_UNIT as int) == target as int);
}

impl ScrollViewport {
    /// Sound geometry for a reported viewport snapshot.
    pub open spec fn wf(self) -> bool {
        &&& self.bounds.wf()
        &&& self.content_bounds.wf()
        &&& 0 <= self.translation <= MAX_DIM
    }

    /// Whether the reported offset is strictly within [`SIGMA`] of the top.
    pub fn is_at_top(&self) -> (r: bool)
        ensures
            r == (self.translation < SIGMA),
    {
        self.translation < SIGMA
    }

    /// Whether the reported offset pins the viewport to the bottom of the
    /// reported content.
    pub fn is_at_bottom(&self) -> (r: bool)
        requires
            self.wf(),
        ensures
            r == at_bottom_spec(
                self.translation as int,
                self.bounds.height as int,
                self.content_bounds.height as int,
            ),
    {
        let edge = self.translation + self.bounds.height;
        edge < self.content_bounds.height + SIGMA && edge > self.content_bounds.height - SIGMA
    }
}

} // verus!
