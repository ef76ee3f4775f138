//! The external operation gateway: code that holds only a viewport's
//! stable identity — not a reference into any view tree — can address the
//! viewport through a registry and invoke one of four scroll operations
//! on it. All four apply immediately and cancel an in-flight animation.

use vstd::prelude::*;

use crate::scrollie::{State, MAX_DELTA, PROGRESS_UNIT};

verus! {

/// One externally requested scroll operation.
#[derive(Clone, Copy, Debug, PartialEq, Eq, Structural)]
pub enum ScrollOperation {
    /// Jump to the top of the item at this index; out of range is a no-op.
    JumpToItem { idx: usize },
    /// Scroll to this fraction of the content height, in thousandths.
    ScrollToRelative { fraction: u32 },
    /// Scroll to this absolute offset.
    ScrollToAbsolute { offset: i64 },
    /// Scroll by this delta relative to the current offset.
    ScrollBy { delta: i64 },
}

impl ScrollOperation {
    /// A relative fraction stays within one, and a delta within
    /// [`MAX_DELTA`].
    pub open spec fn wf(self) -> bool {
        match self {
            ScrollOperation::ScrollToRelative { fraction } => fraction <= PROGRESS_UNIT,
            ScrollOperation::ScrollBy { delta } => -MAX_DELTA <= delta <= MAX_DELTA,
            _ => true,
        }
    }
}

/// The state an operation leaves the viewport in: any animation is
/// cancelled (except for an out-of-range jump, which is a no-op) and the
/// offset moves directly, clamped into the valid range.
pub open spec fn operation_applied(s: State, op: ScrollOperation) -> State {
    match op {
        ScrollOperation::JumpToItem { idx } => if idx < s.layouts@.len() {
            s.cancel_animation().scrolled_to(s.layouts@[idx as int].bounds.y as int)
        } else {
            s
        },
        ScrollOperation::ScrollToRelative { fraction } => s.cancel_animation().scrolled_to(
            (s.content_bounds.height * fraction) / (PROGRESS_UNIT as int),
        ),
        ScrollOperation::ScrollToAbsolute { offset } => s.cancel_animation().scrolled_to(
            offset as int,
        ),
        ScrollOperation::ScrollBy { delta } => s.cancel_animation().scrolled_to(
            s.translation + delta,
        ),
    }
}

/// Apply one scroll operation to a viewport state, per
/// [`operation_applied`].
pub fn apply_operation(state: &mut State, op: ScrollOperation)
    requires
        old(state).wf(),
        op.wf(),
    ensures
        *final(state) == operation_applied(*old(state), op),
        final(state).wf(),
{
    match op {
        ScrollOperation::JumpToItem { idx } => state.scroll_to_idx(idx),
        ScrollOperation::ScrollToRelative { fraction } => state.snap_to(fraction),
        ScrollOperation::ScrollToAbsolute { offset } => state.scroll_to_absolute(offset),
        ScrollOperation::ScrollBy { delta } => state.scroll_by(delta),
    }
}

/// The registry mapping viewport identities to their retained state: the
/// plain lookup behind identity-addressed operation dispatch.
pub struct ViewportRegistry {
    pub entries: Vec<(u64, State)>,
}

impl ViewportRegistry {
    /// Identities are unique and every registered state is well formed.
    pub open spec fn wf(self) -> bool {
        &&& forall|i: int, j: int|
            0 <= i < self.entries@.len() && 0 <= j < self.entries@.len() && i != j
                ==> (#[trigger] self.entries@[i]).0 != (#[trigger] self.entries@[j]).0
        &&& forall|i: int|
            0 <= i < self.entries@.len() ==> (#[trigger] self.entries@[i]).1.wf()
    }

    /// Some entry carries identity `id`.
    pub open spec fn has_id(self, id: u64) -> bool {
        exists|i: int| 0 <= i < self.entries@.len() && (#[trigger] self.entries@[i]).0 == id
    }

    /// The index of the entry carrying identity `id` (meaningful only
    /// when one exists; unique under [`ViewportRegistry::wf`]).
    pub open spec fn id_index(self, id: u64) -> int {
        choose|i: int| 0 <= i < self.entries@.len() && (#[trigger] self.entries@[i]).0 == id
    }

    /// An empty registry.
    pub fn new() -> (r: ViewportRegistry)
        ensures
            r.entries@.len() == 0,
            r.wf(),
    {
        ViewportRegistry { entries: Vec::new() }
    }

    /// Register a viewport under a fresh identity.
    pub fn register(&mut self, id: u64, state: State)
        requires
            old(self).wf(),
            !old(self).has_id(id),
            state.wf(),
        ensures
            final(self).entries@ == old(self).entries@.push((id, state)),
            final(self).wf(),
            final(self).has_id(id),
    {
        self.entries.push((id, state));
        proof {
            let n = self.entries@.len() as int;
            assert(self.entries@[n - 1].0 == id);
        }
    }

    /// Apply one scroll operation to the viewport with identity `id`, per
    /// [`operation_applied`]; with no such viewport nothing happens.
    /// Returns whether the viewport was found.
    pub fn apply(&mut self, id: u64, op: ScrollOperation) -> (found: bool)
        requires
            old(self).wf(),
            op.wf(),
        ensures
            found == old(self).has_id(id),
            old(self).has_id(id) ==> final(self).entries@ == old(self).entries@.update(
                old(self).id_index(id),
                (id, operation_applied(old(self).entries@[old(self).id_index(id)].1, op)),
            ),
            !old(self).has_id(id) ==> *final(self) == *old(self),
            final(self).wf(),
    {
        let ghost es0 = self.entries@;
        let mut i: usize = 0;
        while i < self.entries.len()
            invariant
                old(self).wf(),
                op.wf(),
                *self == *old(self),
                es0 == self.entries@,
                i <= es0.len(),
                forall|j: int| 0 <= j < i ==> (#[trigger] es0[j]).0 != id,
            decreases es0.len() - i,
        {
            if self.entries[i].0 == id {
                proof {
                    assert(self.has_id(id));
                    let k = self.id_index(id);
                    assert(0 <= k < es0.len() && es0[k].0 == id);
                    assert(k == i as int);
                }
                let mut pair = self.entries.remove(i);
                apply_operation(&mut pair.1, op);
                self.entries.insert(i, pair);
                proof {
                    assert(self.entries@ =~= es0.update(i as int, (id, operation_applied(es0[i as int].1, op))));
                }
                return true;
            }
            i = i + 1;
        }
        proof {
            if self.has_id(id) {
                let k = choose|k: int| 0 <= k < es0.len() && (#[trigger] es0[k]).0 == id;
                assert(es0[k].0 == id);
            }
        }
        false
    }

    /// Jump the viewport with identity `id` to the top of item `idx`:
    /// the identity-addressed form of the by-index jump.
    pub fn scroll_to_idx(&mut self, id: u64, idx: usize) -> (found: bool)
        requires
            old(self).wf(),
        ensures
            found == old(self).has_id(id),
            old(self).has_id(id) ==> final(self).entries@ == old(self).entries@.update(
                old(self).id_index(id),
                (
                    id,
                    operation_applied(
                        old(self).entries@[old(self).id_index(id)].1,
                        ScrollOperation::JumpToItem { idx },
                    ),
                ),
            ),
            !old(self).has_id(id) ==> *final(self) == *old(self),
            final(self).wf(),
    {
        self.apply(id, ScrollOperation::JumpToItem { idx })
    }
}

} // verus!
