//! The layout engine: one vertical pass over the current item list.
//!
//! Each item is placed directly below the one before it, at the running
//! sum of the heights laid out so far; the aggregate content rectangle is
//! the union of all item bounds, so its height is the total item height
//! and its width the widest item. Off-screen items are laid out like any
//! other: the engine does no windowing.

use vstd::prelude::*;

use crate::geometry::{ItemExtent, Rect, MAX_DIM};

verus! {

/// One row of the layout table: an item's bounds for this frame, tagged
/// with the caller-supplied stable key of the item.
#[derive(Clone, Copy, Debug, PartialEq, Eq, Structural)]
pub struct LayoutEntry {
    pub bounds: Rect,
    pub key: u64,
}

/// Sum of the first `i` entries of `h`.
pub open spec fn sum_prefix(h: Seq<int>, i: int) -> int
    decreases i,
{
    if i <= 0 {
        0
    } else {
        sum_prefix(h, i - 1) + h[i - 1]
    }
}

/// Maximum of the first `i` entries of `h`, at least 0.
pub open spec fn max_prefix(h: Seq<int>, i: int) -> int
    decreases i,
{
    if i <= 0 {
        0
    } else if h[i - 1] > max_prefix(h, i - 1) {
        h[i - 1]
    } else {
        max_prefix(h, i - 1)
    }
}

/// The heights reported by a sequence of items.
pub open spec fn item_heights(s: Seq<ItemExtent>) -> Seq<int> {
    s.map_values(|e: ItemExtent| e.height as int)
}

/// The widths reported by a sequence of items.
pub open spec fn item_widths(s: Seq<ItemExtent>) -> Seq<int> {
    s.map_values(|e: ItemExtent| e.width as int)
}

/// The heights recorded in a layout table.
pub open spec fn entry_heights(s: Seq<LayoutEntry>) -> Seq<int> {
    s.map_values(|e: LayoutEntry| e.bounds.height as int)
}

/// The widths recorded in a layout table.
pub open spec fn entry_widths(s: Seq<LayoutEntry>) -> Seq<int> {
    s.map_values(|e: LayoutEntry| e.bounds.width as int)
}

/// Total height of an item list once stacked vertically.
pub open spec fn total_height(s: Seq<ItemExtent>) -> int {
    sum_prefix(item_heights(s), s.len() as int)
}

/// The layout table that stacking `items` with `keys` produces.
pub open spec fn stacked_table(items: Seq<ItemExtent>, keys: Seq<u64>) -> Seq<LayoutEntry> {
    Seq::new(
        items.len(),
        |i: int|
            LayoutEntry {
                bounds: Rect {
                    x: 0,
                    y: sum_prefix(item_heights(items), i) as i64,
                    width: items[i].width,
                    height: items[i].height,
                },
                key: keys[i],
            },
    )
}

/// The aggregate content rectangle that stacking `items` produces.
pub open spec fn content_rect(items: Seq<ItemExtent>) -> Rect {
    Rect {
        x: 0,
        y: 0,
        width: max_prefix(item_widths(items), items.len() as int) as i64,
        height: sum_prefix(item_heights(items), items.len() as int) as i64,
    }
}

/// A layout table is well formed against a content rectangle when its
/// entries are stacked from the origin downward and the content rectangle
/// is exactly their union.
pub open spec fn table_wf(s: Seq<LayoutEntry>, content: Rect) -> bool {
    &&& forall|i: int|
        0 <= i < s.len() ==> {
            &&& (#[trigger] s[i]).bounds.wf()
            &&& s[i].bounds.x == 0
            &&& s[i].bounds.y == sum_prefix(entry_heights(s), i)
        }
    &&& content.x == 0
    &&& content.y == 0
    &&& content.height == sum_prefix(entry_heights(s), s.len() as int)
    &&& content.width == max_prefix(entry_widths(s), s.len() as int)
    &&& content.wf()
}

/// Prefix sums of non-negative entries are non-negative and monotone.
pub proof fn lemma_sum_prefix_mono(h: Seq<int>, i: int, j: int)
    requires
        0 <= i <= j <= h.len(),
        forall|k: int| 0 <= k < h.len() ==> h[k] >= 0,
    ensures
        0 <= sum_prefix(h, i) <= sum_prefix(h, j),
    decreases j,
{
    if j > i {
        lemma_sum_prefix_mono(h, i, j - 1);
    } else if i > 0 {
        lemma_sum_prefix_mono(h, 0, i - 1);
    }
}

/// A prefix maximum of entries bounded by `b` is itself bounded by `b`.
pub proof fn lemma_max_prefix_bound(h: Seq<int>, i: int, b: int)
    requires
        0 <= i <= h.len(),
        0 <= b,
        forall|k: int| 0 <= k < h.len() ==> h[k] <= b,
    ensures
        0 <= max_prefix(h, i) <= b,
    decreases i,
{
    if i > 0 {
        lemma_max_prefix_bound(h, i - 1, b);
    }
}

/// Lay the items out vertically in order, producing the layout table and
/// the aggregate content rectangle.
///
/// Entry `i` of the table carries `keys[i]` and sits at the running sum of
/// the heights before it, with the item's own width and height; the content
/// rectangle spans from the origin to the total height and the widest item.
pub fn stack_items(items: &Vec<ItemExtent>, keys: &Vec<u64>) -> (r: (Vec<LayoutEntry>, Rect))
    requires
        items@.len() == keys@.len(),
        forall|i: int| 0 <= i < items@.len() ==> (#[trigger] items@[i]).wf(),
        total_height(items@) <= MAX_DIM,
    ensures
        r.0@.len() == items@.len(),
        forall|i: int|
            0 <= i < items@.len() ==> {
                &&& (#[trigger] r.0@[i]).key == keys@[i]
                &&& r.0@[i].bounds.x == 0
                &&& r.0@[i].bounds.y == sum_prefix(item_heights(items@), i)
                &&& r.0@[i].bounds.width == items@[i].width
                &&& r.0@[i].bounds.height == items@[i].height
            },
        r.1.height == total_height(items@),
        r.1.width == max_prefix(item_widths(items@), items@.len() as int),
        r.0@ == stacked_table(items@, keys@),
        r.1 == content_rect(items@),
        table_wf(r.0@, r.1),
{
    let ghost hs = item_heights(items@);
    let ghost ws = item_widths(items@);
    let mut out: Vec<LayoutEntry> = Vec::new();
    let mut y: i64 = 0;
    let mut w: i64 = 0;
    let mut idx: usize = 0;
    proof {
        lemma_max_prefix_bound(ws, items@.len() as int, MAX_DIM as int);
    }
    while idx < items.len()
        invariant
            items@.len() == keys@.len(),
            forall|i: int| 0 <= i < items@.len() ==> (#[trigger] items@[i]).wf(),
            total_height(items@) <= MAX_DIM,
            hs == item_heights(items@),
            ws == item_widths(items@),
            idx <= items@.len(),
            out@.len() == idx,
            y == sum_prefix(hs, idx as int),
            0 <= y <= MAX_DIM,
            w == max_prefix(ws, idx as int),
            0 <= w <= MAX_DIM,
            forall|i: int|
                0 <= i < idx ==> {
                    &&& (#[trigger] out@[i]).key == keys@[i]
                    &&& out@[i].bounds.wf()
                    &&& out@[i].bounds.x == 0
                    &&& out@[i].bounds.y == sum_prefix(hs, i)
                    &&& out@[i].bounds.width == items@[i].width
                    &&& out@[i].bounds.height == items@[i].height
                },
        decreases items@.len() - idx,
    {
        let it = items[idx];
        proof {
            lemma_sum_prefix_mono(hs, idx as int + 1, hs.len() as int);
            lemma_sum_prefix_mono(hs, 0, idx as int + 1);
            lemma_max_prefix_bound(ws, idx as int + 1, MAX_DIM as int);
        }
        let entry = LayoutEntry {
            bounds: Rect { x: 0, y, width: it.width, height: it.height },
            key: keys[idx],
        };
        assert(y + it.height == sum_prefix(hs, idx as int + 1));
        assert(entry.bounds.wf());
        out.push(entry);
        y = y + it.height;
        if it.width > w {
            w = it.width;
        }
        idx = idx + 1;
    }
    let content = Rect { x: 0, y: 0, width: w, height: y };
    proof {
        assert(entry_heights(out@) =~= hs);
        assert(entry_widths(out@) =~= ws);
        assert(out@ =~= stacked_table(items@, keys@));
    }
    (out, content)
}

} // verus!
