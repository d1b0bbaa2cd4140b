//! Tag trees (B.10.2): a hierarchical representation of a 2-D array of
//! non-negative integers, where every node holds the minimum of its up
//! to four children. Packet headers transmit the array as a bit stream,
//! and the decoder here recovers the leaf values from those bits.

use vstd::prelude::*;

verus! {

/// A tag tree: the represented two-dimensional array of non-negative
/// integers itself. Only the decoder below carries state.
pub struct TagTree {}

/// The number of times the grid halves (rounding up) until it reaches
/// the 1-by-1 root.
pub open spec fn depth_of(w: nat, h: nat) -> nat
    decreases w + h,
{
    if w <= 1 && h <= 1 {
        0
    } else {
        1 + depth_of((w + 1) / 2, (h + 1) / 2)
    }
}

/// The leaf-grid width after `k` halvings, each rounding up.
pub open spec fn halved_width(w: nat, k: nat) -> nat
    decreases k,
{
    if k == 0 {
        w
    } else {
        (halved_width(w, (k - 1) as nat) + 1) / 2
    }
}

/// The width of the level `levels_below` steps above the leaf grid of
/// width `w`: the halved width, at least 1.
pub open spec fn tag_level_width(w: nat, levels_below: nat) -> nat {
    let h = halved_width(w, levels_below);
    if h <= 1 {
        1
    } else {
        h
    }
}

/// Where the backtrack walk from level `d` ends: the first level at or
/// below `d` whose next position's parent is already recorded, paired
/// with that parent's value; or nothing when the walk reaches the root.
pub open spec fn walk_up_spec(levels: Seq<(usize, Vec<u8>)>, d: int) -> Option<(int, u8)>
    decreases d,
{
    if d <= 0 {
        None
    } else {
        let cw = levels[d].0 as int;
        let offset = levels[d].1@.len() as int;
        let parent_column = (offset % cw) / 2;
        let parent_row = (offset / cw) / 2;
        let pw = levels[d - 1].0 as int;
        let parent_offset = parent_row * pw + parent_column;
        if parent_offset < levels[d - 1].1@.len() {
            Some((d, levels[d - 1].1@[parent_offset]))
        } else {
            walk_up_spec(levels, d - 1)
        }
    }
}

/// A decoder from tag tree bits to the values of the represented array.
///
/// `levels` runs from the root (width 1) at index 0 down to the leaf
/// grid at index `max_depth`; each level holds its width and the values
/// recovered so far, in raster order. `cur_depth` and `cur_value` track
/// the node being decoded and its running lower bound.
#[derive(Debug)]
pub struct TagTreeDecoder {
    pub max_depth: usize,
    pub cur_depth: usize,
    pub cur_value: u8,
    pub levels: Vec<(usize, Vec<u8>)>,
}

/// The decoder's structural invariant: one level per depth and a
/// positive width at every level.
pub open spec fn tag_tree_wf(t: TagTreeDecoder) -> bool {
    &&& t.levels@.len() == t.max_depth + 1
    &&& t.cur_depth <= t.max_depth
    &&& forall|i: int| 0 <= i < t.levels@.len() ==> (#[trigger] t.levels@[i]).0 >= 1
}

impl TagTreeDecoder {
    /// Build the decoder for a `width` by `height` leaf grid, with all
    /// levels empty and the walk at the root. The grid bounds are far
    /// wider than any code-block grid of the standard.
    pub fn new(width: usize, height: usize) -> (r: TagTreeDecoder)
        requires
            width <= 32768,
            height <= 32768,
        ensures
            tag_tree_wf(r),
            r.max_depth == depth_of(width as nat, height as nat),
            r.cur_depth == 0,
            r.cur_value == 0,
            forall|i: int| 0 <= i < r.levels@.len() ==> (#[trigger] r.levels@[i]).1@.len() == 0,
            forall|i: int| 0 <= i < r.levels@.len() ==> (#[trigger] r.levels@[i]).0
                == tag_level_width(width as nat, (r.max_depth - i) as nat),
    {
        let mut mw = width;
        let mut mh = height;
        let mut max_depth: usize = 0;
        let mut levels: Vec<(usize, Vec<u8>)> = Vec::new();
        // Walk up from the leaf grid, halving until the root.
        while mw > 1 || mh > 1
            invariant
                width <= 32768,
                height <= 32768,
                mw <= width,
                mh <= height,
                max_depth + mw + mh <= width + height,
                depth_of(width as nat, height as nat) == max_depth + depth_of(
                    mw as nat,
                    mh as nat,
                ),
                mw == halved_width(width as nat, max_depth as nat),
                mh == halved_width(height as nat, max_depth as nat),
                levels@.len() == max_depth,
                forall|i: int| 0 <= i < levels@.len() ==> (#[trigger] levels@[i]).0 >= 1,
                forall|i: int| 0 <= i < levels@.len() ==> (#[trigger] levels@[i]).1@.len() == 0,
                forall|i: int| 0 <= i < levels@.len() ==> (#[trigger] levels@[i]).0
                    == tag_level_width(width as nat, i as nat),
            decreases mw + mh,
        {
            let w = if mw > 1 { mw } else { 1 };
            levels.push((w, Vec::new()));
            max_depth = max_depth + 1;
            mw = (mw + 1) / 2;
            mh = (mh + 1) / 2;
        }
        levels.push((1, Vec::new()));

        proof {
            assert(levels@[max_depth as int].0 == tag_level_width(width as nat, max_depth as nat));
        }

        // Reverse in place so the root level sits at index 0.
        let ghost all = levels@;
        let mut reversed: Vec<(usize, Vec<u8>)> = Vec::new();
        let n = levels.len();
        let mut i: usize = 0;
        while i < n
            invariant
                n == all.len(),
                i <= n,
                levels@ == all.subrange(0, n - i),
                reversed@.len() == i,
                forall|j: int| 0 <= j < i ==> reversed@[j] == all[n - 1 - j],
            decreases n - i,
        {
            let entry = levels.pop().unwrap();
            reversed.push(entry);
            proof {
                assert(levels@ == all.subrange(0, n - i - 1));
            }
            i = i + 1;
        }

        TagTreeDecoder { max_depth, cur_depth: 0, cur_value: 0, levels: reversed }
    }

    /// Feed one bit. A 0 bit raises the running lower bound. A 1 bit
    /// fixes the current node's value: at an inner node the walk
    /// descends and nothing is returned; at a leaf the finished value is
    /// returned, and the walk backs up to the next node whose parent is
    /// known, inheriting that parent's value as the new lower bound.
    pub fn push_bit(&mut self, b: u8) -> (r: Option<u8>)
        requires
            tag_tree_wf(*old(self)),
            b <= 1,
            b == 0 ==> old(self).cur_value < 255,
        ensures
            tag_tree_wf(*final(self)),
            final(self).max_depth == old(self).max_depth,
            b == 0 ==> r is None && *final(self) == (TagTreeDecoder {
                cur_value: (old(self).cur_value + 1) as u8,
                ..*old(self)
            }),
            b == 1 ==> {
                let d = old(self).cur_depth as int;
                &&& final(self).levels@[d].1@ == old(self).levels@[d].1@.push(
                        old(self).cur_value,
                    )
                &&& final(self).levels@[d].0 == old(self).levels@[d].0
                &&& forall|i: int| 0 <= i < old(self).levels@.len() && i != d ==>
                        final(self).levels@[i] == old(self).levels@[i]
                &&& (old(self).cur_depth < old(self).max_depth ==> r is None
                        && final(self).cur_depth == old(self).cur_depth + 1
                        && final(self).cur_value == old(self).cur_value)
                &&& (old(self).cur_depth == old(self).max_depth
                        ==> r == Some(old(self).cur_value))
                &&& (old(self).cur_depth == old(self).max_depth ==> match walk_up_spec(
                        final(self).levels@,
                        old(self).max_depth as int,
                    ) {
                        Some(t) => final(self).cur_depth == t.0
                            && final(self).cur_value == t.1,
                        None => final(self).cur_depth == 0
                            && final(self).cur_value == old(self).cur_value,
                    })
            },
    {
        if b == 0 {
            self.cur_value = self.cur_value + 1;
            return None;
        }

        // A 1 bit: the current node's value is the running lower bound.
        let d = self.cur_depth;
        self.levels[d].1.push(self.cur_value);

        if self.cur_depth < self.max_depth {
            // Descend towards the leaf.
            self.cur_depth = self.cur_depth + 1;
            return None;
        }
        if self.cur_depth == 0 && self.max_depth == 0 {
            // A 1-by-1 tree: the root is the only leaf.
            return Some(self.cur_value);
        }

        let out = self.cur_value;

        // Back up to the next unfilled position whose parent is already
        // known; that parent supplies the new lower bound.
        loop
            invariant_except_break
                self.cur_value == old(self).cur_value,
            invariant
                tag_tree_wf(*old(self)),
                tag_tree_wf(*self),
                self.max_depth == old(self).max_depth,
                self.levels@.len() == old(self).levels@.len(),
                forall|i: int| 0 <= i < self.levels@.len() && i != old(self).cur_depth ==>
                    self.levels@[i] == old(self).levels@[i],
                (#[trigger] self.levels@[old(self).cur_depth as int]).0
                    == old(self).levels@[old(self).cur_depth as int].0,
                self.levels@[old(self).cur_depth as int].1@
                    == old(self).levels@[old(self).cur_depth as int].1@.push(
                        old(self).cur_value,
                    ),
                walk_up_spec(self.levels@, self.cur_depth as int) == walk_up_spec(
                    self.levels@,
                    old(self).max_depth as int,
                ),
            ensures
                tag_tree_wf(*self),
                self.max_depth == old(self).max_depth,
                self.levels@.len() == old(self).levels@.len(),
                forall|i: int| 0 <= i < self.levels@.len() && i != old(self).cur_depth ==>
                    self.levels@[i] == old(self).levels@[i],
                (#[trigger] self.levels@[old(self).cur_depth as int]).0
                    == old(self).levels@[old(self).cur_depth as int].0,
                self.levels@[old(self).cur_depth as int].1@
                    == old(self).levels@[old(self).cur_depth as int].1@.push(
                        old(self).cur_value,
                    ),
                match walk_up_spec(self.levels@, old(self).max_depth as int) {
                    Some(t) => self.cur_depth == t.0 && self.cur_value == t.1,
                    None => self.cur_depth == 0 && self.cur_value == old(self).cur_value,
                },
            decreases self.cur_depth,
        {
            if self.cur_depth == 0 {
                // The whole tree is filled: there is no parent to walk
                // to, and the walk state stays at the root.
                break;
            }
            let c_width = self.levels[self.cur_depth].0;
            let offset = self.levels[self.cur_depth].1.len();
            let parent_column = (offset % c_width) / 2;
            let parent_row = (offset / c_width) / 2;
            let pw = self.levels[self.cur_depth - 1].0;
            let plen = self.levels[self.cur_depth - 1].1.len();
            proof {
                assert((parent_row as u128) * (pw as u128)
                    <= 0xFFFFFFFFFFFFFFFFu128 * 0xFFFFFFFFFFFFFFFFu128) by (nonlinear_arith)
                    requires
                        parent_row as u128 <= 0xFFFFFFFFFFFFFFFFu128,
                        pw as u128 <= 0xFFFFFFFFFFFFFFFFu128,
                ;
            }
            let parent_offset: u128 = (parent_row as u128) * (pw as u128)
                + (parent_column as u128);
            if parent_offset < plen as u128 {
                let pi = parent_offset as usize;
                self.cur_value = self.levels[self.cur_depth - 1].1[pi];
                break;
            }
            self.cur_depth = self.cur_depth - 1;
        }
        Some(out)
    }
}

} // verus!
