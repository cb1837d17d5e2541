//! Scrollable-list windowing: which contiguous slice of a list is visible
//! and which index is selected, under repeated scroll operations.

use vstd::prelude::*;

verus! {

/// The visible slice of a list rendered in a fixed-height viewport.
///
/// `min` and `max` are the first and last visible indices, `position` is the
/// selected index, `size` is the item count of the list and `height` the row
/// count of the viewport.
pub struct ListWindow {
    pub min: usize,
    pub max: usize,
    pub position: usize,
    pub size: usize,
    pub height: usize,
}

pub enum ScrollDirection {
    Up,
    Down,
}

/// Mathematical image of a `ListWindow`; the scroll contracts are stated
/// over it.
pub ghost struct WindowModel {
    pub min: int,
    pub max: int,
    pub position: int,
    pub size: int,
    pub height: int,
}

/// One scroll step, as recorded by the reachability lemma.
pub ghost enum ScrollStep {
    Up(nat),
    Down(nat),
}

impl View for ListWindow {
    type V = WindowModel;

    open spec fn view(&self) -> WindowModel {
        WindowModel {
            min: self.min as int,
            max: self.max as int,
            position: self.position as int,
            size: self.size as int,
            height: self.height as int,
        }
    }
}

/// Subtraction clamped at zero, the mathematical twin of
/// `usize::saturating_sub`.
pub open spec fn clamped_sub(a: int, b: int) -> int {
    if a >= b {
        a - b
    } else {
        0
    }
}

/// Addition capped at `usize::MAX`, the mathematical twin of
/// `usize::saturating_add`.
pub open spec fn clamped_add(a: int, b: int) -> int {
    if a + b > usize::MAX as int {
        usize::MAX as int
    } else {
        a + b
    }
}

pub open spec fn min_int(a: int, b: int) -> int {
    if a <= b {
        a
    } else {
        b
    }
}

/// The window after `reset`: re-anchored to the top of the list, with the
/// window spanning at most one viewport.
pub open spec fn reset_model(w: WindowModel) -> WindowModel {
    WindowModel { min: 0, max: clamped_sub(min_int(w.size, w.height), 1), position: 0, ..w }
}

/// The window after `scroll_up(d)`.  The selection jumps to the top of the
/// window and then slides up by `d`, clamped at zero; when it lands exactly
/// on index zero the window reopens to a full viewport (and only then).
pub open spec fn scroll_up_model(w: WindowModel, d: int) -> WindowModel {
    if w.size == 0 {
        w
    } else {
        let p = clamped_sub(w.min, d);
        WindowModel {
            min: p,
            position: p,
            max: if p == 0 {
                clamped_sub(w.height, 1)
            } else {
                clamped_sub(w.max, d)
            },
            ..w
        }
    }
}

/// The window after `scroll_down(d)`.  The selection jumps to the bottom of
/// the window and then slides down by `d`; at the end of the list the window
/// clamps against the last index.
pub open spec fn scroll_down_model(w: WindowModel, d: int) -> WindowModel {
    if w.size == 0 {
        w
    } else if w.max + d > w.size - 1 {
        WindowModel {
            min: clamped_sub(w.size, w.height),
            max: w.size - 1,
            position: w.size - 1,
            ..w
        }
    } else {
        WindowModel {
            min: clamped_add(w.min, d),
            max: w.max + d,
            position: w.max + d,
            ..w
        }
    }
}

/// The window keeps the selection inside the visible slice, and inside the
/// list whenever the list is not empty.
pub open spec fn window_invariant(w: WindowModel) -> bool {
    &&& w.min <= w.position <= w.max
    &&& (w.size > 0 ==> w.position < w.size)
}

/// The window reached from `w` by the given scroll steps, applied in order.
pub open spec fn apply_scrolls(w: WindowModel, steps: Seq<ScrollStep>) -> WindowModel
    decreases steps.len(),
{
    if steps.len() == 0 {
        w
    } else {
        let prev = apply_scrolls(w, steps.drop_last());
        match steps.last() {
            ScrollStep::Up(d) => scroll_up_model(prev, d as int),
            ScrollStep::Down(d) => scroll_down_model(prev, d as int),
        }
    }
}

pub proof fn lemma_reset_establishes_invariant(w: WindowModel)
    ensures
        window_invariant(reset_model(w)),
{
}

pub proof fn lemma_scroll_up_preserves_invariant(w: WindowModel, d: nat)
    requires
        window_invariant(w),
    ensures
        window_invariant(scroll_up_model(w, d as int)),
{
}

pub proof fn lemma_scroll_down_preserves_invariant(w: WindowModel, d: nat)
    requires
        window_invariant(w),
        w.height >= 1,
        w.size >= 0,
    ensures
        window_invariant(scroll_down_model(w, d as int)),
{
}

/// Scroll steps never change the list size or the viewport height.
pub proof fn lemma_scrolls_preserve_dimensions(w: WindowModel, steps: Seq<ScrollStep>)
    ensures
        apply_scrolls(w, steps).size == w.size,
        apply_scrolls(w, steps).height == w.height,
    decreases steps.len(),
{
    if steps.len() > 0 {
        lemma_scrolls_preserve_dimensions(w, steps.drop_last());
    }
}

/// Every window state reachable from `reset` by any sequence of scroll
/// steps keeps the selection between the window bounds, and inside the list
/// whenever the list is not empty.  A viewport of height zero is excluded:
/// there the clamp of a downward scroll can push the window start past the
/// selection.
pub proof fn lemma_reachable_window_valid(w: WindowModel, steps: Seq<ScrollStep>)
    requires
        w.height >= 1,
        w.size >= 0,
    ensures
        window_invariant(apply_scrolls(reset_model(w), steps)),
    decreases steps.len(),
{
    if steps.len() == 0 {
        lemma_reset_establishes_invariant(w);
    } else {
        let prev = apply_scrolls(reset_model(w), steps.drop_last());
        lemma_reachable_window_valid(w, steps.drop_last());
        lemma_scrolls_preserve_dimensions(reset_model(w), steps.drop_last());
        match steps.last() {
            ScrollStep::Up(d) => lemma_scroll_up_preserves_invariant(prev, d),
            ScrollStep::Down(d) => lemma_scroll_down_preserves_invariant(prev, d),
        }
    }
}

impl ListWindow {
    pub fn new(min: usize, max: usize, position: usize, size: usize, height: usize) -> (w: Self)
        ensures
            w.min == min,
            w.max == max,
            w.position == position,
            w.size == size,
            w.height == height,
    {
        Self { min, max, position, size, height }
    }

    /// Re-anchor the window to the top of the list.
    pub fn reset(&mut self)
        ensures
            final(self)@ == reset_model(old(self)@),
            window_invariant(final(self)@),
    {
        self.min = 0;
        let span = if self.size < self.height {
            self.size
        } else {
            self.height
        };
        self.max = span.saturating_sub(1);
        self.position = 0;
    }

    pub fn scroll(&mut self, direction: ScrollDirection, distance: usize)
        ensures
            direction is Up ==> final(self)@ == scroll_up_model(old(self)@, distance as int),
            direction is Down ==> final(self)@ == scroll_down_model(old(self)@, distance as int),
            window_invariant(old(self)@) && old(self)@.height >= 1 ==> window_invariant(
                final(self)@,
            ),
    {
        match direction {
            ScrollDirection::Up => self.scroll_up(distance),
            ScrollDirection::Down => self.scroll_down(distance),
        }
    }

    /// Update the viewport height; the window is revalidated by the next
    /// `reset` or scroll.
    pub fn set_height(&mut self, height: usize)
        ensures
            final(self)@ == (WindowModel { height: height as int, ..old(self)@ }),
    {
        self.height = height;
    }

    /// Update the list length; the window is revalidated by the next
    /// `reset` or scroll.
    pub fn set_size(&mut self, size: usize)
        ensures
            final(self)@ == (WindowModel { size: size as int, ..old(self)@ }),
    {
        self.size = size;
    }

    pub fn height(&mut self) -> (h: usize)
        ensures
            h == old(self).height,
            *final(self) == *old(self),
    {
        self.height
    }

    /// The selected index, or none when the list is empty.
    pub fn position(&self) -> (p: Option<usize>)
        ensures
            self.size == 0 ==> p is None,
            self.size > 0 ==> p == Some(self.position),
    {
        if self.size == 0 {
            None
        } else {
            Some(self.position)
        }
    }

    pub fn scroll_up(&mut self, distance: usize)
        ensures
            final(self)@ == scroll_up_model(old(self)@, distance as int),
            window_invariant(old(self)@) ==> window_invariant(final(self)@),
    {
        if self.size == 0 {
            return ;
        }
        self.position = self.min;
        self.min = self.min.saturating_sub(distance);
        self.position = self.position.saturating_sub(distance);
        if self.position == 0 {
            self.max = self.height.saturating_sub(1);
        } else {
            self.max = self.max.saturating_sub(distance);
        }
        proof {
            if window_invariant(old(self)@) {
                lemma_scroll_up_preserves_invariant(old(self)@, distance as nat);
            }
        }
    }

    pub fn scroll_down(&mut self, distance: usize)
        ensures
            final(self)@ == scroll_down_model(old(self)@, distance as int),
            window_invariant(old(self)@) && old(self)@.height >= 1 ==> window_invariant(
                final(self)@,
            ),
    {
        if self.size == 0 {
            return ;
        }
        let limit = self.size - 1;
        match self.max.checked_add(distance) {
            Some(p) if p <= limit => {
                self.position = p;
                self.max = p;
                self.min = self.min.saturating_add(distance);
            },
            _ => {
                self.position = limit;
                self.max = limit;
                self.min = self.size.saturating_sub(self.height);
            },
        }
        proof {
            if window_invariant(old(self)@) && old(self)@.height >= 1 {
                lemma_scroll_down_preserves_invariant(old(self)@, distance as nat);
            }
        }
    }
}

} // verus!
