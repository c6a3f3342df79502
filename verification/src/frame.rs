//! A fixed-size 2D buffer addressed by `(x, y)`, stored row-major.

use vstd::prelude::*;

verus! {

/// A `width * height` grid of values of one payload type. Cell `(x, y)` lives
/// at linear index `y * width + x`.
pub struct Frame<T> {
    pub width: usize,
    pub height: usize,
    pub cells: Vec<T>,
}

/// A row-major index stays inside the buffer.
pub proof fn lemma_row_major_in_bounds(x: int, y: int, w: int, h: int)
    by (nonlinear_arith)
    requires
        0 <= x < w,
        0 <= y < h,
    ensures
        0 <= y * w + x < w * h,
{
}

/// Distinct in-bounds coordinates map to distinct row-major indices.
pub proof fn lemma_row_major_injective(x1: int, y1: int, x2: int, y2: int, w: int)
    by (nonlinear_arith)
    requires
        0 <= x1 < w,
        0 <= x2 < w,
        0 <= y1,
        0 <= y2,
        y1 * w + x1 == y2 * w + x2,
    ensures
        x1 == x2,
        y1 == y2,
{
}

impl<T: Copy> Frame<T> {
    /// The buffer holds exactly one cell per `(x, y)` pair.
    pub open spec fn wf(self) -> bool {
        &&& self.cells@.len() == self.width * self.height
        &&& self.width * self.height <= usize::MAX
    }

    /// The value at `(x, y)`: a cell's content inside the bounds, nothing
    /// outside them.
    pub open spec fn spec_at(self, x: int, y: int) -> Option<T> {
        if 0 <= x < self.width && 0 <= y < self.height {
            Some(self.cells@[y * self.width + x])
        } else {
            None
        }
    }

    /// A fresh `width * height` frame with every cell set to `value`.
    pub fn new(width: usize, height: usize, value: T) -> (r: Frame<T>)
        requires
            width * height <= usize::MAX,
        ensures
            r.wf(),
            r.width == width,
            r.height == height,
            forall|i: int| 0 <= i < r.cells@.len() ==> r.cells@[i] == value,
    {
        let count: usize = width * height;
        let mut cells: Vec<T> = Vec::new();
        while cells.len() < count
            invariant
                cells@.len() <= count,
                forall|i: int| 0 <= i < cells@.len() ==> cells@[i] == value,
            decreases count - cells@.len(),
        {
            cells.push(value);
        }
        Frame { width, height, cells }
    }

    pub fn width(&self) -> (r: usize)
        ensures
            r == self.width,
    {
        self.width
    }

    pub fn height(&self) -> (r: usize)
        ensures
            r == self.height,
    {
        self.height
    }

    /// Reads the cell at `(x, y)`; out-of-range coordinates yield no value.
    pub fn at(&self, x: usize, y: usize) -> (r: Option<T>)
        requires
            self.wf(),
        ensures
            r == self.spec_at(x as int, y as int),
    {
        if x < self.width && y < self.height {
            proof {
                lemma_row_major_in_bounds(x as int, y as int, self.width as int, self.height as int);
            }
            let idx: usize = y * self.width + x;
            Some(self.cells[idx])
        } else {
            None
        }
    }

    /// Overwrites the cell at `(x, y)`, which must be inside the bounds.
    pub fn set(&mut self, x: usize, y: usize, value: T)
        requires
            old(self).wf(),
            x < old(self).width,
            y < old(self).height,
        ensures
            final(self).wf(),
            final(self).width == old(self).width,
            final(self).height == old(self).height,
            final(self).cells@ == old(self).cells@.update(
                y * old(self).width + x,
                value,
            ),
    {
        proof {
            lemma_row_major_in_bounds(x as int, y as int, self.width as int, self.height as int);
        }
        let idx: usize = y * self.width + x;
        self.cells[idx] = value;
    }

    /// Overwrites every cell with `value`.
    pub fn set_all(&mut self, value: T)
        requires
            old(self).wf(),
        ensures
            final(self).wf(),
            final(self).width == old(self).width,
            final(self).height == old(self).height,
            final(self).cells@.len() == old(self).cells@.len(),
            forall|i: int| 0 <= i < final(self).cells@.len() ==> final(self).cells@[i] == value,
    {
        let count: usize = self.cells.len();
        let mut i: usize = 0;
        while i < count
            invariant
                count == self.cells@.len(),
                self.width == old(self).width,
                self.height == old(self).height,
                self.wf(),
                i <= count,
                forall|j: int| 0 <= j < i ==> self.cells@[j] == value,
            decreases count - i,
        {
            self.cells[i] = value;
            i = i + 1;
        }
    }

    /// The backing cells in row-major order.
    pub fn cells(&self) -> (r: &Vec<T>)
        ensures
            r@ == self.cells@,
    {
        &self.cells
    }
}

/// A frame whose cells all hold `value` — as a fresh frame does — reads
/// `value` at every in-range coordinate, and nothing outside the bounds.
pub proof fn lemma_uniform_frame_at<T: Copy>(frame: Frame<T>, value: T, x: int, y: int)
    requires
        frame.wf(),
        forall|i: int| 0 <= i < frame.cells@.len() ==> frame.cells@[i] == value,
    ensures
        frame.spec_at(x, y) == (if 0 <= x < frame.width && 0 <= y < frame.height {
            Some(value)
        } else {
            None::<T>
        }),
{
    if 0 <= x < frame.width && 0 <= y < frame.height {
        lemma_row_major_in_bounds(x, y, frame.width as int, frame.height as int);
    }
}

} // verus!
