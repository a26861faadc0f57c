//! Row-major enumeration of the pixel positions a rectangle covers.

use vstd::prelude::*;

use crate::geometry::Point;
use crate::rectangle::Rectangle;

verus! {

/// One row of grid points at height `y`: `w` points starting at `x0`.
pub open spec fn grid_row(x0: int, w: int, y: int) -> Seq<Point> {
    Seq::new(
        if w >= 0 {
            w as nat
        } else {
            0
        },
        |i: int| Point { x: (x0 + i) as i32, y: y as i32 },
    )
}

/// `h` rows of grid points in row-major order, each `w` points long,
/// starting at `(x0, y0)`.
pub open spec fn grid_points(x0: int, w: int, y0: int, h: int) -> Seq<Point>
    decreases h,
{
    if h <= 0 {
        Seq::empty()
    } else {
        grid_row(x0, w, y0) + grid_points(x0, w, y0 + 1, h - 1)
    }
}

/// The pixel positions covered by a rectangle, in row-major order, as
/// bounded by its column and row ranges.
pub open spec fn spec_rect_points(r: Rectangle) -> Seq<Point> {
    grid_points(
        r.top_left.x as int,
        r.spec_columns_end() - r.top_left.x,
        r.top_left.y as int,
        r.spec_rows_end() - r.top_left.y,
    )
}

pub proof fn lemma_grid_points_len(x0: int, w: int, y0: int, h: int)
    requires
        w >= 0,
        h >= 0,
    ensures
        grid_points(x0, w, y0, h).len() == w * h,
    decreases h,
{
    if h <= 0 {
        assert(w * 0 == 0);
    } else {
        lemma_grid_points_len(x0, w, y0 + 1, h - 1);
        assert(w * h == w + w * (h - 1)) by (nonlinear_arith);
    }
}

proof fn lemma_grid_points_zero_width(x0: int, w: int, y0: int, h: int)
    requires
        w <= 0,
    ensures
        grid_points(x0, w, y0, h) == Seq::<Point>::empty(),
    decreases h,
{
    if h > 0 {
        lemma_grid_points_zero_width(x0, w, y0 + 1, h - 1);
        assert(grid_points(x0, w, y0, h) =~= Seq::<Point>::empty());
    }
}

/// A single-pass, row-major enumeration of the pixel positions of a
/// rectangle, captured at creation time.
///
/// The sequence owns a private copy of the column and row bounds plus a
/// cursor, so it stays valid independently of the source rectangle.
#[derive(Clone, Copy, Debug)]
pub struct Points {
    x_start: i32,
    x_end: i32,
    y_end: i32,
    x: i32,
    y: i32,
}

impl Points {
    /// The cursor lies inside the column bounds whenever rows remain.
    pub closed spec fn wf(self) -> bool {
        &&& self.x_start <= self.x_end
        &&& (self.y >= self.y_end || (self.x_start <= self.x && self.x < self.x_end))
    }

    /// The points not yet produced, in the order they will be produced.
    pub closed spec fn remaining(self) -> Seq<Point> {
        if self.y >= self.y_end {
            Seq::empty()
        } else {
            grid_row(self.x as int, self.x_end - self.x, self.y as int) + grid_points(
                self.x_start as int,
                self.x_end - self.x_start,
                self.y + 1,
                self.y_end - self.y - 1,
            )
        }
    }

    /// Creates the enumeration of all pixel positions of the given
    /// rectangle.
    pub fn new(rect: &Rectangle) -> (p: Points)
        ensures
            p.wf(),
            p.remaining() == spec_rect_points(*rect),
    {
        let columns = rect.columns();
        let rows = rect.rows();
        // An empty column range can never yield a point, so it starts out
        // exhausted even when rows remain.
        let y_end = if columns.start >= columns.end {
            rows.start
        } else {
            rows.end
        };
        let p = Points {
            x_start: columns.start,
            x_end: columns.end,
            y_end,
            x: columns.start,
            y: rows.start,
        };
        proof {
            if columns.start >= columns.end {
                lemma_grid_points_zero_width(
                    rect.top_left.x as int,
                    rect.spec_columns_end() - rect.top_left.x,
                    rect.top_left.y as int,
                    rect.spec_rows_end() - rect.top_left.y,
                );
            } else if rows.start < rows.end {
                assert(p.remaining() =~= spec_rect_points(*rect));
            }
        }
        p
    }

    /// Produces the next point in row-major order, or `None` once the
    /// enumeration is exhausted.
    pub fn next(&mut self) -> (r: Option<Point>)
        requires
            old(self).wf(),
        ensures
            final(self).wf(),
            old(self).remaining().len() == 0 ==> r is None && final(self).remaining()
                == old(self).remaining(),
            old(self).remaining().len() > 0 ==> r == Some(old(self).remaining()[0])
                && final(self).remaining() == old(self).remaining().drop_first(),
    {
        if self.y >= self.y_end {
            None
        } else {
            let p = Point { x: self.x, y: self.y };
            if self.x + 1 < self.x_end {
                self.x = self.x + 1;
                proof {
                    assert(final(self).remaining() =~= old(self).remaining().drop_first());
                }
            } else {
                self.x = self.x_start;
                self.y = self.y + 1;
                proof {
                    assert(final(self).remaining() =~= old(self).remaining().drop_first());
                }
            }
            Some(p)
        }
    }

    /// The number of points the enumeration will still produce.
    pub fn count(self) -> (n: u64)
        requires
            self.wf(),
        ensures
            n == self.remaining().len(),
    {
        proof {
            self.lemma_remaining_len_bound();
        }
        let mut it = self;
        let mut n: u64 = 0;
        let mut done = false;
        while !done
            invariant
                it.wf(),
                n + it.remaining().len() == self.remaining().len(),
                self.remaining().len() <= u64::MAX,
                done ==> it.remaining().len() == 0,
            decreases it.remaining().len() + (if done {
                0int
            } else {
                1int
            }),
        {
            match it.next() {
                Some(_) => {
                    n = n + 1;
                },
                None => {
                    done = true;
                },
            }
        }
        n
    }

    proof fn lemma_remaining_len_bound(self)
        requires
            self.wf(),
        ensures
            self.remaining().len() <= u64::MAX,
    {
        if self.y < self.y_end {
            let w = self.x_end - self.x_start;
            let rows = self.y_end - self.y - 1;
            lemma_grid_points_len(self.x_start as int, w, self.y + 1, rows);
            assert(w * rows <= 0xFFFF_FFFF * 0xFFFF_FFFF) by (nonlinear_arith)
                requires
                    0 <= w <= 0xFFFF_FFFF,
                    0 <= rows <= 0xFFFF_FFFF,
            ;
        }
    }
}

} // verus!
