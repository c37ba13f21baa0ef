//! Layout primitives: rectangles and size specifications.
//!
//! `Rect` is an axis-aligned rectangle of terminal cells; all of its
//! arithmetic saturates at the bounds of `u16`.  `Length` describes how a
//! child wants to be sized along a container's main axis.

use vstd::prelude::*;

pub mod containers;
pub mod flex;

verus! {

/// Saturating addition on the coordinate type, at the spec level.
pub open spec fn sat_add(a: int, b: int) -> int {
    if a + b > u16::MAX as int {
        u16::MAX as int
    } else {
        a + b
    }
}

/// Saturating subtraction on the coordinate type, at the spec level.
pub open spec fn sat_sub(a: int, b: int) -> int {
    if a - b < 0 {
        0
    } else {
        a - b
    }
}

/// A rectangle in terminal cells: position and size, all `u16`.
#[derive(Clone, Copy, Debug, PartialEq, Eq, Hash, Structural)]
pub struct Rect {
    pub x: u16,
    pub y: u16,
    pub width: u16,
    pub height: u16,
}

/// Whether the cell `(px, py)` lies inside `r`.
pub open spec fn rect_contains(r: Rect, px: int, py: int) -> bool {
    &&& px >= r.x
    &&& px < r.x + r.width
    &&& py >= r.y
    &&& py < r.y + r.height
}

/// The intersection of two rectangles, or `None` when they do not overlap.
pub open spec fn spec_intersect(a: Rect, b: Rect) -> Option<Rect> {
    let x1 = if a.x >= b.x { a.x as int } else { b.x as int };
    let y1 = if a.y >= b.y { a.y as int } else { b.y as int };
    let ax2 = a.x + a.width;
    let bx2 = b.x + b.width;
    let ay2 = a.y + a.height;
    let by2 = b.y + b.height;
    let x2 = if ax2 <= bx2 { ax2 } else { bx2 };
    let y2 = if ay2 <= by2 { ay2 } else { by2 };
    if x1 < x2 && y1 < y2 {
        Some(
            Rect {
                x: x1 as u16,
                y: y1 as u16,
                width: (x2 - x1) as u16,
                height: (y2 - y1) as u16,
            },
        )
    } else {
        None
    }
}

/// The smallest rectangle containing both arguments, with the width and
/// height saturated at the bounds of the coordinate type.
pub open spec fn spec_union(a: Rect, b: Rect) -> Rect {
    let x1 = if a.x <= b.x { a.x as int } else { b.x as int };
    let y1 = if a.y <= b.y { a.y as int } else { b.y as int };
    let ax2 = a.x + a.width;
    let bx2 = b.x + b.width;
    let ay2 = a.y + a.height;
    let by2 = b.y + b.height;
    let x2 = if ax2 >= bx2 { ax2 } else { bx2 };
    let y2 = if ay2 >= by2 { ay2 } else { by2 };
    Rect {
        x: x1 as u16,
        y: y1 as u16,
        width: (if x2 - x1 > u16::MAX as int {
            u16::MAX as int
        } else {
            x2 - x1
        }) as u16,
        height: (if y2 - y1 > u16::MAX as int {
            u16::MAX as int
        } else {
            y2 - y1
        }) as u16,
    }
}

impl Rect {
    pub fn new(x: u16, y: u16, width: u16, height: u16) -> (r: Rect)
        ensures
            r == (Rect { x, y, width, height }),
    {
        Rect { x, y, width, height }
    }

    /// A rectangle of the given size at the origin.
    pub fn from_size(width: u16, height: u16) -> (r: Rect)
        ensures
            r == (Rect { x: 0u16, y: 0u16, width, height }),
    {
        Rect { x: 0, y: 0, width, height }
    }

    /// Area in cells.
    pub fn area(&self) -> (r: u32)
        ensures
            r == self.width * self.height,
    {
        proof {
            assert((self.width as int) * (self.height as int) <= 65535int * 65535int)
                by (nonlinear_arith)
                requires
                    self.width as int <= 65535int,
                    self.height as int <= 65535int,
            ;
        }
        (self.width as u32) * (self.height as u32)
    }

    /// Whether the cell `(x, y)` lies inside this rectangle.
    pub fn contains(&self, x: u16, y: u16) -> (r: bool)
        ensures
            r == rect_contains(*self, x as int, y as int),
    {
        x >= self.x && (x as u32) < (self.x as u32) + (self.width as u32) && y >= self.y && (y
            as u32) < (self.y as u32) + (self.height as u32)
    }

    /// Shrink by `margin` cells on every side, saturating.
    pub fn inner(&self, margin: u16) -> (r: Rect)
        ensures
            r.x == sat_add(self.x as int, margin as int),
            r.y == sat_add(self.y as int, margin as int),
            r.width == sat_sub(self.width as int, 2 * (margin as int)),
            r.height == sat_sub(self.height as int, 2 * (margin as int)),
    {
        let m2 = if margin <= u16::MAX / 2 {
            margin * 2
        } else {
            u16::MAX
        };
        Rect {
            x: sat_add_u16(self.x, margin),
            y: sat_add_u16(self.y, margin),
            width: sat_sub_u16(self.width, m2),
            height: sat_sub_u16(self.height, m2),
        }
    }

    /// Shrink with individual margins, saturating.
    pub fn inner_margins(&self, top: u16, right: u16, bottom: u16, left: u16) -> (r: Rect)
        ensures
            r.x == sat_add(self.x as int, left as int),
            r.y == sat_add(self.y as int, top as int),
            r.width == sat_sub(self.width as int, sat_add(left as int, right as int)),
            r.height == sat_sub(self.height as int, sat_add(top as int, bottom as int)),
    {
        Rect {
            x: sat_add_u16(self.x, left),
            y: sat_add_u16(self.y, top),
            width: sat_sub_u16(self.width, sat_add_u16(left, right)),
            height: sat_sub_u16(self.height, sat_add_u16(top, bottom)),
        }
    }

    /// Split horizontally `at` cells from the left edge; returns the left and
    /// right parts of a non-overlapping partition.
    pub fn split_h(&self, at: u16) -> (r: (Rect, Rect))
        ensures
            r.0.x == self.x,
            r.0.y == self.y,
            r.0.width == if at <= self.width {
                at as int
            } else {
                self.width as int
            },
            r.0.height == self.height,
            r.1.x == sat_add(self.x as int, at as int),
            r.1.y == self.y,
            r.1.width == sat_sub(self.width as int, at as int),
            r.1.height == self.height,
            at <= self.width ==> r.0.width + r.1.width == self.width,
    {
        let left = Rect {
            x: self.x,
            y: self.y,
            width: if at <= self.width {
                at
            } else {
                self.width
            },
            height: self.height,
        };
        let right = Rect {
            x: sat_add_u16(self.x, at),
            y: self.y,
            width: sat_sub_u16(self.width, at),
            height: self.height,
        };
        (left, right)
    }

    /// Split vertically `at` cells from the top edge; returns the top and
    /// bottom parts of a non-overlapping partition.
    pub fn split_v(&self, at: u16) -> (r: (Rect, Rect))
        ensures
            r.0.x == self.x,
            r.0.y == self.y,
            r.0.width == self.width,
            r.0.height == if at <= self.height {
                at as int
            } else {
                self.height as int
            },
            r.1.x == self.x,
            r.1.y == sat_add(self.y as int, at as int),
            r.1.width == self.width,
            r.1.height == sat_sub(self.height as int, at as int),
            at <= self.height ==> r.0.height + r.1.height == self.height,
    {
        let top = Rect {
            x: self.x,
            y: self.y,
            width: self.width,
            height: if at <= self.height {
                at
            } else {
                self.height
            },
        };
        let bottom = Rect {
            x: self.x,
            y: sat_add_u16(self.y, at),
            width: self.width,
            height: sat_sub_u16(self.height, at),
        };
        (top, bottom)
    }

    /// Intersection with another rectangle; `None` when they do not overlap.
    pub fn intersect(&self, other: &Rect) -> (r: Option<Rect>)
        ensures
            r == spec_intersect(*self, *other),
    {
        let x1 = if self.x >= other.x {
            self.x
        } else {
            other.x
        };
        let y1 = if self.y >= other.y {
            self.y
        } else {
            other.y
        };
        let ax2 = (self.x as u32) + (self.width as u32);
        let bx2 = (other.x as u32) + (other.width as u32);
        let ay2 = (self.y as u32) + (self.height as u32);
        let by2 = (other.y as u32) + (other.height as u32);
        let x2 = if ax2 <= bx2 {
            ax2
        } else {
            bx2
        };
        let y2 = if ay2 <= by2 {
            ay2
        } else {
            by2
        };
        if (x1 as u32) < x2 && (y1 as u32) < y2 {
            Some(
                Rect {
                    x: x1,
                    y: y1,
                    width: (x2 - x1 as u32) as u16,
                    height: (y2 - y1 as u32) as u16,
                },
            )
        } else {
            None
        }
    }

    /// The smallest rectangle containing this one and `other`.
    pub fn union(&self, other: &Rect) -> (r: Rect)
        ensures
            r == spec_union(*self, *other),
    {
        let x1 = if self.x <= other.x {
            self.x
        } else {
            other.x
        };
        let y1 = if self.y <= other.y {
            self.y
        } else {
            other.y
        };
        let ax2 = (self.x as u32) + (self.width as u32);
        let bx2 = (other.x as u32) + (other.width as u32);
        let ay2 = (self.y as u32) + (self.height as u32);
        let by2 = (other.y as u32) + (other.height as u32);
        let x2 = if ax2 >= bx2 {
            ax2
        } else {
            bx2
        };
        let y2 = if ay2 >= by2 {
            ay2
        } else {
            by2
        };
        let w = x2 - (x1 as u32);
        let h = y2 - (y1 as u32);
        Rect {
            x: x1,
            y: y1,
            width: if w > u16::MAX as u32 {
                u16::MAX
            } else {
                w as u16
            },
            height: if h > u16::MAX as u32 {
                u16::MAX
            } else {
                h as u16
            },
        }
    }
}

/// Saturating `u16` addition.
pub fn sat_add_u16(a: u16, b: u16) -> (r: u16)
    ensures
        r == sat_add(a as int, b as int),
{
    if a <= u16::MAX - b {
        a + b
    } else {
        u16::MAX
    }
}

/// Saturating `u16` subtraction.
pub fn sat_sub_u16(a: u16, b: u16) -> (r: u16)
    ensures
        r == sat_sub(a as int, b as int),
{
    if a >= b {
        a - b
    } else {
        0
    }
}

/// Splitting a rectangle horizontally at an offset within its width yields
/// two parts whose widths sum back to the whole.
pub proof fn lemma_split_h_conserves(r: Rect, at: u16)
    requires
        at <= r.width,
    ensures
        (if at <= r.width {
            at as int
        } else {
            r.width as int
        }) + sat_sub(r.width as int, at as int) == r.width,
{
}

/// Intersection of rectangles is commutative.
pub proof fn lemma_intersect_commutative(a: Rect, b: Rect)
    ensures
        spec_intersect(a, b) == spec_intersect(b, a),
{
}

/// The union of two rectangles contains every cell of both, as long as the
/// union itself did not have to saturate at the edge of the coordinate space.
pub proof fn lemma_union_contains_both(a: Rect, b: Rect, px: int, py: int)
    requires
        rect_contains(a, px, py) || rect_contains(b, px, py),
        a.x + a.width <= u16::MAX,
        a.y + a.height <= u16::MAX,
        b.x + b.width <= u16::MAX,
        b.y + b.height <= u16::MAX,
    ensures
        rect_contains(spec_union(a, b), px, py),
{
}

/// A size specification along a container's main axis.
///
/// Fractions are written in thousandths of the available extent, so that the
/// whole layout engine works in exact integer arithmetic: `Percent(250)` is a
/// quarter, `Percent(1000)` the whole.
#[derive(Clone, Copy, Debug, PartialEq, Eq, Structural)]
pub enum Length {
    /// A fixed number of cells.
    Fixed(u16),
    /// Thousandths of the available extent, rounded to the nearest cell.
    Percent(u16),
    /// Fill the remaining space, weighted against the other `Fill` entries.
    Fill(u16),
    /// At least this many cells (clamped to the available extent).
    Min(u16),
    /// At most this many cells (clamped to the available extent).
    Max(u16),
}

/// The number of cells a non-`Fill` length resolves to against an available
/// extent.  `Fill` resolves to the whole extent; containers treat it
/// specially.
pub open spec fn spec_resolve(len: Length, available: int) -> int {
    match len {
        Length::Fixed(n) => n as int,
        Length::Percent(p) => if (available * p + 500) / 1000 > u16::MAX as int {
            u16::MAX as int
        } else {
            (available * p + 500) / 1000
        },
        Length::Fill(_) => available,
        Length::Min(n) => if n <= available {
            n as int
        } else {
            available
        },
        Length::Max(n) => if n <= available {
            n as int
        } else {
            available
        },
    }
}

impl Length {
    /// Resolve this length against the available extent.
    pub fn resolve(&self, available: u16) -> (r: u16)
        ensures
            r == spec_resolve(*self, available as int),
    {
        match self {
            Length::Fixed(n) => *n,
            Length::Percent(p) => {
                proof {
                    assert((available as int) * (*p as int) <= 65535int * 65535int)
                        by (nonlinear_arith)
                        requires
                            available as int <= 65535int,
                            *p as int <= 65535int,
                    ;
                }
                let scaled = ((available as u64) * (*p as u64) + 500) / 1000;
                if scaled > u16::MAX as u64 {
                    u16::MAX
                } else {
                    scaled as u16
                }
            },
            Length::Fill(_) => available,
            Length::Min(n) => if *n <= available {
                *n
            } else {
                available
            },
            Length::Max(n) => if *n <= available {
                *n
            } else {
                available
            },
        }
    }
}

/// Alignment along the cross axis.
#[derive(Clone, Copy, Debug, PartialEq, Eq, Hash, Structural)]
pub enum Align {
    Start,
    Center,
    End,
    Stretch,
}

impl Default for Align {
    fn default() -> (r: Self)
        ensures
            r == Align::Stretch,
    {
        Align::Stretch
    }
}

/// Justification along the main axis.
#[derive(Clone, Copy, Debug, PartialEq, Eq, Hash, Structural)]
pub enum Justify {
    Start,
    Center,
    End,
    SpaceBetween,
    SpaceAround,
    SpaceEvenly,
}

/// Main-axis direction for flex layouts.
#[derive(Clone, Copy, Debug, PartialEq, Eq, Hash, Structural)]
pub enum FlexDirection {
    Row,
    Column,
}

} // verus!
