//! The cell buffer: a rectangular grid of styled characters in row-major
//! order.
//!
//! The grid invariant is `cells.len() == width * height`.  Writes outside
//! the grid are silently ignored and reads outside it yield nothing.

use vstd::prelude::*;

use crate::theme::Modifier;
use crate::theme::Style;

verus! {

/// The default style: no colors, no modifiers.
pub open spec fn style_default() -> Style {
    Style { fg: None, bg: None, modifiers: Modifier { bits: 0 } }
}

/// The default cell: a NUL character with the default style.
pub open spec fn cell_default() -> Cell {
    Cell { ch: '\u{0}', style: style_default() }
}

/// One terminal cell: a character and its style.
#[derive(Clone, Copy, Debug, PartialEq, Eq, Structural)]
pub struct Cell {
    pub ch: char,
    pub style: Style,
}

impl Cell {
    /// A cell with the default style.
    pub fn new(ch: char) -> (c: Cell)
        ensures
            c == (Cell { ch, style: style_default() }),
    {
        Cell { ch, style: Style::new() }
    }

    pub fn with_style(ch: char, style: Style) -> (c: Cell)
        ensures
            c == (Cell { ch, style }),
    {
        Cell { ch, style }
    }
}

impl Default for Cell {
    fn default() -> (c: Cell)
        ensures
            c == cell_default(),
    {
        Cell { ch: '\u{0}', style: Style::new() }
    }
}

/// A fixed-size grid of cells in row-major order: the cell at `(x, y)` is
/// `cells[y * width + x]`.
pub struct Buffer {
    pub width: u16,
    pub height: u16,
    pub cells: Vec<Cell>,
}

impl Buffer {
    /// The grid invariant: the flat storage has exactly one slot per cell.
    pub open spec fn wf(self) -> bool {
        self.cells@.len() == self.width * self.height
    }

    /// Whether `(x, y)` lies inside the grid.
    pub open spec fn in_bounds(self, x: int, y: int) -> bool {
        0 <= x < self.width && 0 <= y < self.height
    }

    /// The cell stored at `(x, y)`.
    pub open spec fn spec_cell(self, x: int, y: int) -> Cell {
        self.cells@[y * self.width + x]
    }

    /// The row `y` as a sequence of `width` cells.
    pub open spec fn spec_row(self, y: int) -> Seq<Cell> {
        self.cells@.subrange(y * self.width, y * self.width + self.width)
    }

    /// A fresh buffer of the given size, filled with default cells.
    pub fn new(width: u16, height: u16) -> (b: Buffer)
        ensures
            b.wf(),
            b.width == width,
            b.height == height,
            forall|x: int, y: int|
                b.in_bounds(x, y) ==> b.spec_cell(x, y) == cell_default(),
    {
        proof {
            assert((width as int) * (height as int) <= 65535int * 65535int)
                by (nonlinear_arith)
                requires
                    width as int <= 65535int,
                    height as int <= 65535int,
            ;
        }
        let size = (width as usize) * (height as usize);
        let mut cells: Vec<Cell> = Vec::new();
        let mut i: usize = 0;
        while i < size
            invariant
                i <= size,
                cells@.len() == i,
                forall|k: int| 0 <= k < i ==> cells@[k] == cell_default(),
            decreases size - i,
        {
            cells.push(Cell::default());
            i = i + 1;
        }
        let b = Buffer { width, height, cells };
        proof {
            assert forall|x: int, y: int| b.in_bounds(x, y) implies b.spec_cell(x, y)
                == cell_default() by {
                lemma_row_major_index(x, y, width as int, height as int);
            }
        }
        b
    }

    /// The cell at `(x, y)`, or `None` outside the grid.
    pub fn get(&self, x: u16, y: u16) -> (r: Option<&Cell>)
        requires
            self.wf(),
        ensures
            self.in_bounds(x as int, y as int) ==> r == Some(
                &self.spec_cell(x as int, y as int),
            ),
            !self.in_bounds(x as int, y as int) ==> r is None,
    {
        if x >= self.width || y >= self.height {
            return None;
        }
        proof {
            lemma_row_major_index(x as int, y as int, self.width as int, self.height as int);
        }
        let idx = (y as usize) * (self.width as usize) + (x as usize);
        Some(&self.cells[idx])
    }

    /// Store `cell` at `(x, y)`; writes outside the grid are ignored.
    pub fn set(&mut self, x: u16, y: u16, cell: Cell)
        requires
            old(self).wf(),
        ensures
            final(self).wf(),
            final(self).width == old(self).width,
            final(self).height == old(self).height,
            old(self).in_bounds(x as int, y as int) ==> final(self).spec_cell(
                x as int,
                y as int,
            ) == cell,
            forall|px: int, py: int|
                old(self).in_bounds(px, py) && !(px == x as int && py == y as int)
                    ==> final(self).spec_cell(px, py) == old(self).spec_cell(px, py),
    {
        if x < self.width && y < self.height {
            proof {
                lemma_row_major_index(x as int, y as int, self.width as int, self.height as int);
            }
            let idx = (y as usize) * (self.width as usize) + (x as usize);
            self.cells[idx] = cell;
            proof {
                assert forall|px: int, py: int|
                    old(self).in_bounds(px, py) && !(px == x as int && py == y as int) implies final
                    (self).spec_cell(px, py) == old(self).spec_cell(px, py) by {
                    lemma_row_major_index(px, py, self.width as int, self.height as int);
                    lemma_row_major_distinct(
                        px,
                        py,
                        x as int,
                        y as int,
                        self.width as int,
                    );
                }
            }
        }
    }

    /// The row `y` as a slice of `width` cells; empty outside the grid.
    pub fn line(&self, y: u16) -> (r: &[Cell])
        requires
            self.wf(),
        ensures
            y < self.height ==> r@ == self.spec_row(y as int),
            y >= self.height ==> r@.len() == 0,
    {
        if y >= self.height {
            let empty: &[Cell] = &[];
            return empty;
        }
        proof {
            lemma_row_bounds(y as int, self.width as int, self.height as int);
        }
        let start = (y as usize) * (self.width as usize);
        let end = start + (self.width as usize);
        slice_range(self.cells.as_slice(), start, end)
    }

    /// Replace every cell with the default cell.
    pub fn clear(&mut self)
        requires
            old(self).wf(),
        ensures
            final(self).wf(),
            final(self).width == old(self).width,
            final(self).height == old(self).height,
            forall|x: int, y: int|
                final(self).in_bounds(x, y) ==> final(self).spec_cell(x, y) == cell_default(),
    {
        let n = self.cells.len();
        let mut i: usize = 0;
        while i < n
            invariant
                i <= n,
                self.cells@.len() == n,
                self.width == old(self).width,
                self.height == old(self).height,
                forall|k: int| 0 <= k < i ==> self.cells@[k] == cell_default(),
            decreases n - i,
        {
            self.cells[i] = Cell::default();
            i = i + 1;
        }
        proof {
            assert forall|x: int, y: int| final(self).in_bounds(x, y)
                implies final(self).spec_cell(x, y) == cell_default() by {
                lemma_row_major_index(x, y, self.width as int, self.height as int);
            }
        }
    }

    /// Resize the grid; all content is cleared.
    pub fn resize(&mut self, width: u16, height: u16)
        requires
            old(self).wf(),
        ensures
            final(self).wf(),
            final(self).width == width,
            final(self).height == height,
            forall|x: int, y: int|
                final(self).in_bounds(x, y) ==> final(self).spec_cell(x, y) == cell_default(),
    {
        let fresh = Buffer::new(width, height);
        *self = fresh;
    }

    /// Write the characters of `s` left to right starting at `(x, y)` with
    /// the given style: the cell at `(x + i, y)` receives the i-th
    /// character, writing stops at the right edge of the grid, and every
    /// other cell keeps its value.
    #[verifier::loop_isolation(false)]
    pub fn write_str(&mut self, x: u16, y: u16, s: &str, style: Style)
        requires
            old(self).wf(),
        ensures
            final(self).wf(),
            final(self).width == old(self).width,
            final(self).height == old(self).height,
            forall|i: int|
                0 <= i < s@.len() && x + i <= u16::MAX && old(self).in_bounds(x + i, y as int)
                    ==> final(self).spec_cell(x + i, y as int) == (Cell { ch: s@[i], style }),
            forall|px: int, py: int|
                old(self).in_bounds(px, py) && (py != y as int || px < x || px >= x + s@.len())
                    ==> final(self).spec_cell(px, py) == old(self).spec_cell(px, py),
    {
        let chars: Vec<char> = str_chars(s);
        let mut i: usize = 0;
        while i < chars.len()
            invariant
                0 <= i <= s@.len(),
                chars@ == s@,
                self.wf(),
                self.width == old(self).width,
                self.height == old(self).height,
                forall|j: int|
                    0 <= j < i && x + j <= u16::MAX && old(self).in_bounds(x + j, y as int)
                        ==> self.spec_cell(x + j, y as int) == (Cell { ch: s@[j], style }),
                forall|px: int, py: int|
                    old(self).in_bounds(px, py) && (py != y as int || px < x || px >= x + i)
                        ==> self.spec_cell(px, py) == old(self).spec_cell(px, py),
            decreases chars@.len() - i,
        {
            if i <= u16::MAX as usize && x as usize + i <= u16::MAX as usize {
                self.set(x + i as u16, y, Cell { ch: chars[i], style });
            }
            i = i + 1;
        }
    }
}

impl Clone for Buffer {
    /// A deep copy: same size, same cells.
    fn clone(&self) -> (r: Buffer)
        ensures
            r.width == self.width,
            r.height == self.height,
            r.cells@ == self.cells@,
    {
        let mut cells: Vec<Cell> = Vec::new();
        let mut i: usize = 0;
        while i < self.cells.len()
            invariant
                i <= self.cells@.len(),
                cells@.len() == i,
                forall|k: int| 0 <= k < i ==> cells@[k] == self.cells@[k],
            decreases self.cells@.len() - i,
        {
            cells.push(self.cells[i]);
            i = i + 1;
        }
        proof {
            assert(cells@ =~= self.cells@);
        }
        Buffer { width: self.width, height: self.height, cells }
    }
}

/// Relies on `str::chars`: yields the characters of the string in order, so
/// collecting them gives a vector whose view is the string's view.
#[verifier::external_body]
pub fn str_chars(s: &str) -> (r: Vec<char>)
    ensures
        r@ == s@,
{
    s.chars().collect()
}

/// The subslice `s[start..end]`.
fn slice_range<'a>(s: &'a [Cell], start: usize, end: usize) -> (r: &'a [Cell])
    requires
        start <= end <= s@.len(),
    ensures
        r@ == s@.subrange(start as int, end as int),
{
    &s[start..end]
}

/// In a `w`-by-`h` row-major grid, the flat index of an in-bounds cell lies
/// inside the storage.
pub proof fn lemma_row_major_index(x: int, y: int, w: int, h: int)
    requires
        0 <= x < w,
        0 <= y < h,
        w <= 65535,
        h <= 65535,
    ensures
        0 <= y * w + x < w * h,
        w * h <= 65535 * 65535,
{
    assert(0 <= y * w + x < w * h && w * h <= 65535 * 65535) by (nonlinear_arith)
        requires
            0 <= x < w,
            0 <= y < h,
            w <= 65535,
            h <= 65535,
    ;
}

/// Distinct in-bounds cells of a row have distinct flat indices.
pub proof fn lemma_row_major_distinct(x1: int, y1: int, x2: int, y2: int, w: int)
    requires
        0 <= x1 < w,
        0 <= x2 < w,
        0 <= y1,
        0 <= y2,
        !(x1 == x2 && y1 == y2),
    ensures
        y1 * w + x1 != y2 * w + x2,
{
    assert(y1 * w + x1 != y2 * w + x2) by (nonlinear_arith)
        requires
            0 <= x1 < w,
            0 <= x2 < w,
            0 <= y1,
            0 <= y2,
            !(x1 == x2 && y1 == y2),
    ;
}

/// A whole row lies inside the storage of a well-formed grid.
pub proof fn lemma_row_bounds(y: int, w: int, h: int)
    requires
        0 <= y < h,
        0 <= w <= 65535,
        h <= 65535,
    ensures
        0 <= y * w,
        y * w + w <= w * h,
        w * h <= 65535 * 65535,
{
    assert(0 <= y * w && y * w + w <= w * h && w * h <= 65535 * 65535) by (nonlinear_arith)
        requires
            0 <= y < h,
            0 <= w <= 65535,
            h <= 65535,
    ;
}

} // verus!
