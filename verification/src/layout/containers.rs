//! Row, Column and Stack containers.
//!
//! Rows and columns resolve every non-`Fill` length against the available
//! main-axis extent, then share the remaining space among the `Fill`
//! entries in proportion to their weights, each share rounded down.

use vstd::prelude::*;

use crate::layout::sat_add;
use crate::layout::sat_add_u16;
use crate::layout::sat_sub;
use crate::layout::sat_sub_u16;
use crate::layout::spec_resolve;
use crate::layout::Align;
use crate::layout::Justify;
use crate::layout::Length;
use crate::layout::Rect;

verus! {

/// The saturating sum of the `Fill` weights, folded front to back.
pub open spec fn acc_fill_weight(ls: Seq<Length>, acc: int) -> int
    decreases ls.len(),
{
    if ls.len() == 0 {
        acc
    } else {
        acc_fill_weight(
            ls.drop_first(),
            match ls[0] {
                Length::Fill(w) => sat_add(acc, w as int),
                _ => acc,
            },
        )
    }
}

/// The space left over after resolving every non-`Fill` entry, folded with
/// saturating subtraction.
pub open spec fn acc_remaining(ls: Seq<Length>, avail: int, acc: int) -> int
    decreases ls.len(),
{
    if ls.len() == 0 {
        acc
    } else {
        acc_remaining(
            ls.drop_first(),
            avail,
            match ls[0] {
                Length::Fill(_) => acc,
                _ => sat_sub(acc, spec_resolve(ls[0], avail)),
            },
        )
    }
}

/// The main-axis size of one entry: non-`Fill` entries resolve against the
/// available extent; a `Fill` entry receives its weighted share of the
/// remaining space, rounded down.
pub open spec fn spec_axis_size(l: Length, avail: int, rem: int, w: int) -> int {
    match l {
        Length::Fill(wt) => if w > 0 {
            rem * wt / w
        } else {
            0
        },
        _ => spec_resolve(l, avail),
    }
}

/// The saturating sum of all entry sizes.
pub open spec fn acc_sizes_sum(ls: Seq<Length>, avail: int, rem: int, w: int, acc: int) -> int
    decreases ls.len(),
{
    if ls.len() == 0 {
        acc
    } else {
        acc_sizes_sum(
            ls.drop_first(),
            avail,
            rem,
            w,
            sat_add(acc, spec_axis_size(ls[0], avail, rem, w)),
        )
    }
}

/// Where the first child starts along the main axis, given the container's
/// origin and extent and the total size of children plus gaps.
pub open spec fn spec_justify_offset(j: Justify, origin: int, extent: int, total: int) -> int {
    match j {
        Justify::Start => origin,
        Justify::End => sat_add(origin, sat_sub(extent, total)),
        Justify::Center => sat_add(origin, sat_sub(extent, total) / 2),
        Justify::SpaceBetween => origin,
        Justify::SpaceAround => origin,
        Justify::SpaceEvenly => origin,
    }
}

/// The total inter-child gap: `gap` between each adjacent pair.
pub open spec fn spec_total_gap(gap: int, n: int) -> int {
    if n == 0 {
        0
    } else if n - 1 > u16::MAX as int {
        sat_mul_spec(gap, u16::MAX as int)
    } else {
        sat_mul_spec(gap, n - 1)
    }
}

/// Saturating multiplication at the bounds of the coordinate type.
pub open spec fn sat_mul_spec(a: int, b: int) -> int {
    if a * b > u16::MAX as int {
        u16::MAX as int
    } else {
        a * b
    }
}

/// Saturating `u16` multiplication.
pub fn sat_mul_u16(a: u16, b: u16) -> (r: u16)
    ensures
        r == sat_mul_spec(a as int, b as int),
{
    proof {
        assert((a as int) * (b as int) <= 65535int * 65535int) by (nonlinear_arith)
            requires
                a as int <= 65535int,
                b as int <= 65535int,
        ;
        assert((a as int) * (b as int) >= 0) by (nonlinear_arith)
            requires
                a as int >= 0,
                b as int >= 0,
        ;
    }
    let p = (a as u32) * (b as u32);
    if p > u16::MAX as u32 {
        u16::MAX
    } else {
        p as u16
    }
}

/// Resolve the sizes of all children along one axis: non-`Fill` lengths
/// against `available`, then `Fill` weights against what remains.
#[verifier::loop_isolation(false)]
fn axis_sizes(lengths: &[Length], available: u16) -> (r: Vec<u16>)
    ensures
        r@.len() == lengths@.len(),
        forall|i: int|
            0 <= i < r@.len() ==> r@[i] == spec_axis_size(
                lengths@[i],
                available as int,
                acc_remaining(lengths@, available as int, available as int),
                acc_fill_weight(lengths@, 0),
            ),
{
    let ghost ls = lengths@;
    let n = lengths.len();
    // first pass: total fill weight and remaining space
    let mut weight: u16 = 0;
    let mut remaining: u16 = available;
    let mut i: usize = 0;
    proof {
        assert(ls.skip(0) =~= ls);
    }
    while i < n
        invariant
            0 <= i <= n,
            acc_fill_weight(ls.skip(i as int), weight as int) == acc_fill_weight(ls, 0),
            acc_remaining(ls.skip(i as int), available as int, remaining as int)
                == acc_remaining(ls, available as int, available as int),
        decreases n - i,
    {
        let ghost pre = ls.skip(i as int);
        proof {
            assert(pre[0] == ls[i as int]);
            assert(pre.drop_first() =~= ls.skip(i as int + 1));
        }
        match lengths[i] {
            Length::Fill(w) => {
                weight = sat_add_u16(weight, w);
            },
            other => {
                let size = other.resolve(available);
                remaining = sat_sub_u16(remaining, size);
            },
        }
        i = i + 1;
    }
    proof {
        assert(ls.skip(n as int) =~= Seq::<Length>::empty());
    }
    // second pass: one size per child
    let mut sizes: Vec<u16> = Vec::new();
    let mut k: usize = 0;
    while k < n
        invariant
            0 <= k <= n,
            sizes@.len() == k,
            weight as int == acc_fill_weight(ls, 0),
            remaining as int == acc_remaining(ls, available as int, available as int),
            forall|j: int|
                0 <= j < k ==> sizes@[j] == spec_axis_size(
                    ls[j],
                    available as int,
                    remaining as int,
                    weight as int,
                ),
        decreases n - k,
    {
        match lengths[k] {
            Length::Fill(wt) => {
                if weight > 0 {
                    proof {
                        assert(wt <= weight) by {
                            lemma_fill_weight_bounds(ls, 0, k as int);
                        }
                        assert((remaining as int) * (wt as int) <= 65535int * 65535int)
                            by (nonlinear_arith)
                            requires
                                remaining as int <= 65535int,
                                wt as int <= 65535int,
                        ;
                        assert((remaining as int) * (wt as int) / (weight as int)
                            <= remaining as int) by (nonlinear_arith)
                            requires
                                0 <= remaining as int,
                                0 <= wt as int <= weight as int,
                                0 < weight as int,
                        ;
                    }
                    let share = ((remaining as u64) * (wt as u64)) / (weight as u64);
                    sizes.push(share as u16);
                } else {
                    sizes.push(0);
                }
            },
            other => {
                sizes.push(other.resolve(available));
            },
        }
        k = k + 1;
    }
    sizes
}

/// Each `Fill` weight is at most the saturating total of all the weights.
proof fn lemma_fill_weight_bounds(ls: Seq<Length>, acc: int, i: int)
    requires
        0 <= acc <= u16::MAX,
        0 <= i < ls.len(),
    ensures
        acc_fill_weight(ls, acc) <= u16::MAX,
        acc_fill_weight(ls, acc) >= acc,
        ls[i] is Fill ==> acc_fill_weight(ls, acc) >= ls[i]->Fill_0,
    decreases ls.len(),
{
    let acc2 = match ls[0] {
        Length::Fill(w) => sat_add(acc, w as int),
        _ => acc,
    };
    if i == 0 {
        lemma_fill_weight_monotone(ls.drop_first(), acc2);
    } else {
        lemma_fill_weight_bounds(ls.drop_first(), acc2, i - 1);
    }
}

/// The saturating weight total never falls below its accumulator and never
/// exceeds the coordinate bound.
proof fn lemma_fill_weight_monotone(ls: Seq<Length>, acc: int)
    requires
        0 <= acc <= u16::MAX,
    ensures
        acc <= acc_fill_weight(ls, acc) <= u16::MAX,
    decreases ls.len(),
{
    if ls.len() > 0 {
        let acc2 = match ls[0] {
            Length::Fill(w) => sat_add(acc, w as int),
            _ => acc,
        };
        lemma_fill_weight_monotone(ls.drop_first(), acc2);
    }
}

/// A container that lays its children out left to right.
#[derive(Clone, Debug)]
pub struct Row {
    pub gap: u16,
    pub align: Align,
    pub justify: Justify,
}

impl Row {
    pub fn new() -> (r: Row)
        ensures
            r.gap == 0,
            r.align == Align::Stretch,
            r.justify == Justify::Start,
    {
        Row { gap: 0, align: Align::Stretch, justify: Justify::Start }
    }

    /// This row with the given inter-child gap.
    pub fn gap(self, gap: u16) -> (r: Row)
        ensures
            r == (Row { gap, ..self }),
    {
        Row { gap, ..self }
    }

    /// This row with the given cross-axis alignment.
    pub fn align(self, align: Align) -> (r: Row)
        ensures
            r == (Row { align, ..self }),
    {
        Row { align, ..self }
    }

    /// This row with the given main-axis justification.
    pub fn justify(self, justify: Justify) -> (r: Row)
        ensures
            r == (Row { justify, ..self }),
    {
        Row { justify, ..self }
    }

    /// Lay the children out horizontally: one rectangle per child, placed
    /// left to right from the justify offset, separated by the gap.
    #[verifier::loop_isolation(false)]
    #[verifier::rlimit(100)]
    #[verifier::spinoff_prover]
    pub fn layout(&self, area: Rect, child_widths: &[Length]) -> (r: Vec<Rect>)
        ensures
            r@.len() == child_widths@.len(),
            ({
                let ls = child_widths@;
                let avail = sat_sub(
                    area.width as int,
                    spec_total_gap(self.gap as int, ls.len() as int),
                );
                let rem = acc_remaining(ls, avail, avail);
                let w = acc_fill_weight(ls, 0);
                &&& forall|i: int|
                    0 <= i < r@.len() ==> r@[i].y == area.y && r@[i].height == area.height
                        && r@[i].width == spec_axis_size(ls[i], avail, rem, w)
                &&& ls.len() > 0 ==> r@[0].x == spec_justify_offset(
                    self.justify,
                    area.x as int,
                    area.width as int,
                    sat_add(
                        acc_sizes_sum(ls, avail, rem, w, 0),
                        spec_total_gap(self.gap as int, ls.len() as int),
                    ),
                )
                &&& forall|i: int|
                    0 < i < r@.len() ==> #[trigger] r@[i].x == sat_add(
                        sat_add(r@[i - 1].x as int, r@[i - 1].width as int),
                        self.gap as int,
                    )
            }),
    {
        let ghost ls = child_widths@;
        let n = child_widths.len();
        if n == 0 {
            return Vec::new();
        }
        let nm1: u16 = if n - 1 > u16::MAX as usize {
            u16::MAX
        } else {
            (n - 1) as u16
        };
        let total_gap = sat_mul_u16(self.gap, nm1);
        let available = sat_sub_u16(area.width, total_gap);
        let sizes = axis_sizes(child_widths, available);
        let total_size = sat_sum(&sizes);
        proof {
            lemma_sat_sum_is_acc(sizes@, ls, available as int, 0, 0);
        }
        let total_with_gaps = sat_add_u16(total_size, total_gap);
        let x0 = match self.justify {
            Justify::Start => area.x,
            Justify::End => sat_add_u16(area.x, sat_sub_u16(area.width, total_with_gaps)),
            Justify::Center => sat_add_u16(
                area.x,
                sat_sub_u16(area.width, total_with_gaps) / 2,
            ),
            Justify::SpaceBetween => area.x,
            Justify::SpaceAround => area.x,
            Justify::SpaceEvenly => area.x,
        };
        let mut rects: Vec<Rect> = Vec::new();
        let mut x = x0;
        let mut i: usize = 0;
        while i < n
            invariant
                0 <= i <= n,
                sizes@.len() == n,
                rects@.len() == i,
                forall|j: int|
                    #![trigger rects@[j]]
                    0 <= j < i ==> rects@[j].y == area.y && rects@[j].height == area.height
                        && rects@[j].width == sizes@[j],
                i > 0 ==> rects@[0].x == x0,
                forall|j: int|
                    0 < j < i ==> #[trigger] rects@[j].x == sat_add(
                        sat_add(rects@[j - 1].x as int, rects@[j - 1].width as int),
                        self.gap as int,
                    ),
                i < n ==> x as int == (if i == 0 {
                    x0 as int
                } else {
                    sat_add(
                        sat_add(rects@[i - 1].x as int, rects@[i - 1].width as int),
                        self.gap as int,
                    )
                }),
            decreases n - i,
        {
            let width = sizes[i];
            let ghost pre_rects = rects@;
            rects.push(Rect { x, y: area.y, width, height: area.height });
            proof {
                assert(rects@ == pre_rects.push(Rect { x, y: area.y, width, height: area.height }));
                assert(rects@[i as int].y == area.y);
                assert(rects@[i as int].height == area.height);
                assert(rects@[i as int].width == sizes@[i as int]);
                assert forall|j: int|
                    0 <= j < i + 1 implies rects@[j].y == area.y && rects@[j].height
                    == area.height && rects@[j].width == sizes@[j] by {
                    if j < i {
                        assert(rects@[j] == pre_rects[j]);
                        assert(pre_rects[j].y == area.y);
                        assert(pre_rects[j].height == area.height);
                        assert(pre_rects[j].width == sizes@[j]);
                    }
                }
            }
            x = sat_add_u16(sat_add_u16(x, width), self.gap);
            i = i + 1;
        }
        proof {
            assert forall|i: int|
                0 <= i < rects@.len() implies rects@[i].y == area.y && rects@[i].height
                == area.height && rects@[i].width == spec_axis_size(
                ls[i],
                available as int,
                acc_remaining(ls, available as int, available as int),
                acc_fill_weight(ls, 0),
            ) by {
                assert(rects@[i].width == sizes@[i]);
            }
        }
        rects
    }
}

impl Default for Row {
    fn default() -> (r: Row)
        ensures
            r.gap == 0,
            r.align == Align::Stretch,
            r.justify == Justify::Start,
    {
        Row::new()
    }
}

/// The saturating sum of a vector of sizes.
#[verifier::loop_isolation(false)]
fn sat_sum(sizes: &Vec<u16>) -> (r: u16)
    ensures
        r == acc_sat_sum(sizes@, 0),
{
    let ghost s = sizes@;
    let mut total: u16 = 0;
    let mut i: usize = 0;
    proof {
        assert(s.skip(0) =~= s);
    }
    while i < sizes.len()
        invariant
            0 <= i <= s.len(),
            acc_sat_sum(s.skip(i as int), total as int) == acc_sat_sum(s, 0),
            0 <= total <= u16::MAX,
        decreases s.len() - i,
    {
        let ghost pre = s.skip(i as int);
        proof {
            assert(pre[0] == s[i as int]);
            assert(pre.drop_first() =~= s.skip(i as int + 1));
        }
        total = sat_add_u16(total, sizes[i]);
        i = i + 1;
    }
    proof {
        assert(s.skip(s.len() as int) =~= Seq::<u16>::empty());
    }
    total
}

/// The saturating sum of a sequence of sizes.
pub open spec fn acc_sat_sum(s: Seq<u16>, acc: int) -> int
    decreases s.len(),
{
    if s.len() == 0 {
        acc
    } else {
        acc_sat_sum(s.drop_first(), sat_add(acc, s[0] as int))
    }
}

/// The saturating sum of the resolved sizes equals the size-sum fold of the
/// length specifications.
proof fn lemma_sat_sum_is_acc(sizes: Seq<u16>, ls: Seq<Length>, avail: int, acc: int, i: int)
    requires
        sizes.len() == ls.len(),
        forall|j: int|
            0 <= j < ls.len() ==> sizes[j] == spec_axis_size(
                ls[j],
                avail,
                acc_remaining(ls, avail, avail),
                acc_fill_weight(ls, 0),
            ),
    ensures
        acc_sat_sum(sizes, acc) == acc_sizes_sum(
            ls,
            avail,
            acc_remaining(ls, avail, avail),
            acc_fill_weight(ls, 0),
            acc,
        ),
    decreases sizes.len(),
{
    if sizes.len() > 0 {
        let ghost rem = acc_remaining(ls, avail, avail);
        let ghost w = acc_fill_weight(ls, 0);
        lemma_sizes_sum_shift(sizes.drop_first(), ls.drop_first(), avail, rem, w,
            sat_add(acc, sizes[0] as int));
    }
}

/// Folding the sizes of a suffix agrees between the two folds when every
/// size matches the specification pointwise.
proof fn lemma_sizes_sum_shift(
    sizes: Seq<u16>,
    ls: Seq<Length>,
    avail: int,
    rem: int,
    w: int,
    acc: int,
)
    requires
        sizes.len() == ls.len(),
        forall|j: int|
            0 <= j < ls.len() ==> sizes[j] == spec_axis_size(ls[j], avail, rem, w),
    ensures
        acc_sat_sum(sizes, acc) == acc_sizes_sum(ls, avail, rem, w, acc),
    decreases sizes.len(),
{
    if sizes.len() > 0 {
        lemma_sizes_sum_shift(
            sizes.drop_first(),
            ls.drop_first(),
            avail,
            rem,
            w,
            sat_add(acc, sizes[0] as int),
        );
    }
}

/// A container that lays its children out top to bottom.
#[derive(Clone, Debug)]
pub struct Column {
    pub gap: u16,
    pub align: Align,
    pub justify: Justify,
}

impl Column {
    pub fn new() -> (r: Column)
        ensures
            r.gap == 0,
            r.align == Align::Stretch,
            r.justify == Justify::Start,
    {
        Column { gap: 0, align: Align::Stretch, justify: Justify::Start }
    }

    /// This column with the given inter-child gap.
    pub fn gap(self, gap: u16) -> (r: Column)
        ensures
            r == (Column { gap, ..self }),
    {
        Column { gap, ..self }
    }

    /// This column with the given cross-axis alignment.
    pub fn align(self, align: Align) -> (r: Column)
        ensures
            r == (Column { align, ..self }),
    {
        Column { align, ..self }
    }

    /// This column with the given main-axis justification.
    pub fn justify(self, justify: Justify) -> (r: Column)
        ensures
            r == (Column { justify, ..self }),
    {
        Column { justify, ..self }
    }

    /// Lay the children out vertically: one rectangle per child, placed top
    /// to bottom from the justify offset, separated by the gap.
    #[verifier::loop_isolation(false)]
    #[verifier::rlimit(100)]
    #[verifier::spinoff_prover]
    pub fn layout(&self, area: Rect, child_heights: &[Length]) -> (r: Vec<Rect>)
        ensures
            r@.len() == child_heights@.len(),
            ({
                let ls = child_heights@;
                let avail = sat_sub(
                    area.height as int,
                    spec_total_gap(self.gap as int, ls.len() as int),
                );
                let rem = acc_remaining(ls, avail, avail);
                let w = acc_fill_weight(ls, 0);
                &&& forall|i: int|
                    0 <= i < r@.len() ==> r@[i].x == area.x && r@[i].width == area.width
                        && r@[i].height == spec_axis_size(ls[i], avail, rem, w)
                &&& ls.len() > 0 ==> r@[0].y == spec_justify_offset(
                    self.justify,
                    area.y as int,
                    area.height as int,
                    sat_add(
                        acc_sizes_sum(ls, avail, rem, w, 0),
                        spec_total_gap(self.gap as int, ls.len() as int),
                    ),
                )
                &&& forall|i: int|
                    0 < i < r@.len() ==> #[trigger] r@[i].y == sat_add(
                        sat_add(r@[i - 1].y as int, r@[i - 1].height as int),
                        self.gap as int,
                    )
            }),
    {
        let ghost ls = child_heights@;
        let n = child_heights.len();
        if n == 0 {
            return Vec::new();
        }
        let nm1: u16 = if n - 1 > u16::MAX as usize {
            u16::MAX
        } else {
            (n - 1) as u16
        };
        let total_gap = sat_mul_u16(self.gap, nm1);
        let available = sat_sub_u16(area.height, total_gap);
        let sizes = axis_sizes(child_heights, available);
        let total_size = sat_sum(&sizes);
        proof {
            lemma_sat_sum_is_acc(sizes@, ls, available as int, 0, 0);
        }
        let total_with_gaps = sat_add_u16(total_size, total_gap);
        let y0 = match self.justify {
            Justify::Start => area.y,
            Justify::End => sat_add_u16(area.y, sat_sub_u16(area.height, total_with_gaps)),
            Justify::Center => sat_add_u16(
                area.y,
                sat_sub_u16(area.height, total_with_gaps) / 2,
            ),
            Justify::SpaceBetween => area.y,
            Justify::SpaceAround => area.y,
            Justify::SpaceEvenly => area.y,
        };
        let mut rects: Vec<Rect> = Vec::new();
        let mut y = y0;
        let mut i: usize = 0;
        while i < n
            invariant
                0 <= i <= n,
                sizes@.len() == n,
                rects@.len() == i,
                forall|j: int|
                    #![trigger rects@[j]]
                    0 <= j < i ==> rects@[j].x == area.x && rects@[j].width == area.width
                        && rects@[j].height == sizes@[j],
                i > 0 ==> rects@[0].y == y0,
                forall|j: int|
                    0 < j < i ==> #[trigger] rects@[j].y == sat_add(
                        sat_add(rects@[j - 1].y as int, rects@[j - 1].height as int),
                        self.gap as int,
                    ),
                i < n ==> y as int == (if i == 0 {
                    y0 as int
                } else {
                    sat_add(
                        sat_add(rects@[i - 1].y as int, rects@[i - 1].height as int),
                        self.gap as int,
                    )
                }),
            decreases n - i,
        {
            let height = sizes[i];
            let ghost pre_rects = rects@;
            rects.push(Rect { x: area.x, y, width: area.width, height });
            proof {
                assert forall|j: int|
                    0 <= j < i + 1 implies rects@[j].x == area.x && rects@[j].width
                    == area.width && rects@[j].height == sizes@[j] by {
                    if j < i {
                        assert(rects@[j] == pre_rects[j]);
                    } else {
                        assert(rects@[j] == (Rect { x: area.x, y, width: area.width, height }));
                    }
                }
            }
            y = sat_add_u16(sat_add_u16(y, height), self.gap);
            i = i + 1;
        }
        proof {
            assert forall|i: int|
                0 <= i < rects@.len() implies rects@[i].x == area.x && rects@[i].width
                == area.width && rects@[i].height == spec_axis_size(
                ls[i],
                available as int,
                acc_remaining(ls, available as int, available as int),
                acc_fill_weight(ls, 0),
            ) by {
                assert(rects@[i].height == sizes@[i]);
            }
        }
        rects
    }
}

impl Default for Column {
    fn default() -> (r: Column)
        ensures
            r.gap == 0,
            r.align == Align::Stretch,
            r.justify == Justify::Start,
    {
        Column::new()
    }
}

/// A container that overlays all of its children on the same area.
#[derive(Clone, Debug)]
pub struct Stack {
    pub align: Align,
}

impl Stack {
    pub fn new() -> (r: Stack)
        ensures
            r.align == Align::Stretch,
    {
        Stack { align: Align::Stretch }
    }

    /// This stack with the given alignment.
    pub fn align(self, align: Align) -> (r: Stack)
        ensures
            r == (Stack { align }),
    {
        Stack { align }
    }

    /// Every child receives the full area.
    #[verifier::loop_isolation(false)]
    pub fn layout(&self, area: Rect, count: usize) -> (r: Vec<Rect>)
        ensures
            r@.len() == count,
            forall|i: int| 0 <= i < r@.len() ==> r@[i] == area,
    {
        let mut rects: Vec<Rect> = Vec::new();
        let mut i: usize = 0;
        while i < count
            invariant
                0 <= i <= count,
                rects@.len() == i,
                forall|j: int| 0 <= j < i ==> rects@[j] == area,
            decreases count - i,
        {
            rects.push(area);
            i = i + 1;
        }
        rects
    }
}

impl Default for Stack {
    fn default() -> (r: Stack)
        ensures
            r.align == Align::Stretch,
    {
        Stack::new()
    }
}

/// The exact (non-saturating) sum of the `Fill` weights.
pub open spec fn exact_fill_weight(ls: Seq<Length>) -> int
    decreases ls.len(),
{
    if ls.len() == 0 {
        0
    } else {
        (match ls[0] {
            Length::Fill(w) => w as int,
            _ => 0int,
        }) + exact_fill_weight(ls.drop_first())
    }
}

/// The exact sum of the shares handed to a sequence of pure-`Fill` entries.
pub open spec fn exact_share_sum(ls: Seq<Length>, rem: int, w: int) -> int
    decreases ls.len(),
{
    if ls.len() == 0 {
        0
    } else {
        (match ls[0] {
            Length::Fill(wt) => rem * wt / w,
            _ => 0int,
        }) + exact_share_sum(ls.drop_first(), rem, w)
    }
}

/// Layout conservation: when every entry is a `Fill` and the weights sum to
/// `w > 0`, the shares never overshoot the remaining space, and they fall
/// short of it by less than the number of entries.
pub proof fn lemma_fill_conservation(ls: Seq<Length>, rem: int, w: int)
    requires
        forall|i: int| 0 <= i < ls.len() ==> ls[i] is Fill,
        w == exact_fill_weight(ls),
        w > 0,
        rem >= 0,
    ensures
        exact_share_sum(ls, rem, w) <= rem,
        exact_share_sum(ls, rem, w) >= rem - ls.len(),
{
    lemma_share_sum_bounds(ls, rem, w);
    let ws = exact_fill_weight(ls);
    assert(w * exact_share_sum(ls, rem, w) <= rem * ws);
    assert(w * exact_share_sum(ls, rem, w) >= rem * ws - w * ls.len());
    assert(exact_share_sum(ls, rem, w) <= rem) by (nonlinear_arith)
        requires
            w > 0,
            w * exact_share_sum(ls, rem, w) <= rem * w,
    ;
    assert(exact_share_sum(ls, rem, w) >= rem - ls.len()) by (nonlinear_arith)
        requires
            w > 0,
            w * exact_share_sum(ls, rem, w) >= rem * w - w * ls.len(),
    ;
}

/// The share sum, scaled by the total weight, is within one weight-unit per
/// entry of the remaining space scaled by the weights handed out.
proof fn lemma_share_sum_bounds(ls: Seq<Length>, rem: int, w: int)
    requires
        forall|i: int| 0 <= i < ls.len() ==> ls[i] is Fill,
        w > 0,
        rem >= 0,
    ensures
        w * exact_share_sum(ls, rem, w) <= rem * exact_fill_weight(ls),
        w * exact_share_sum(ls, rem, w) >= rem * exact_fill_weight(ls) - w * ls.len(),
    decreases ls.len(),
{
    if ls.len() == 0 {
        assert(w * 0 == 0) by (nonlinear_arith);
        assert(rem * 0 == 0) by (nonlinear_arith);
    } else {
        let tail = ls.drop_first();
        assert(forall|i: int| 0 <= i < tail.len() ==> tail[i] is Fill);
        lemma_share_sum_bounds(tail, rem, w);
        let wt = ls[0]->Fill_0 as int;
        let share = rem * wt / w;
        vstd::arithmetic::div_mod::lemma_fundamental_div_mod(rem * wt, w);
        vstd::arithmetic::div_mod::lemma_mod_bound(rem * wt, w);
        assert(rem * wt >= 0) by (nonlinear_arith)
            requires
                rem >= 0,
                wt >= 0,
        ;
        assert(w * share <= rem * wt && w * share > rem * wt - w) by (nonlinear_arith)
            requires
                w > 0,
                rem * wt == w * share + (rem * wt) % w,
                0 <= (rem * wt) % w < w,
        ;
        assert(exact_share_sum(ls, rem, w) == share + exact_share_sum(tail, rem, w));
        assert(exact_fill_weight(ls) == wt + exact_fill_weight(tail));
        assert(w * exact_share_sum(ls, rem, w) == w * share + w * exact_share_sum(
            tail,
            rem,
            w,
        )) by (nonlinear_arith)
            requires
                exact_share_sum(ls, rem, w) == share + exact_share_sum(tail, rem, w),
        ;
        assert(rem * exact_fill_weight(ls) == rem * wt + rem * exact_fill_weight(tail))
            by (nonlinear_arith)
            requires
                exact_fill_weight(ls) == wt + exact_fill_weight(tail),
        ;
        assert(w * (ls.len() as int) == w + w * (tail.len() as int)) by (nonlinear_arith)
            requires
                ls.len() == tail.len() + 1,
        ;
        assert(w * exact_share_sum(ls, rem, w) <= rem * exact_fill_weight(ls));
        assert(w * exact_share_sum(ls, rem, w) >= rem * exact_fill_weight(ls) - w * (
        ls.len() as int));
    }
}

} // verus!
