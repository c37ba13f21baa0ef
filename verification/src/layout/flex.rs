//! Flexible box layout: per-item grow and shrink weights around a base
//! size, clamped by optional minima and maxima.

use vstd::prelude::*;

use crate::layout::sat_add;
use crate::layout::sat_add_u16;
use crate::layout::sat_sub;
use crate::layout::sat_sub_u16;
use crate::layout::spec_resolve;
use crate::layout::FlexDirection;
use crate::layout::Length;
use crate::layout::Rect;

verus! {

/// One flex entry: a base size with grow and shrink weights and optional
/// size bounds.
#[derive(Debug, Clone, Copy, PartialEq, Eq, Structural)]
pub struct FlexItem {
    /// How strongly this item takes a share of left-over space.
    pub grow: u16,
    /// How strongly this item gives up space when the row overflows.
    pub shrink: u16,
    /// The size the item starts from.
    pub basis: Length,
    /// The item never becomes smaller than this.
    pub min: Option<u16>,
    /// The item never becomes larger than this.
    pub max: Option<u16>,
}

impl FlexItem {
    pub fn new() -> (r: FlexItem)
        ensures
            r == (FlexItem {
                grow: 0u16,
                shrink: 1u16,
                basis: Length::Fill(0u16),
                min: None,
                max: None,
            }),
    {
        FlexItem { grow: 0, shrink: 1, basis: Length::Fill(0), min: None, max: None }
    }

    pub fn grow(self, grow: u16) -> (r: FlexItem)
        ensures
            r == (FlexItem { grow, ..self }),
    {
        FlexItem { grow, ..self }
    }

    pub fn shrink(self, shrink: u16) -> (r: FlexItem)
        ensures
            r == (FlexItem { shrink, ..self }),
    {
        FlexItem { shrink, ..self }
    }

    pub fn basis(self, basis: Length) -> (r: FlexItem)
        ensures
            r == (FlexItem { basis, ..self }),
    {
        FlexItem { basis, ..self }
    }

    /// A fixed base size.
    pub fn fixed(self, size: u16) -> (r: FlexItem)
        ensures
            r == (FlexItem { basis: Length::Fixed(size), ..self }),
    {
        FlexItem { basis: Length::Fixed(size), ..self }
    }

    pub fn min(self, min: u16) -> (r: FlexItem)
        ensures
            r == (FlexItem { min: Some(min), ..self }),
    {
        FlexItem { min: Some(min), ..self }
    }

    pub fn max(self, max: u16) -> (r: FlexItem)
        ensures
            r == (FlexItem { max: Some(max), ..self }),
    {
        FlexItem { max: Some(max), ..self }
    }
}

impl Default for FlexItem {
    fn default() -> (r: FlexItem)
        ensures
            r == (FlexItem {
                grow: 0u16,
                shrink: 1u16,
                basis: Length::Fill(0u16),
                min: None,
                max: None,
            }),
    {
        FlexItem::new()
    }
}

/// The base size of an item: its basis resolved against the main extent,
/// clamped by its bounds.  A `Fill` basis starts at zero and only grows.
pub open spec fn spec_base_size(it: FlexItem, main: int) -> int {
    let base = match it.basis {
        Length::Fill(_) => 0int,
        other => spec_resolve(other, main),
    };
    let lo = match it.min {
        Some(m) => if base >= m {
            base
        } else {
            m as int
        },
        None => base,
    };
    match it.max {
        Some(m) => if lo <= m {
            lo
        } else {
            m as int
        },
        None => lo,
    }
}

/// The saturating sum of all base sizes, folded front to back.
pub open spec fn acc_base(items: Seq<FlexItem>, main: int, acc: int) -> int
    decreases items.len(),
{
    if items.len() == 0 {
        acc
    } else {
        acc_base(items.drop_first(), main, sat_add(acc, spec_base_size(items[0], main)))
    }
}

/// The saturating total of the base sizes.
pub open spec fn sum_base(items: Seq<FlexItem>, main: int) -> int {
    acc_base(items, main, 0)
}

/// The saturating sum of the grow weights, folded front to back.
pub open spec fn acc_grow(items: Seq<FlexItem>, acc: int) -> int
    decreases items.len(),
{
    if items.len() == 0 {
        acc
    } else {
        acc_grow(items.drop_first(), sat_add(acc, items[0].grow as int))
    }
}

/// The saturating total of the grow weights.
pub open spec fn sum_grow(items: Seq<FlexItem>) -> int {
    acc_grow(items, 0)
}

/// The saturating sum of the shrink weights, folded front to back.
pub open spec fn acc_shrink(items: Seq<FlexItem>, acc: int) -> int
    decreases items.len(),
{
    if items.len() == 0 {
        acc
    } else {
        acc_shrink(items.drop_first(), sat_add(acc, items[0].shrink as int))
    }
}

/// The saturating total of the shrink weights.
pub open spec fn sum_shrink(items: Seq<FlexItem>) -> int {
    acc_shrink(items, 0)
}

/// The final size of one item after distributing the deficit or overflow.
pub open spec fn spec_flex_size(it: FlexItem, main: int, total: int, tg: int, ts: int) -> int {
    let base = spec_base_size(it, main);
    if total < main && tg > 0 && it.grow > 0 {
        let grown = sat_add(base, (main - total) * it.grow / tg);
        match it.max {
            Some(m) => if grown <= m {
                grown
            } else {
                m as int
            },
            None => grown,
        }
    } else if total > main && ts > 0 && it.shrink > 0 && base > 0 {
        let shrunk = sat_sub(base, (total - main) * it.shrink / ts);
        match it.min {
            Some(m) => if shrunk >= m {
                shrunk
            } else {
                m as int
            },
            None => shrunk,
        }
    } else {
        base
    }
}

/// A flex container: a direction and a list of items.
#[derive(Debug, Clone)]
pub struct Flex {
    pub direction: FlexDirection,
    pub items: Vec<FlexItem>,
}

impl Flex {
    pub fn new(direction: FlexDirection) -> (r: Flex)
        ensures
            r.direction == direction,
            r.items@.len() == 0,
    {
        Flex { direction, items: Vec::new() }
    }

    /// This container with one more item at the end.
    pub fn add(self, item: FlexItem) -> (r: Flex)
        ensures
            r.direction == self.direction,
            r.items@ == self.items@.push(item),
    {
        let mut f = self;
        f.items.push(item);
        f
    }

    /// Compute one rectangle per item.  Base sizes come from each basis
    /// clamped by its bounds; a deficit is shared among growing items in
    /// proportion to their grow weights, an overflow among shrinking items
    /// in proportion to their shrink weights; `min` and `max` are always
    /// respected.  Items are placed one after another along the main axis;
    /// the cross axis is the container's full extent.
    #[verifier::loop_isolation(false)]
    #[verifier::rlimit(100)]
    #[verifier::spinoff_prover]
    pub fn calculate(&self, container: Rect) -> (r: Vec<Rect>)
        ensures
            r@.len() == self.items@.len(),
            ({
                let items = self.items@;
                let main = if self.direction == FlexDirection::Row {
                    container.width as int
                } else {
                    container.height as int
                };
                let total = sum_base(items, main);
                let tg = sum_grow(items);
                let ts = sum_shrink(items);
                &&& (self.direction == FlexDirection::Row ==> forall|i: int|
                    0 <= i < r@.len() ==> (#[trigger] r@[i]).y == container.y && r@[i].height
                        == container.height && r@[i].width == spec_flex_size(
                        items[i],
                        main,
                        total,
                        tg,
                        ts,
                    ))
                &&& (self.direction == FlexDirection::Column ==> forall|i: int|
                    0 <= i < r@.len() ==> (#[trigger] r@[i]).x == container.x && r@[i].width
                        == container.width && r@[i].height == spec_flex_size(
                        items[i],
                        main,
                        total,
                        tg,
                        ts,
                    ))
                &&& (self.direction == FlexDirection::Row ==> (r@.len() > 0 ==> r@[0].x
                    == container.x) && (forall|i: int|
                    0 < i < r@.len() ==> (#[trigger] r@[i]).x == sat_add(
                        r@[i - 1].x as int,
                        r@[i - 1].width as int,
                    )))
                &&& (self.direction == FlexDirection::Column ==> (r@.len() > 0 ==> r@[0].y
                    == container.y) && (forall|i: int|
                    0 < i < r@.len() ==> (#[trigger] r@[i]).y == sat_add(
                        r@[i - 1].y as int,
                        r@[i - 1].height as int,
                    )))
            }),
    {
        let ghost items = self.items@;
        let n = self.items.len();
        if n == 0 {
            return Vec::new();
        }
        let main: u16 = if matches!(self.direction, FlexDirection::Row) {
            container.width
        } else {
            container.height
        };
        // totals
        let mut total: u16 = 0;
        let mut tg: u16 = 0;
        let mut ts: u16 = 0;
        let mut i: usize = 0;
        proof {
            assert(items.skip(0) =~= items);
        }
        while i < n
            invariant
                0 <= i <= n,
                acc_base(items.skip(i as int), main as int, total as int)
                    == sum_base(items, main as int),
                acc_grow(items.skip(i as int), tg as int) == sum_grow(items),
                acc_shrink(items.skip(i as int), ts as int) == sum_shrink(items),
            decreases n - i,
        {
            let ghost pre = items.skip(i as int);
            proof {
                assert(pre[0] == items[i as int]);
                assert(pre.drop_first() =~= items.skip(i as int + 1));
            }
            let b = base_size(&self.items[i], main);
            total = sat_add_u16(total, b);
            tg = sat_add_u16(tg, self.items[i].grow);
            ts = sat_add_u16(ts, self.items[i].shrink);
            i = i + 1;
        }
        proof {
            assert(items.skip(n as int) =~= Seq::<FlexItem>::empty());
        }
        // sizes
        let mut sizes: Vec<u16> = Vec::new();
        let mut k: usize = 0;
        while k < n
            invariant
                0 <= k <= n,
                sizes@.len() == k,
                total as int == sum_base(items, main as int),
                tg as int == sum_grow(items),
                ts as int == sum_shrink(items),
                forall|j: int|
                    0 <= j < k ==> sizes@[j] == spec_flex_size(
                        items[j],
                        main as int,
                        total as int,
                        tg as int,
                        ts as int,
                    ),
            decreases n - k,
        {
            let it = self.items[k];
            let base = base_size(&it, main);
            let size: u16;
            if total < main && tg > 0 && it.grow > 0 {
                let deficit = main - total;
                proof {
                    lemma_flex_member_bound(items, k as int);
                    assert(deficit as int * (it.grow as int) / (tg as int)
                        <= deficit as int) by (nonlinear_arith)
                        requires
                            0 <= deficit as int,
                            0 < it.grow as int <= tg as int,
                    ;
                }
                let share = mul_div_u64(deficit as u64, it.grow as u64, tg as u64);
                let grown = sat_add_u16(base, share as u16);
                size = match it.max {
                    Some(m) => if grown <= m {
                        grown
                    } else {
                        m
                    },
                    None => grown,
                };
            } else if total > main && ts > 0 && it.shrink > 0 && base > 0 {
                let overflow = total - main;
                proof {
                    lemma_flex_member_bound(items, k as int);
                    assert(overflow as int * (it.shrink as int) / (ts as int)
                        <= overflow as int) by (nonlinear_arith)
                        requires
                            0 <= overflow as int,
                            0 < it.shrink as int <= ts as int,
                    ;
                }
                let cut = mul_div_u64(overflow as u64, it.shrink as u64, ts as u64);
                let shrunk = sat_sub_u16(base, cut as u16);
                size = match it.min {
                    Some(m) => if shrunk >= m {
                        shrunk
                    } else {
                        m
                    },
                    None => shrunk,
                };
            } else {
                size = base;
            }
            sizes.push(size);
            k = k + 1;
        }
        // rectangles
        let mut rects: Vec<Rect> = Vec::new();
        let is_row = matches!(self.direction, FlexDirection::Row);
        let mut offset: u16 = if is_row {
            container.x
        } else {
            container.y
        };
        let mut m: usize = 0;
        while m < n
            invariant
                0 <= m <= n,
                sizes@.len() == n,
                rects@.len() == m,
                is_row == (self.direction == FlexDirection::Row),
                is_row ==> forall|j: int|
                    0 <= j < m ==> (#[trigger] rects@[j]).y == container.y && rects@[j].height
                        == container.height && rects@[j].width == sizes@[j],
                !is_row ==> forall|j: int|
                    0 <= j < m ==> (#[trigger] rects@[j]).x == container.x && rects@[j].width
                        == container.width && rects@[j].height == sizes@[j],
                is_row && m > 0 ==> rects@[0].x == container.x,
                !is_row && m > 0 ==> rects@[0].y == container.y,
                is_row ==> forall|j: int|
                    0 < j < m ==> (#[trigger] rects@[j]).x == sat_add(
                        rects@[j - 1].x as int,
                        rects@[j - 1].width as int,
                    ),
                !is_row ==> forall|j: int|
                    0 < j < m ==> (#[trigger] rects@[j]).y == sat_add(
                        rects@[j - 1].y as int,
                        rects@[j - 1].height as int,
                    ),
                m < n && is_row ==> offset as int == (if m == 0 {
                    container.x as int
                } else {
                    sat_add(rects@[m - 1].x as int, rects@[m - 1].width as int)
                }),
                m < n && !is_row ==> offset as int == (if m == 0 {
                    container.y as int
                } else {
                    sat_add(rects@[m - 1].y as int, rects@[m - 1].height as int)
                }),
            decreases n - m,
        {
            let size = sizes[m];
            let ghost pre_rects = rects@;
            if is_row {
                rects.push(Rect { x: offset, y: container.y, width: size, height: container.height });
            } else {
                rects.push(Rect { x: container.x, y: offset, width: container.width, height: size });
            }
            proof {
                assert(rects@[m as int].x == if is_row {
                    offset
                } else {
                    container.x
                });
                assert forall|j: int| 0 <= j < m implies rects@[j] == pre_rects[j] by {}
            }
            offset = sat_add_u16(offset, size);
            m = m + 1;
        }
        proof {
            if is_row {
                assert forall|i2: int|
                    0 <= i2 < rects@.len() implies (#[trigger] rects@[i2]).y == container.y
                    && rects@[i2].height == container.height && rects@[i2].width
                    == spec_flex_size(
                    items[i2],
                    main as int,
                    total as int,
                    tg as int,
                    ts as int,
                ) by {
                    assert(rects@[i2].width == sizes@[i2]);
                }
            } else {
                assert forall|i2: int|
                    0 <= i2 < rects@.len() implies (#[trigger] rects@[i2]).x == container.x
                    && rects@[i2].width == container.width && rects@[i2].height
                    == spec_flex_size(
                    items[i2],
                    main as int,
                    total as int,
                    tg as int,
                    ts as int,
                ) by {
                    assert(rects@[i2].height == sizes@[i2]);
                }
            }
        }
        rects
    }
}

/// The quotient `a * b / d` in 64 bits.
fn mul_div_u64(a: u64, b: u64, d: u64) -> (r: u64)
    requires
        d > 0,
        a <= 65535,
        b <= 65535,
    ensures
        r == a as int * b as int / d as int,
{
    proof {
        assert(a as int * b as int <= 65535int * 65535int) by (nonlinear_arith)
            requires
                a <= 65535,
                b <= 65535,
        ;
        assert(a as int * b as int >= 0) by (nonlinear_arith)
            requires
                a >= 0,
                b >= 0,
        ;
        assert(a as int * b as int / d as int <= a as int * b as int) by (nonlinear_arith)
            requires
                d as int >= 1,
                a as int * b as int >= 0,
        ;
    }
    (a * b) / d
}

/// The base size of one item, computed executably.
fn base_size(it: &FlexItem, main: u16) -> (r: u16)
    ensures
        r == spec_base_size(*it, main as int),
{
    let base: u16 = match it.basis {
        Length::Fill(_) => 0,
        other => other.resolve(main),
    };
    let lo = match it.min {
        Some(m) => if base >= m {
            base
        } else {
            m
        },
        None => base,
    };
    match it.max {
        Some(m) => if lo <= m {
            lo
        } else {
            m
        },
        None => lo,
    }
}

/// Each member's weight is at most the saturating total of all weights.
proof fn lemma_flex_member_bound(items: Seq<FlexItem>, i: int)
    requires
        0 <= i < items.len(),
    ensures
        items[i].grow <= sum_grow(items),
        items[i].shrink <= sum_shrink(items),
        sum_grow(items) <= u16::MAX,
        sum_shrink(items) <= u16::MAX,
{
    lemma_flex_acc_bounds(items, 0, 0, i);
}

/// The saturating weight folds stay within bounds and dominate every
/// member that contributes to them.
proof fn lemma_flex_acc_bounds(items: Seq<FlexItem>, ag: int, as_: int, i: int)
    requires
        0 <= ag <= u16::MAX,
        0 <= as_ <= u16::MAX,
        0 <= i < items.len(),
    ensures
        ag <= acc_grow(items, ag) <= u16::MAX,
        as_ <= acc_shrink(items, as_) <= u16::MAX,
        items[i].grow <= acc_grow(items, ag),
        items[i].shrink <= acc_shrink(items, as_),
    decreases items.len(),
{
    let ag2 = sat_add(ag, items[0].grow as int);
    let as2 = sat_add(as_, items[0].shrink as int);
    if i == 0 {
        lemma_flex_acc_monotone(items.drop_first(), ag2, as2);
    } else {
        lemma_flex_acc_bounds(items.drop_first(), ag2, as2, i - 1);
    }
}

/// The saturating weight folds never fall below their accumulators.
proof fn lemma_flex_acc_monotone(items: Seq<FlexItem>, ag: int, as_: int)
    requires
        0 <= ag <= u16::MAX,
        0 <= as_ <= u16::MAX,
    ensures
        ag <= acc_grow(items, ag) <= u16::MAX,
        as_ <= acc_shrink(items, as_) <= u16::MAX,
    decreases items.len(),
{
    if items.len() > 0 {
        lemma_flex_acc_monotone(
            items.drop_first(),
            sat_add(ag, items[0].grow as int),
            sat_add(as_, items[0].shrink as int),
        );
    }
}

} // verus!
