//! The frame differ: row hashing, span detection and region coalescing.
//!
//! `compute_diff` compares two buffers and returns the regions that must be
//! redrawn.  Rows are first compared by a 64-bit FNV-1a hash; rows whose
//! hashes differ are scanned for maximal runs of unequal cells, and the
//! resulting one-row regions are coalesced when they are separated by at
//! most one cell.

use vstd::multiset::Multiset;
use vstd::prelude::*;

use crate::layout::rect_contains;
use crate::layout::Rect;
use crate::render::buffer::Buffer;
use crate::render::buffer::Cell;

verus! {

/// A rectangle of the screen that must be redrawn.
#[derive(Clone, Copy, Debug, PartialEq, Eq, Structural)]
pub struct DirtyRegion {
    pub rect: Rect,
}

impl DirtyRegion {
    pub fn new(rect: Rect) -> (r: DirtyRegion)
        ensures
            r.rect == rect,
    {
        DirtyRegion { rect }
    }

    /// A region covering the whole screen.
    pub fn full_screen(width: u16, height: u16) -> (r: DirtyRegion)
        ensures
            r.rect == (Rect { x: 0u16, y: 0u16, width, height }),
    {
        DirtyRegion { rect: Rect { x: 0, y: 0, width, height } }
    }
}

/// Whether some region of `regions` contains the cell `(x, y)`.
pub open spec fn covered(regions: Seq<DirtyRegion>, x: int, y: int) -> bool {
    exists|i: int| 0 <= i < regions.len() && rect_contains(regions[i].rect, x, y)
}

/// The FNV-1a offset basis.
pub open spec fn fnv_offset() -> u64 {
    0xcbf29ce484222325u64
}

/// One FNV-1a step: fold the word `v` into the running hash `h`.
pub open spec fn fnv_step(h: u64, v: u64) -> u64 {
    vstd::wrapping::u64_specs::wrapping_mul(h ^ v, 0x100000001b3u64)
}

/// Fold a sequence of words into the running hash, left to right.
pub open spec fn fnv_fold(h: u64, ws: Seq<u64>) -> u64
    decreases ws.len(),
{
    if ws.len() == 0 {
        h
    } else {
        fnv_fold(fnv_step(h, ws[0]), ws.drop_first())
    }
}

/// The words one cell contributes to its row hash: the code point, the
/// channels of the foreground and background when present, and the modifier
/// bits.  An absent color contributes nothing.
pub open spec fn cell_words(c: Cell) -> Seq<u64> {
    let fg = match c.style.fg {
        Some(col) => seq![col.r as u64, col.g as u64, col.b as u64],
        None => Seq::<u64>::empty(),
    };
    let bg = match c.style.bg {
        Some(col) => seq![col.r as u64, col.g as u64, col.b as u64],
        None => Seq::<u64>::empty(),
    };
    seq![c.ch as u64] + fg + bg + seq![c.style.modifiers.bits as u64]
}

/// Fold a row of cells into the running hash.
pub open spec fn fnv_cells(h: u64, cells: Seq<Cell>) -> u64
    decreases cells.len(),
{
    if cells.len() == 0 {
        h
    } else {
        fnv_cells(fnv_fold(h, cell_words(cells[0])), cells.drop_first())
    }
}

/// The 64-bit FNV-1a hash of a row.
pub open spec fn spec_line_hash(cells: Seq<Cell>) -> u64 {
    fnv_cells(fnv_offset(), cells)
}

/// Fold the words of one cell into the hash.
fn hash_cell(h0: u64, cell: &Cell) -> (r: u64)
    ensures
        r == fnv_fold(h0, cell_words(*cell)),
{
    let mut h = h0;
    h = (h ^ (cell.ch as u64)).wrapping_mul(0x100000001b3u64);
    match cell.style.fg {
        Some(col) => {
            h = (h ^ (col.r as u64)).wrapping_mul(0x100000001b3u64);
            h = (h ^ (col.g as u64)).wrapping_mul(0x100000001b3u64);
            h = (h ^ (col.b as u64)).wrapping_mul(0x100000001b3u64);
        },
        None => {},
    }
    match cell.style.bg {
        Some(col) => {
            h = (h ^ (col.r as u64)).wrapping_mul(0x100000001b3u64);
            h = (h ^ (col.g as u64)).wrapping_mul(0x100000001b3u64);
            h = (h ^ (col.b as u64)).wrapping_mul(0x100000001b3u64);
        },
        None => {},
    }
    h = (h ^ (cell.style.modifiers.bits as u64)).wrapping_mul(0x100000001b3u64);
    proof {
        assert(h == fnv_fold(h0, cell_words(*cell))) by {
            reveal_with_fuel(fnv_fold, 9);
        }
    }
    h
}

/// The FNV-1a hash of a row of cells, for fast row comparison.
pub fn line_hash(line: &[Cell]) -> (r: u64)
    ensures
        r == spec_line_hash(line@),
{
    let mut h: u64 = 0xcbf29ce484222325u64;
    let mut i: usize = 0;
    proof {
        assert(line@.skip(0) =~= line@);
    }
    while i < line.len()
        invariant
            0 <= i <= line@.len(),
            fnv_cells(h, line@.skip(i as int)) == spec_line_hash(line@),
        decreases line@.len() - i,
    {
        let ghost pre = line@.skip(i as int);
        h = hash_cell(h, &line[i]);
        proof {
            assert(pre[0] == line@[i as int]);
            assert(pre.drop_first() =~= line@.skip(i as int + 1));
        }
        i = i + 1;
    }
    proof {
        assert(line@.skip(line@.len() as int) =~= Seq::<Cell>::empty());
    }
    h
}

/// Equal rows hash equally.
pub proof fn lemma_equal_rows_equal_hash(a: Seq<Cell>, b: Seq<Cell>)
    requires
        a == b,
    ensures
        spec_line_hash(a) == spec_line_hash(b),
{
}

/// A one-cell-tall span of row `y` that lies within the first `w` columns.
pub open spec fn span_in_row(r: DirtyRegion, y: int, w: int) -> bool {
    &&& r.rect.y == y
    &&& r.rect.height == 1
    &&& r.rect.width >= 1
    &&& r.rect.x + r.rect.width <= w
}

/// Every cell of the span differs between the two rows.
pub open spec fn span_all_diff(r: DirtyRegion, a: Seq<Cell>, b: Seq<Cell>) -> bool {
    forall|x: int| r.rect.x <= x < r.rect.x + r.rect.width ==> a[x] != b[x]
}

/// The run is maximal: the cells just outside both ends are equal or out
/// of range.
pub open spec fn span_maximal(r: DirtyRegion, a: Seq<Cell>, b: Seq<Cell>, w: int) -> bool {
    &&& (r.rect.x > 0 ==> a[r.rect.x - 1] == b[r.rect.x - 1])
    &&& (r.rect.x + r.rect.width < w ==> a[r.rect.x + r.rect.width] == b[r.rect.x
        + r.rect.width])
}

/// Scan a row for maximal runs of unequal cells and append exactly one
/// one-row region per run: each appended region covers only differing
/// cells and cannot be widened on either side.
fn find_changed_spans(old_line: &[Cell], new_line: &[Cell], y: u16, dirty: &mut Vec<DirtyRegion>)
    requires
        old_line@.len() <= u16::MAX,
        new_line@.len() <= u16::MAX,
    ensures
        final(dirty)@.len() >= old(dirty)@.len(),
        forall|k: int| 0 <= k < old(dirty)@.len() ==> final(dirty)@[k] == old(dirty)@[k],
        forall|k: int|
            old(dirty)@.len() <= k < final(dirty)@.len() ==> span_in_row(
                final(dirty)@[k],
                y as int,
                min_len(old_line@.len() as int, new_line@.len() as int),
            ) && span_all_diff(final(dirty)@[k], old_line@, new_line@) && span_maximal(
                final(dirty)@[k],
                old_line@,
                new_line@,
                min_len(old_line@.len() as int, new_line@.len() as int),
            ),
        forall|x: int|
            0 <= x < old_line@.len() && x < new_line@.len() && old_line@[x] != new_line@[x]
                ==> covered(final(dirty)@, x, y as int),
{
    let width = if old_line.len() <= new_line.len() {
        old_line.len()
    } else {
        new_line.len()
    };
    let mut start: Option<u16> = None;
    let mut x: usize = 0;
    while x < width
        invariant
            width == min_len(old_line@.len() as int, new_line@.len() as int),
            width <= u16::MAX,
            0 <= x <= width,
            dirty@.len() >= old(dirty)@.len(),
            forall|k: int| 0 <= k < old(dirty)@.len() ==> dirty@[k] == old(dirty)@[k],
            forall|k: int|
                old(dirty)@.len() <= k < dirty@.len() ==> span_in_row(
                    dirty@[k],
                    y as int,
                    width as int,
                ) && span_all_diff(dirty@[k], old_line@, new_line@) && span_maximal(
                    dirty@[k],
                    old_line@,
                    new_line@,
                    width as int,
                ),
            match start {
                Some(s) => s < x && (forall|x2: int|
                    0 <= x2 < x && old_line@[x2] != new_line@[x2] ==> covered(
                        dirty@,
                        x2,
                        y as int,
                    ) || s <= x2) && (forall|x2: int|
                    s <= x2 < x ==> old_line@[x2] != new_line@[x2]) && (s > 0
                    ==> old_line@[s - 1] == new_line@[s - 1]),
                None => (forall|x2: int|
                    0 <= x2 < x && old_line@[x2] != new_line@[x2] ==> covered(
                        dirty@,
                        x2,
                        y as int,
                    )) && (x > 0 ==> old_line@[x - 1] == new_line@[x - 1]),
            },
        decreases width - x,
    {
        let differs = old_line[x] != new_line[x];
        if differs {
            if start.is_none() {
                start = Some(x as u16);
            }
        } else {
            match start {
                Some(s) => {
                    let ghost pre = dirty@;
                    let span_width = (x as u16) - s;
                    dirty.push(
                        DirtyRegion {
                            rect: Rect { x: s, y, width: span_width, height: 1 },
                        },
                    );
                    proof {
                        assert(forall|x2: int, y2: int|
                            covered(pre, x2, y2) ==> covered(dirty@, x2, y2)) by {
                            assert forall|x2: int, y2: int| covered(pre, x2, y2) implies covered(
                                dirty@,
                                x2,
                                y2,
                            ) by {
                                let i = choose|i: int|
                                    0 <= i < pre.len() && rect_contains(pre[i].rect, x2, y2);
                                assert(rect_contains(dirty@[i].rect, x2, y2));
                            }
                        }
                        assert forall|x2: int|
                            s <= x2 < x && old_line@[x2] != new_line@[x2] implies covered(
                            dirty@,
                            x2,
                            y as int,
                        ) by {
                            let i = dirty@.len() - 1;
                            assert(rect_contains(dirty@[i].rect, x2, y as int));
                        }
                    }
                    start = None;
                },
                None => {},
            }
        }
        x = x + 1;
    }
    match start {
        Some(s) => {
            let ghost pre = dirty@;
            let span_width = (width as u16) - s;
            dirty.push(DirtyRegion { rect: Rect { x: s, y, width: span_width, height: 1 } });
            proof {
                assert forall|x2: int, y2: int| covered(pre, x2, y2) implies covered(
                    dirty@,
                    x2,
                    y2,
                ) by {
                    let i = choose|i: int|
                        0 <= i < pre.len() && rect_contains(pre[i].rect, x2, y2);
                    assert(rect_contains(dirty@[i].rect, x2, y2));
                }
                assert forall|x2: int|
                    s <= x2 < width && old_line@[x2] != new_line@[x2] implies covered(
                    dirty@,
                    x2,
                    y as int,
                ) by {
                    let i = dirty@.len() - 1;
                    assert(rect_contains(dirty@[i].rect, x2, y as int));
                }
            }
        },
        None => {},
    }
}

/// The smaller of two lengths.
pub open spec fn min_len(a: int, b: int) -> int {
    if a <= b {
        a
    } else {
        b
    }
}

/// Row-major order on regions: first by row, then by column.
pub open spec fn region_le(a: DirtyRegion, b: DirtyRegion) -> bool {
    a.rect.y < b.rect.y || (a.rect.y == b.rect.y && a.rect.x <= b.rect.x)
}

/// The sequence is sorted in row-major order.
pub open spec fn sorted_regions(s: Seq<DirtyRegion>) -> bool {
    forall|i: int, j: int| 0 <= i < j < s.len() ==> region_le(s[i], s[j])
}

/// Sort regions in row-major order (insertion sort).
fn sort_regions(v: &mut Vec<DirtyRegion>)
    ensures
        final(v)@.len() == old(v)@.len(),
        final(v)@.to_multiset() == old(v)@.to_multiset(),
        sorted_regions(final(v)@),
{
    broadcast use vstd::seq_lib::group_to_multiset_ensures;
    broadcast use vstd::multiset::group_multiset_axioms;

    let n = v.len();
    let mut i: usize = 1;
    if n <= 1 {
        return ;
    }
    while i < n
        invariant
            1 <= i <= n,
            v@.len() == n,
            n == old(v)@.len(),
            v@.to_multiset() == old(v)@.to_multiset(),
            sorted_regions(v@.take(i as int)),
        decreases n - i,
    {
        let mut j: usize = i;
        proof {
            assert forall|a: int, b: int| 0 <= a < b <= i && b != i implies region_le(
                v@[a],
                v@[b],
            ) by {
                assert(v@.take(i as int)[a] == v@[a]);
                assert(v@.take(i as int)[b] == v@[b]);
            }
        }
        while j > 0 && !region_le_exec(&v[j - 1], &v[j])
            invariant
                0 <= j <= i < n,
                v@.len() == n,
                v@.to_multiset() == old(v)@.to_multiset(),
                forall|a: int, b: int|
                    0 <= a < b <= i && b != j ==> region_le(v@[a], v@[b]),
                forall|a: int, b: int| j <= a < b <= i ==> region_le(v@[a], v@[b]),
            decreases j,
        {
            let ghost pre = v@;
            let ra = v[j - 1];
            let rb = v[j];
            v[j - 1] = rb;
            v[j] = ra;
            proof {
                let s1 = pre.update(j - 1, rb);
                let s2 = s1.update(j as int, ra);
                assert(v@ =~= s2);
                assert(pre[j - 1] == ra && s1[j as int] == rb);
                vstd::seq_lib::to_multiset_update(pre, j - 1, rb);
                vstd::seq_lib::to_multiset_update(s1, j as int, ra);
                assert(s1.to_multiset() == pre.to_multiset().insert(rb).remove(ra));
                assert(s2.to_multiset() == s1.to_multiset().insert(ra).remove(rb));
                assert(pre.contains(ra)) by {
                    assert(pre[j - 1] == ra);
                }
                vstd::seq_lib::to_multiset_contains(pre, ra);
                assert(pre.to_multiset().count(ra) > 0);
                assert forall|e: DirtyRegion|
                    #![trigger s2.to_multiset().count(e)]
                    s2.to_multiset().count(e) == pre.to_multiset().count(e) by {
                    let m = pre.to_multiset();
                    let sa = Multiset::<DirtyRegion>::singleton(ra);
                    let sb = Multiset::<DirtyRegion>::singleton(rb);
                    assert(s1.to_multiset() == m.add(sb).sub(sa));
                    assert(s2.to_multiset() == m.add(sb).sub(sa).add(sa).sub(sb));
                    if e == ra && e == rb {
                        assert(s2.to_multiset().count(e) == m.count(e));
                    } else if e == ra {
                        assert(sa.count(e) == 1 && sb.count(e) == 0);
                        assert(s2.to_multiset().count(e) == m.count(e));
                    } else if e == rb {
                        assert(sa.count(e) == 0 && sb.count(e) == 1);
                        assert(s2.to_multiset().count(e) == m.count(e));
                    } else {
                        assert(sa.count(e) == 0 && sb.count(e) == 0);
                        assert(s2.to_multiset().count(e) == m.count(e));
                    }
                }
                assert(v@.to_multiset() =~= pre.to_multiset());
            }
            j = j - 1;
        }
        proof {
            assert forall|a: int, b: int| 0 <= a < b <= i implies region_le(v@[a], v@[b]) by {
                if b == j && j > 0 && a < j - 1 {
                    assert(region_le(v@[a], v@[j - 1]));
                    assert(region_le(v@[j - 1], v@[j as int]));
                }
            }
            assert forall|a: int, b: int|
                #![trigger v@.take(i as int + 1)[a], v@.take(i as int + 1)[b]]
                0 <= a < b < i + 1 implies region_le(
                v@.take(i as int + 1)[a],
                v@.take(i as int + 1)[b],
            ) by {
                assert(v@.take(i as int + 1)[a] == v@[a]);
                assert(v@.take(i as int + 1)[b] == v@[b]);
            }
            assert(sorted_regions(v@.take(i as int + 1)));
        }
        i = i + 1;
    }
    proof {
        assert(v@.take(n as int) =~= v@);
    }
}

/// Row-major comparison, executable form.
fn region_le_exec(a: &DirtyRegion, b: &DirtyRegion) -> (r: bool)
    ensures
        r == region_le(*a, *b),
{
    a.rect.y < b.rect.y || (a.rect.y == b.rect.y && a.rect.x <= b.rect.x)
}

/// A cell covered by some region of `a` is covered by any permutation of
/// `a`.
proof fn lemma_covered_permutation(a: Seq<DirtyRegion>, b: Seq<DirtyRegion>, x: int, y: int)
    requires
        a.to_multiset() == b.to_multiset(),
        covered(a, x, y),
    ensures
        covered(b, x, y),
{
    broadcast use vstd::seq_lib::group_to_multiset_ensures;

    let i = choose|i: int| 0 <= i < a.len() && rect_contains(a[i].rect, x, y);
    assert(a.contains(a[i]));
    assert(a.to_multiset().count(a[i]) > 0);
    assert(b.contains(a[i]));
    let j = choose|j: int| 0 <= j < b.len() && b[j] == a[i];
    assert(rect_contains(b[j].rect, x, y));
}

/// Whether some region of `s` lies on row `y`.
pub open spec fn has_region_row(s: Seq<DirtyRegion>, y: u16) -> bool {
    exists|j: int| 0 <= j < s.len() && s[j].rect.y == y
}

/// Any two regions on the same row are separated by more than one cell, the
/// later one to the right.
pub open spec fn row_separated(s: Seq<DirtyRegion>) -> bool {
    forall|i: int, j: int|
        0 <= i < j < s.len() && s[i].rect.y == s[j].rect.y ==> s[j].rect.x > s[i].rect.x
            + s[i].rect.width + 1
}

/// The right edge of the region stays within the coordinate type.
pub open spec fn region_end_ok(r: DirtyRegion) -> bool {
    r.rect.x + r.rect.width <= u16::MAX
}

/// Every region is one row tall.
pub open spec fn all_one_row(s: Seq<DirtyRegion>) -> bool {
    forall|k: int| 0 <= k < s.len() ==> s[k].rect.height == 1
}

/// Coalesce regions: sort in row-major order and merge any two regions on
/// the same row separated by at most one cell.
fn merge_adjacent_regions(dirty: &mut Vec<DirtyRegion>)
    requires
        forall|k: int| 0 <= k < old(dirty)@.len() ==> region_end_ok(old(dirty)@[k]),
        all_one_row(old(dirty)@),
    ensures
        forall|x: int, y: int|
            covered(old(dirty)@, x, y) ==> covered(final(dirty)@, x, y),
        row_separated(final(dirty)@),
        sorted_regions(final(dirty)@),
        all_one_row(final(dirty)@),
        forall|k: int|
            0 <= k < final(dirty)@.len() ==> has_region_row(
                old(dirty)@,
                (#[trigger] final(dirty)@[k]).rect.y,
            ),
        final(dirty)@.len() <= old(dirty)@.len(),
        old(dirty)@.len() == 0 ==> final(dirty)@.len() == 0,
{
    if dirty.len() <= 1 {
        proof {
            assert forall|k: int|
                0 <= k < dirty@.len() implies has_region_row(
                old(dirty)@,
                (#[trigger] dirty@[k]).rect.y,
            ) by {
                assert(0 <= k < old(dirty)@.len() && old(dirty)@[k].rect.y
                    == dirty@[k].rect.y);
            }
        }
        return ;
    }
    let ghost input = dirty@;
    sort_regions(dirty);
    proof {
        broadcast use vstd::seq_lib::group_to_multiset_ensures;

        assert forall|k: int| 0 <= k < dirty@.len() implies region_end_ok(dirty@[k])
            && dirty@[k].rect.height == 1 && has_region_row(input, dirty@[k].rect.y) by {
            assert(dirty@.contains(dirty@[k]));
            assert(dirty@.to_multiset().count(dirty@[k]) > 0);
            assert(input.contains(dirty@[k]));
            let m = choose|m: int| 0 <= m < input.len() && input[m] == dirty@[k];
            assert(0 <= m < input.len() && input[m].rect.y == dirty@[k].rect.y);
        }
    }
    let ghost s = dirty@;
    let mut merged: Vec<DirtyRegion> = Vec::new();
    let mut current = dirty[0];
    let mut i: usize = 1;
    proof {
        assert forall|x: int, y: int| covered(s.take(1), x, y) implies covered(
            merged@.push(current),
            x,
            y,
        ) by {
            assert(s.take(1)[0] == s[0]);
            assert(merged@.push(current)[0] == current);
        }
    }
    while i < dirty.len()
        invariant
            1 <= i <= s.len(),
            dirty@ == s,
            s.len() >= 2,
            sorted_regions(s),
            forall|k: int| 0 <= k < s.len() ==> region_end_ok(s[k]),
            all_one_row(s),
            region_end_ok(current),
            current.rect.height == 1,
            all_one_row(merged@),
            forall|k: int| 0 <= k < merged@.len() ==> region_end_ok(merged@[k]),
            current.rect.y == s[i - 1].rect.y,
            current.rect.x <= s[i - 1].rect.x,
            forall|k: int| 0 <= k < merged@.len() ==> merged@[k].rect.y <= current.rect.y,
            forall|k: int|
                0 <= k < merged@.len() && merged@[k].rect.y == current.rect.y
                    ==> current.rect.x > merged@[k].rect.x + merged@[k].rect.width + 1,
            forall|k: int| 0 <= k < merged@.len() ==> region_le(merged@[k], current),
            forall|k: int|
                0 <= k < s.len() ==> has_region_row(input, (#[trigger] s[k]).rect.y),
            forall|k: int|
                0 <= k < merged@.len() ==> has_region_row(
                    input,
                    (#[trigger] merged@[k]).rect.y,
                ),
            has_region_row(input, current.rect.y),
            row_separated(merged@),
            sorted_regions(merged@),
            forall|x: int, y: int|
                covered(s.take(i as int), x, y) ==> covered(merged@.push(current), x, y),
            merged@.len() + 1 <= i,
        decreases s.len() - i,
    {
        let ghost pre_merged = merged@;
        let ghost pre_current = current;
        let next = dirty[i];
        proof {
            assert(region_le(s[i - 1], s[i as int]));
        }
        let mut absorbed = false;
        if current.rect.y == next.rect.y {
            let current_end = (current.rect.x as u32) + (current.rect.width as u32);
            if (next.rect.x as u32) <= current_end + 1 {
                let next_end = (next.rect.x as u32) + (next.rect.width as u32);
                let new_end = if next_end >= current_end {
                    next_end
                } else {
                    current_end
                };
                current.rect.width = (new_end - (current.rect.x as u32)) as u16;
                absorbed = true;
                proof {
                    assert(current.rect.x == pre_current.rect.x);
                    assert(current.rect.y == pre_current.rect.y);
                    assert(current.rect.x + current.rect.width >= pre_current.rect.x
                        + pre_current.rect.width);
                    assert(current.rect.x + current.rect.width >= next.rect.x
                        + next.rect.width);
                    assert(current.rect.x <= next.rect.x);
                }
            }
        }
        if !absorbed {
            merged.push(current);
            current = next;
        }
        proof {
            assert(s.take(i as int + 1) =~= s.take(i as int).push(s[i as int]));
            assert forall|x: int, y: int|
                covered(s.take(i as int + 1), x, y) implies covered(
                merged@.push(current),
                x,
                y,
            ) by {
                let t = s.take(i as int + 1);
                let k = choose|k: int| 0 <= k < t.len() && rect_contains(t[k].rect, x, y);
                if k == i as int {
                    // the cell lies in `next`
                    assert(t[k] == s[i as int]);
                    assert(rect_contains(next.rect, x, y));
                    if absorbed {
                        assert(current.rect.x <= x && x < current.rect.x
                            + current.rect.width);
                        assert(rect_contains(current.rect, x, y));
                        assert(merged@.push(current)[merged@.len() as int] == current);
                    } else {
                        assert(merged@.push(current)[merged@.len() as int] == current);
                    }
                } else {
                    // the cell was covered before this step
                    assert(covered(s.take(i as int), x, y)) by {
                        assert(s.take(i as int)[k] == t[k]);
                    }
                    let m = choose|m: int|
                        0 <= m < pre_merged.push(pre_current).len() && rect_contains(
                            pre_merged.push(pre_current)[m].rect,
                            x,
                            y,
                        );
                    if m < pre_merged.len() {
                        if absorbed {
                            assert(rect_contains(merged@.push(current)[m].rect, x, y));
                        } else {
                            assert(rect_contains(merged@.push(current)[m].rect, x, y));
                        }
                    } else {
                        // covered by the old current region
                        assert(m == pre_merged.len());
                        assert(pre_merged.push(pre_current)[m] == pre_current);
                        assert(rect_contains(pre_current.rect, x, y));
                        if absorbed {
                            assert(current.rect.x <= x && x < current.rect.x
                                + current.rect.width);
                            assert(rect_contains(current.rect, x, y));
                            assert(merged@.push(current)[merged@.len() as int] == current);
                        } else {
                            assert(merged@.push(current)[merged@.len() - 1] == pre_current);
                            assert(rect_contains(
                                merged@.push(current)[merged@.len() - 1].rect,
                                x,
                                y,
                            ));
                        }
                    }
                }
            }
        }
        i = i + 1;
    }
    let ghost pre_merged = merged@;
    merged.push(current);
    *dirty = merged;
    proof {
        assert(s.take(s.len() as int) =~= s);
        assert forall|x: int, y: int| covered(input, x, y) implies covered(dirty@, x, y) by {
            lemma_covered_permutation(input, s, x, y);
        }
    }
}

/// Compare two buffers and return the regions that must be redrawn.
///
/// When the buffers have different sizes the whole new screen is one dirty
/// region.  Otherwise rows are compared by their FNV-1a hash; rows whose
/// hashes differ are scanned cell by cell, and the resulting one-row spans
/// are coalesced.  Every changed cell in a row whose hashes differ is
/// covered by the result, and every returned region lies in a row whose
/// hashes differ — a frame's unchanged rows are never touched.  A row of
/// changed cells whose hash happens to collide with the old row's hash is
/// skipped, as the row hash is trusted to detect changes.
pub fn compute_diff(old: &Buffer, new: &Buffer) -> (r: Vec<DirtyRegion>)
    requires
        old.wf(),
        new.wf(),
    ensures
        (old.width != new.width || old.height != new.height) ==> r@.len() == 1 && r@[0].rect
            == (Rect { x: 0u16, y: 0u16, width: new.width, height: new.height }),
        (old.width == new.width && old.height == new.height) ==> {
            &&& row_separated(r@)
            &&& sorted_regions(r@)
            &&& all_one_row(r@)
            &&& forall|x: int, y: int|
                new.in_bounds(x, y) && old.spec_cell(x, y) != new.spec_cell(x, y)
                    && spec_line_hash(old.spec_row(y)) != spec_line_hash(new.spec_row(y))
                    ==> covered(r@, x, y)
            &&& forall|k: int|
                0 <= k < r@.len() ==> spec_line_hash(
                    old.spec_row((#[trigger] r@[k]).rect.y as int),
                ) != spec_line_hash(new.spec_row(r@[k].rect.y as int))
            &&& (forall|y: int|
                0 <= y < new.height ==> spec_line_hash(old.spec_row(y)) == spec_line_hash(
                    new.spec_row(y),
                )) ==> r@.len() == 0
        },
{
    if old.width != new.width || old.height != new.height {
        let mut r: Vec<DirtyRegion> = Vec::new();
        r.push(DirtyRegion::full_screen(new.width, new.height));
        return r;
    }
    let mut dirty: Vec<DirtyRegion> = Vec::new();
    let mut y: u16 = 0;
    while y < new.height
        invariant
            old.wf(),
            new.wf(),
            old.width == new.width,
            old.height == new.height,
            0 <= y <= new.height,
            forall|k: int|
                0 <= k < dirty@.len() ==> dirty@[k].rect.height == 1 && region_end_ok(
                    dirty@[k],
                ) && spec_line_hash(old.spec_row((#[trigger] dirty@[k]).rect.y as int))
                    != spec_line_hash(new.spec_row(dirty@[k].rect.y as int)),
            forall|x2: int, y2: int|
                0 <= y2 < y && new.in_bounds(x2, y2) && old.spec_cell(x2, y2) != new.spec_cell(
                    x2,
                    y2,
                ) && spec_line_hash(old.spec_row(y2)) != spec_line_hash(new.spec_row(y2))
                    ==> covered(dirty@, x2, y2),
            (forall|y2: int|
                0 <= y2 < y ==> spec_line_hash(old.spec_row(y2)) == spec_line_hash(
                    new.spec_row(y2),
                )) ==> dirty@.len() == 0,
        decreases new.height - y,
    {
        let old_line = old.line(y);
        let new_line = new.line(y);
        let oh = line_hash(old_line);
        let nh = line_hash(new_line);
        if oh != nh {
            let ghost pre = dirty@;
            proof {
                crate::render::buffer::lemma_row_bounds(
                    y as int,
                    old.width as int,
                    old.height as int,
                );
                assert(old_line@.len() == old.width);
                assert(new_line@.len() == new.width);
            }
            find_changed_spans(old_line, new_line, y, &mut dirty);
            proof {
                assert forall|x2: int, y2: int|
                    covered(pre, x2, y2) implies covered(dirty@, x2, y2) by {
                    let k = choose|k: int|
                        0 <= k < pre.len() && rect_contains(pre[k].rect, x2, y2);
                    assert(rect_contains(dirty@[k].rect, x2, y2));
                }
                assert forall|x2: int|
                    new.in_bounds(x2, y as int) && old.spec_cell(x2, y as int)
                        != new.spec_cell(x2, y as int) implies covered(dirty@, x2, y as int) by {
                    assert(old_line@[x2] == old.spec_cell(x2, y as int));
                    assert(new_line@[x2] == new.spec_cell(x2, y as int));
                }
                assert forall|k: int|
                    0 <= k < dirty@.len() implies dirty@[k].rect.height == 1 && region_end_ok(
                    dirty@[k],
                ) && spec_line_hash(old.spec_row((#[trigger] dirty@[k]).rect.y as int))
                    != spec_line_hash(new.spec_row(dirty@[k].rect.y as int)) by {
                    if k >= pre.len() {
                        assert(span_in_row(
                            dirty@[k],
                            y as int,
                            min_len(old_line@.len() as int, new_line@.len() as int),
                        ));
                        assert(dirty@[k].rect.y == y);
                    }
                }
            }
        }
        y = y + 1;
    }
    let ghost pre_merge = dirty@;
    merge_adjacent_regions(&mut dirty);
    proof {
        assert forall|k: int|
            0 <= k < dirty@.len() implies spec_line_hash(
            old.spec_row((#[trigger] dirty@[k]).rect.y as int),
        ) != spec_line_hash(new.spec_row(dirty@[k].rect.y as int)) by {
            assert(has_region_row(pre_merge, dirty@[k].rect.y));
            let j = choose|j: int|
                0 <= j < pre_merge.len() && pre_merge[j].rect.y == dirty@[k].rect.y;
        }
    }
    dirty
}

/// The differ with exact span detection and coalescing: the same
/// procedure as `compute_diff`, under the same contract.
pub fn compute_diff_precise(old: &Buffer, new: &Buffer) -> (r: Vec<DirtyRegion>)
    requires
        old.wf(),
        new.wf(),
    ensures
        (old.width != new.width || old.height != new.height) ==> r@.len() == 1 && r@[0].rect
            == (Rect { x: 0u16, y: 0u16, width: new.width, height: new.height }),
        (old.width == new.width && old.height == new.height) ==> {
            &&& row_separated(r@)
            &&& sorted_regions(r@)
            &&& all_one_row(r@)
            &&& forall|x: int, y: int|
                new.in_bounds(x, y) && old.spec_cell(x, y) != new.spec_cell(x, y)
                    && spec_line_hash(old.spec_row(y)) != spec_line_hash(new.spec_row(y))
                    ==> covered(r@, x, y)
            &&& forall|k: int|
                0 <= k < r@.len() ==> spec_line_hash(
                    old.spec_row((#[trigger] r@[k]).rect.y as int),
                ) != spec_line_hash(new.spec_row(r@[k].rect.y as int))
            &&& (forall|y: int|
                0 <= y < new.height ==> spec_line_hash(old.spec_row(y)) == spec_line_hash(
                    new.spec_row(y),
                )) ==> r@.len() == 0
        },
{
    compute_diff(old, new)
}

} // verus!
