//! Tests for rectangles, lengths and the containers.

use rsdrav::layout::containers::Column;
use rsdrav::layout::containers::Row;
use rsdrav::layout::containers::Stack;
use rsdrav::layout::flex::Flex;
use rsdrav::layout::flex::FlexItem;
use rsdrav::layout::FlexDirection;
use rsdrav::layout::Length;
use rsdrav::layout::Rect;

#[test]
fn test_rect_contains() {
    let rect = Rect::new(10, 10, 20, 20);

    assert!(rect.contains(10, 10));
    assert!(rect.contains(29, 29));
    assert!(!rect.contains(30, 30));
    assert!(!rect.contains(9, 10));
}

#[test]
fn test_rect_inner() {
    let rect = Rect::new(0, 0, 20, 20);
    let inner = rect.inner(5);

    assert_eq!(inner.x, 5);
    assert_eq!(inner.y, 5);
    assert_eq!(inner.width, 10);
    assert_eq!(inner.height, 10);
}

#[test]
fn test_rect_split() {
    let rect = Rect::new(0, 0, 20, 20);

    let (left, right) = rect.split_h(10);
    assert_eq!(left.width, 10);
    assert_eq!(right.width, 10);
    assert_eq!(right.x, 10);

    let (top, bottom) = rect.split_v(5);
    assert_eq!(top.height, 5);
    assert_eq!(bottom.height, 15);
    assert_eq!(bottom.y, 5);
}

#[test]
fn test_rect_intersect() {
    let r1 = Rect::new(0, 0, 10, 10);
    let r2 = Rect::new(5, 5, 10, 10);

    let inter = r1.intersect(&r2).unwrap();
    assert_eq!(inter, Rect::new(5, 5, 5, 5));

    let r3 = Rect::new(20, 20, 10, 10);
    assert!(r1.intersect(&r3).is_none());
}

#[test]
fn test_rect_union() {
    let r1 = Rect::new(0, 0, 10, 10);
    let r2 = Rect::new(5, 5, 10, 10);

    let union = r1.union(&r2);
    assert_eq!(union, Rect::new(0, 0, 15, 15));
}

#[test]
fn test_length_resolve() {
    // fractions are written in thousandths of the available extent
    assert_eq!(Length::Fixed(100).resolve(200), 100);
    assert_eq!(Length::Percent(500).resolve(200), 100);
    assert_eq!(Length::Min(50).resolve(200), 50);
    assert_eq!(Length::Max(50).resolve(200), 50);
    assert_eq!(Length::Max(300).resolve(200), 200);
}

#[test]
fn test_row_equal_distribution() {
    let row = Row::new();
    let area = Rect::new(0, 0, 100, 20);
    let widths = vec![Length::Fill(1), Length::Fill(1), Length::Fill(1)];

    let rects = row.layout(area, &widths);
    assert_eq!(rects.len(), 3);

    assert!(rects[0].width >= 30 && rects[0].width <= 35);
    assert!(rects[1].width >= 30 && rects[1].width <= 35);
    assert!(rects[2].width >= 30 && rects[2].width <= 35);
}

#[test]
fn test_row_with_gap() {
    let row = Row::new().gap(5);
    let area = Rect::new(0, 0, 100, 20);
    let widths = vec![Length::Fill(1), Length::Fill(1)];

    let rects = row.layout(area, &widths);
    assert_eq!(rects.len(), 2);

    assert_eq!(rects[1].x, rects[0].x + rects[0].width + 5);
}

#[test]
fn test_row_fixed_sizes() {
    let row = Row::new();
    let area = Rect::new(0, 0, 100, 20);
    let widths = vec![Length::Fixed(30), Length::Fixed(40)];

    let rects = row.layout(area, &widths);
    assert_eq!(rects.len(), 2);
    assert_eq!(rects[0].width, 30);
    assert_eq!(rects[1].width, 40);
}

#[test]
fn test_column_basic() {
    let col = Column::new();
    let area = Rect::new(0, 0, 100, 100);
    let heights = vec![Length::Fill(1), Length::Fill(2)];

    let rects = col.layout(area, &heights);
    assert_eq!(rects.len(), 2);

    assert!(rects[1].height >= rects[0].height * 2 - 2);
}

#[test]
fn test_stack() {
    let stack = Stack::new();
    let area = Rect::new(10, 10, 50, 50);

    let rects = stack.layout(area, 3);
    assert_eq!(rects.len(), 3);

    for rect in rects {
        assert_eq!(rect, area);
    }
}

#[test]
fn test_flex_row_equal() {
    let flex = Flex::new(FlexDirection::Row)
        .add(FlexItem::new().grow(1))
        .add(FlexItem::new().grow(1))
        .add(FlexItem::new().grow(1));

    let container = Rect::new(0, 0, 90, 10);
    let rects = flex.calculate(container);

    assert_eq!(rects.len(), 3);
    assert_eq!(rects[0].width, 30);
    assert_eq!(rects[1].width, 30);
    assert_eq!(rects[2].width, 30);
}

#[test]
fn test_flex_column_unequal() {
    let flex = Flex::new(FlexDirection::Column)
        .add(FlexItem::new().grow(1))
        .add(FlexItem::new().grow(2));

    let container = Rect::new(0, 0, 80, 30);
    let rects = flex.calculate(container);

    assert_eq!(rects.len(), 2);
    assert!(rects[1].height > rects[0].height);
}

#[test]
fn test_flex_with_min_max() {
    let flex = Flex::new(FlexDirection::Row)
        .add(FlexItem::new().grow(1).min(20).max(40))
        .add(FlexItem::new().grow(1));

    let container = Rect::new(0, 0, 100, 10);
    let rects = flex.calculate(container);

    assert!(rects[0].width <= 40);
    assert!(rects[0].width >= 20);
}

#[test]
fn test_flex_shrink() {
    let flex = Flex::new(FlexDirection::Row)
        .add(FlexItem::new().basis(Length::Fixed(60)))
        .add(FlexItem::new().basis(Length::Fixed(60)));

    let container = Rect::new(0, 0, 80, 10);
    let rects = flex.calculate(container);

    let total_width: u16 = rects.iter().map(|r| r.width).sum();
    assert!(total_width <= 80);
}

// The row-layout scenario with a fixed entry and weighted fills.

#[test]
fn row_layout_fixed_and_fills() {
    let row = Row::new();
    let area = Rect::new(0, 0, 100, 20);
    let widths = vec![Length::Fixed(30), Length::Fill(1), Length::Fill(2)];

    let rects = row.layout(area, &widths);
    assert_eq!(rects.len(), 3);
    assert_eq!(rects[0].width, 30);
    // shares of the remaining 70 cells under weights 1 and 2, rounded down
    assert_eq!(rects[1].width, 23);
    assert_eq!(rects[2].width, 46);
    let total: u16 = rects.iter().map(|r| r.width).sum();
    assert!(total <= 100);
}

#[test]
fn row_layout_no_children_is_empty() {
    let row = Row::new();
    let area = Rect::new(0, 0, 100, 20);
    let rects = row.layout(area, &Vec::new());
    assert!(rects.is_empty());
}

#[test]
fn fill_sum_never_exceeds_available() {
    let row = Row::new();
    let area = Rect::new(0, 0, 97, 5);
    let widths = vec![
        Length::Fill(3),
        Length::Fill(1),
        Length::Fill(5),
        Length::Fill(2),
    ];
    let rects = row.layout(area, &widths);
    let total: u16 = rects.iter().map(|r| r.width).sum();
    assert!(total <= 97);
    assert!(total as i32 >= 97 - rects.len() as i32);
}

#[test]
fn zero_total_weight_leaves_space_unallocated() {
    let row = Row::new();
    let area = Rect::new(0, 0, 50, 5);
    let widths = vec![Length::Fill(0), Length::Fill(0)];
    let rects = row.layout(area, &widths);
    assert_eq!(rects[0].width, 0);
    assert_eq!(rects[1].width, 0);
}

#[test]
fn split_h_conserves_width() {
    let r = Rect::new(3, 4, 40, 7);
    for at in 0..=40u16 {
        let (left, right) = r.split_h(at);
        assert_eq!(left.width + right.width, 40);
    }
}

#[test]
fn intersect_is_commutative_on_samples() {
    let rs = [
        Rect::new(0, 0, 10, 10),
        Rect::new(5, 5, 10, 10),
        Rect::new(20, 0, 3, 40),
        Rect::new(0, 0, 0, 0),
    ];
    for a in rs.iter() {
        for b in rs.iter() {
            assert_eq!(a.intersect(b), b.intersect(a));
        }
    }
}

#[test]
fn union_contains_both_inputs() {
    let a = Rect::new(2, 3, 4, 5);
    let b = Rect::new(10, 1, 2, 2);
    let u = a.union(&b);
    for x in a.x..a.x + a.width {
        for y in a.y..a.y + a.height {
            assert!(u.contains(x, y));
        }
    }
    for x in b.x..b.x + b.width {
        for y in b.y..b.y + b.height {
            assert!(u.contains(x, y));
        }
    }
}
