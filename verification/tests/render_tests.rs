//! Tests for the cell buffer, the differ and the renderer.

use rsdrav::layout::Rect;
use rsdrav::render::compute_diff;
use rsdrav::render::compute_diff_precise;
use rsdrav::render::Buffer;
use rsdrav::render::Cell;
use rsdrav::render::Renderer;
use rsdrav::render::renderer::write_reset_codes;
use rsdrav::render::renderer::write_style_codes;
use rsdrav::render::diff::line_hash;
use rsdrav::render::renderer::row_escape_bytes;
use rsdrav::theme::Color;
use rsdrav::theme::Modifier;
use rsdrav::theme::Style;

#[test]
fn buffer_test_buffer_creation() {
    let buf = Buffer::new(80, 24);
    assert_eq!(buf.width, 80);
    assert_eq!(buf.height, 24);
    assert_eq!(buf.cells.len(), 80 * 24);
}

#[test]
fn test_get_set() {
    let mut buf = Buffer::new(10, 10);
    let cell = Cell::new('A');
    buf.set(5, 5, cell.clone());
    assert_eq!(buf.get(5, 5), Some(&cell));
}

#[test]
fn test_out_of_bounds() {
    let buf = Buffer::new(10, 10);
    assert_eq!(buf.get(10, 5), None);
    assert_eq!(buf.get(5, 10), None);
}

#[test]
fn test_line_access() {
    let mut buf = Buffer::new(5, 3);
    buf.set(0, 1, Cell::new('H'));
    buf.set(1, 1, Cell::new('i'));

    let line = buf.line(1);
    assert_eq!(line.len(), 5);
    assert_eq!(line[0].ch, 'H');
    assert_eq!(line[1].ch, 'i');
}

#[test]
fn buffer_test_clear() {
    let mut buf = Buffer::new(5, 5);
    buf.set(2, 2, Cell::new('X'));
    buf.clear();
    assert_eq!(buf.get(2, 2).unwrap().ch, '\0');
}

#[test]
fn test_resize() {
    let mut buf = Buffer::new(10, 10);
    buf.set(5, 5, Cell::new('A'));

    buf.resize(20, 20);
    assert_eq!(buf.width, 20);
    assert_eq!(buf.height, 20);
    assert_eq!(buf.get(5, 5).unwrap().ch, '\0');
}

#[test]
fn test_diff_unchanged() {
    let buf1 = Buffer::new(10, 10);
    let buf2 = buf1.clone();

    let diff = compute_diff(&buf1, &buf2);
    assert_eq!(diff.len(), 0);
}

#[test]
fn test_diff_single_cell() {
    let buf1 = Buffer::new(10, 10);
    let mut buf2 = buf1.clone();

    buf2.set(5, 5, Cell::new('X'));

    let diff = compute_diff(&buf1, &buf2);
    assert_eq!(diff.len(), 1);
    assert_eq!(diff[0].rect.y, 5);
}

#[test]
fn test_diff_multiple_lines() {
    let buf1 = Buffer::new(10, 10);
    let mut buf2 = buf1.clone();

    buf2.set(0, 2, Cell::new('A'));
    buf2.set(0, 5, Cell::new('B'));
    buf2.set(0, 8, Cell::new('C'));

    let diff = compute_diff(&buf1, &buf2);
    assert_eq!(diff.len(), 3);
}

#[test]
fn test_diff_size_change() {
    let buf1 = Buffer::new(10, 10);
    let buf2 = Buffer::new(20, 20);

    let diff = compute_diff(&buf1, &buf2);
    assert_eq!(diff.len(), 1);
    assert_eq!(diff[0].rect.width, 20);
    assert_eq!(diff[0].rect.height, 20);
}

#[test]
fn test_diff_style_change() {
    let buf1 = Buffer::new(10, 10);
    let mut buf2 = buf1.clone();

    let style = Style::new().fg(Color::red());
    buf2.set(5, 5, Cell::with_style('A', style));

    let diff = compute_diff(&buf1, &buf2);
    assert!(!diff.is_empty());
}

#[test]
fn test_line_hash_collision_unlikely() {
    let cells1 = vec![Cell::new('A'); 10];
    let cells2 = vec![Cell::new('B'); 10];

    assert_ne!(line_hash(&cells1), line_hash(&cells2));
}

#[test]
fn test_precise_diff() {
    let buf1 = Buffer::new(20, 5);
    let mut buf2 = buf1.clone();

    buf2.set(10, 2, Cell::new('X'));
    buf2.set(11, 2, Cell::new('Y'));
    buf2.set(12, 2, Cell::new('Z'));

    let diff = compute_diff_precise(&buf1, &buf2);
    assert_eq!(diff.len(), 1);

    let region = &diff[0].rect;
    assert_eq!(region.y, 2);
    assert_eq!(region.x, 10);
    assert_eq!(region.width, 3);
}

#[test]
fn test_merge_adjacent_regions() {
    let buf1 = Buffer::new(20, 5);
    let mut buf2 = buf1.clone();

    buf2.set(5, 2, Cell::new('A'));
    buf2.set(6, 2, Cell::new('B'));
    buf2.set(7, 2, Cell::new('C'));

    let diff = compute_diff(&buf1, &buf2);

    assert_eq!(diff.len(), 1);
    assert_eq!(diff[0].rect.x, 5);
    assert_eq!(diff[0].rect.width, 3);
}

#[test]
fn test_merge_separate_regions() {
    let buf1 = Buffer::new(20, 5);
    let mut buf2 = buf1.clone();

    buf2.set(5, 2, Cell::new('A'));
    buf2.set(15, 2, Cell::new('B'));

    let diff = compute_diff(&buf1, &buf2);

    assert!(!diff.is_empty());
}

#[test]
fn test_renderer_creation() {
    let renderer = Renderer::new();
    assert!(renderer.first_render);
}

#[test]
fn test_style_codes() {
    let mut output = Vec::new();
    let style = Style::new().fg(Color::red()).bg(Color::blue());

    write_style_codes(&mut output, &style);

    let s = String::from_utf8_lossy(&output);
    assert!(s.contains("\x1b["));
}

// Additional checks of the differ's promises on concrete frames.

#[test]
fn single_cell_diff_is_exact() {
    // one changed cell yields exactly one one-cell region at its position
    let a = Buffer::new(10, 10);
    let mut b = a.clone();
    b.set(5, 5, Cell::new('X'));

    let diff = compute_diff(&a, &b);
    assert_eq!(diff.len(), 1);
    assert_eq!(diff[0].rect, Rect::new(5, 5, 1, 1));
}

#[test]
fn coalesced_span_is_exact() {
    let a = Buffer::new(20, 5);
    let mut b = a.clone();
    b.set(5, 2, Cell::new('A'));
    b.set(6, 2, Cell::new('B'));
    b.set(7, 2, Cell::new('C'));

    let diff = compute_diff(&a, &b);
    assert_eq!(diff.len(), 1);
    assert_eq!(diff[0].rect, Rect::new(5, 2, 3, 1));
}

#[test]
fn gap_of_one_cell_still_merges() {
    let a = Buffer::new(20, 5);
    let mut b = a.clone();
    b.set(5, 2, Cell::new('A'));
    b.set(7, 2, Cell::new('B'));

    let diff = compute_diff(&a, &b);
    assert_eq!(diff.len(), 1);
    assert_eq!(diff[0].rect, Rect::new(5, 2, 3, 1));
}

#[test]
fn separate_regions_stay_separated_by_more_than_one() {
    let a = Buffer::new(20, 5);
    let mut b = a.clone();
    b.set(5, 2, Cell::new('A'));
    b.set(15, 2, Cell::new('B'));

    let diff = compute_diff(&a, &b);
    assert_eq!(diff.len(), 2);
    for pair in diff.windows(2) {
        if pair[0].rect.y == pair[1].rect.y {
            assert!(pair[1].rect.x > pair[0].rect.x + pair[0].rect.width + 1);
        }
    }
}

#[test]
fn every_changed_cell_is_covered() {
    let a = Buffer::new(12, 4);
    let mut b = a.clone();
    let changed = [(0u16, 0u16), (3, 0), (4, 0), (11, 3), (6, 2)];
    for &(x, y) in changed.iter() {
        b.set(x, y, Cell::new('#'));
    }

    let diff = compute_diff(&a, &b);
    for &(x, y) in changed.iter() {
        let covered = diff.iter().any(|r| {
            x >= r.rect.x
                && x < r.rect.x + r.rect.width
                && y >= r.rect.y
                && y < r.rect.y + r.rect.height
        });
        assert!(covered);
    }
}

#[test]
fn reset_codes_are_the_ansi_reset() {
    let mut out = Vec::new();
    write_reset_codes(&mut out);
    assert_eq!(out, b"\x1b[0m");
}

#[test]
fn style_codes_spell_out_truecolor() {
    let mut out = Vec::new();
    let style = Style::new().fg(Color::rgb(1, 23, 255));
    write_style_codes(&mut out, &style);
    assert_eq!(out, b"\x1b[0m\x1b[38;2;1;23;255m");
}

#[test]
fn unchanged_rows_are_never_touched() {
    let a = Buffer::new(10, 6);
    let mut b = a.clone();
    b.set(3, 2, Cell::new('x'));
    b.set(9, 4, Cell::new('y'));

    let diff = compute_diff(&a, &b);
    for r in diff.iter() {
        assert!(r.rect.y == 2 || r.rect.y == 4);
    }
}

#[test]
fn diff_output_is_sorted_row_major() {
    let a = Buffer::new(16, 6);
    let mut b = a.clone();
    b.set(12, 4, Cell::new('d'));
    b.set(1, 1, Cell::new('a'));
    b.set(9, 1, Cell::new('b'));
    b.set(0, 3, Cell::new('c'));

    let diff = compute_diff(&a, &b);
    for pair in diff.windows(2) {
        let earlier = (pair[0].rect.y, pair[0].rect.x);
        let later = (pair[1].rect.y, pair[1].rect.x);
        assert!(earlier <= later);
    }
}

#[test]
fn row_bytes_minimize_style_changes() {
    // two same-styled cells emit the style once; a styled run ends reset
    let mut buf = Buffer::new(4, 1);
    let bold = Style::new().add_modifier(Modifier::bold());
    buf.set(0, 0, Cell::with_style('a', bold));
    buf.set(1, 0, Cell::with_style('b', bold));

    let bytes = row_escape_bytes(&buf, 0, 0, 2);
    assert_eq!(bytes, b"\x1b[0m\x1b[1mab\x1b[0m");
}

#[test]
fn row_bytes_encode_wide_characters() {
    let mut buf = Buffer::new(2, 1);
    buf.set(0, 0, Cell::new('\u{2502}'));
    let bytes = row_escape_bytes(&buf, 0, 0, 1);
    // default style, then the three-byte encoding of the box-drawing bar
    assert_eq!(bytes, b"\x1b[0m\xe2\x94\x82\x1b[0m");
}
