//! A table with columns, a header, sorting and row selection.

use std::sync::Arc;
use vstd::prelude::*;

use crate::command::chars_to_string;
use crate::command::clone_str;
use crate::event::Event;
use crate::event::EventResult;
use crate::event::KeyCode;
use crate::render::buffer::str_chars;
use crate::state::Signal;
use crate::theme::Color;
use crate::theme::Modifier;
use crate::theme::Style;
use crate::view::Component;
use crate::view::EventContext;
use crate::view::RenderContext;
use crate::view::ViewNode;

verus! {

/// The direction rows are sorted in.
#[derive(Clone, Copy, Debug, PartialEq, Eq, Structural)]
pub enum SortOrder {
    Ascending,
    Descending,
}

impl SortOrder {
    /// The opposite direction.
    pub fn toggle(&self) -> (r: SortOrder)
        ensures
            self == SortOrder::Ascending ==> r == SortOrder::Descending,
            self == SortOrder::Descending ==> r == SortOrder::Ascending,
    {
        match self {
            SortOrder::Ascending => SortOrder::Descending,
            SortOrder::Descending => SortOrder::Ascending,
        }
    }
}

/// A stored per-row text callback; opaque to verification.
#[verifier::external_body]
#[verifier::reject_recursive_types(T)]
pub struct RowTextFn<T> {
    f: Arc<dyn Fn(&T) -> String + Send + Sync>,
}

/// Relies on `Arc::new`: stores the caller's callback.
#[verifier::external_body]
pub fn row_text_new<T, F: Fn(&T) -> String + Send + Sync + 'static>(f: F) -> RowTextFn<T> {
    RowTextFn { f: Arc::new(f) }
}

/// Relies on `Arc::clone`: another handle to the same callback.
#[verifier::external_body]
fn row_text_clone<T>(f: &RowTextFn<T>) -> RowTextFn<T> {
    RowTextFn { f: Arc::clone(&f.f) }
}

/// Relies on the caller's own callback for the produced text.
#[verifier::external_body]
fn row_text_call<T>(f: &RowTextFn<T>, row: &T) -> String {
    (f.f)(row)
}

/// One column: a title, a width, how a row renders into it, and an
/// optional sort key.
#[verifier::reject_recursive_types(T)]
pub struct Column<T> {
    pub title: String,
    pub width: usize,
    pub render: Option<RowTextFn<T>>,
    pub sortable: bool,
    pub sort_key: Option<RowTextFn<T>>,
}

impl<T> Column<T> {
    pub fn new(title: String, width: usize) -> (r: Column<T>)
        ensures
            r.title@ == title@,
            r.width == width,
            !r.sortable,
    {
        Column { title, width, render: None, sortable: false, sort_key: None }
    }

    /// This column with its cell renderer set.
    pub fn render<F: Fn(&T) -> String + Send + Sync + 'static>(self, f: F) -> (r: Column<T>)
        ensures
            r.title@ == self.title@,
            r.width == self.width,
            r.sortable == self.sortable,
    {
        Column { render: Some(row_text_new(f)), ..self }
    }

    /// This column made sortable; the cell renderer doubles as the sort
    /// key unless one is set.
    pub fn sortable(self) -> (r: Column<T>)
        ensures
            r.sortable,
            r.width == self.width,
    {
        let key = match (&self.sort_key, &self.render) {
            (Some(k), _) => Some(row_text_clone(k)),
            (None, Some(rf)) => Some(row_text_clone(rf)),
            (None, None) => None,
        };
        Column { sortable: true, sort_key: key, ..self }
    }

    /// This column made sortable under the given key.
    pub fn sort_by<F: Fn(&T) -> String + Send + Sync + 'static>(self, f: F) -> (r: Column<T>)
        ensures
            r.sortable,
            r.width == self.width,
    {
        Column { sortable: true, sort_key: Some(row_text_new(f)), ..self }
    }

    /// One cell's text: the renderer's result, or a question mark.
    fn cell_text(&self, row: &T) -> String {
        match &self.render {
            Some(f) => row_text_call(f, row),
            None => "?".to_owned(),
        }
    }
}

/// The styles of a table.
#[derive(Clone)]
pub struct TableStyle {
    pub header: Style,
    pub normal: Style,
    pub selected: Style,
    pub alternating: Style,
}

impl Default for TableStyle {
    fn default() -> TableStyle {
        TableStyle {
            header: Style::new().fg(Color::yellow()).add_modifier(Modifier::bold()),
            normal: Style::new(),
            selected: Style::new().bg(Color::blue()).fg(Color::white()),
            alternating: Style::new().bg(Color::rgb(30, 30, 30)),
        }
    }
}

/// A table over a signal of rows with keyboard navigation, a selection
/// signal, sortable columns and a scrolling viewport.
#[verifier::reject_recursive_types(T)]
pub struct Table<T> {
    pub rows: Signal<Vec<T>>,
    pub columns: Vec<Column<T>>,
    pub selected: Signal<Option<usize>>,
    pub sort: Signal<Option<(usize, SortOrder)>>,
    pub scroll_offset: usize,
    pub visible_height: usize,
    pub style: TableStyle,
}

impl<T: Clone + Send + Sync + 'static> Table<T> {
    /// A table over the given row and selection signals.
    pub fn new(rows: Signal<Vec<T>>, selected: Signal<Option<usize>>) -> (r: Table<T>)
        ensures
            r.columns@.len() == 0,
            r.scroll_offset == 0,
            r.visible_height == 10,
    {
        Table {
            rows,
            columns: Vec::new(),
            selected,
            sort: Signal::new(None),
            scroll_offset: 0,
            visible_height: 10,
            style: TableStyle::default(),
        }
    }

    /// This table with one more column.
    pub fn column(self, column: Column<T>) -> (r: Table<T>)
        ensures
            r.columns@.len() == self.columns@.len() + 1,
            r.visible_height == self.visible_height,
    {
        let mut t = self;
        t.columns.push(column);
        t
    }

    /// This table showing the given number of rows at once.
    pub fn visible_height(self, height: usize) -> (r: Table<T>)
        ensures
            r.visible_height == height,
            r.columns@.len() == self.columns@.len(),
    {
        Table { visible_height: height, ..self }
    }

    /// One row as a line of padded, separated cells; with `is_header` the
    /// column titles instead.
    #[verifier::loop_isolation(false)]
    pub fn format_row(&self, row: &T, is_header: bool) -> String {
        let mut result = String::new();
        let mut i: usize = 0;
        while i < self.columns.len()
            invariant
                0 <= i <= self.columns@.len(),
            decreases self.columns@.len() - i,
        {
            if i > 0 {
                result.append(" \u{2502} ");
            }
            let content = if is_header {
                clone_str(&self.columns[i].title)
            } else {
                self.columns[i].cell_text(row)
            };
            result.append(pad_or_truncate(content.as_str(), self.columns[i].width).as_str());
            i = i + 1;
        }
        result
    }

    /// The header line, with a sort arrow when a column is sorted.
    fn render_header(&self, sample: &T) -> ViewNode {
        let header_text = self.format_row(sample, true);
        let mut text = String::new();
        text.append(header_text.as_str());
        match self.sort.get() {
            Some(pair) => {
                if pair.0 < self.columns.len() {
                    match pair.1 {
                        SortOrder::Ascending => text.append(" \u{25b2}"),
                        SortOrder::Descending => text.append(" \u{25bc}"),
                    }
                }
            },
            None => {},
        }
        ViewNode::text_styled(text, self.style.header)
    }

    /// The separator line under the header.
    #[verifier::loop_isolation(false)]
    fn render_separator(&self) -> ViewNode {
        let mut sep: Vec<char> = Vec::new();
        let mut i: usize = 0;
        while i < self.columns.len()
            invariant
                0 <= i <= self.columns@.len(),
            decreases self.columns@.len() - i,
        {
            if i > 0 {
                sep.push('\u{2500}');
                sep.push('\u{253c}');
                sep.push('\u{2500}');
            }
            let mut k: usize = 0;
            let w = self.columns[i].width;
            while k < w
                invariant
                    0 <= k <= w,
                decreases w - k,
            {
                sep.push('\u{2500}');
                k = k + 1;
            }
            i = i + 1;
        }
        ViewNode::text_styled(chars_to_string(&sep), Style::new().fg(Color::gray()))
    }

    /// Select the next row, staying at the last.
    pub fn select_next(&mut self) {
        let rows = self.rows.get();
        if rows.len() == 0 {
            return ;
        }
        let current = self.selected.get();
        let next: usize = match current {
            None => 0,
            Some(idx) => {
                if idx < usize::MAX && idx + 1 < rows.len() {
                    idx + 1
                } else {
                    idx
                }
            },
        };
        self.selected.set(Some(next));
        self.ensure_visible(next);
    }

    /// Select the previous row, staying at the first.
    pub fn select_prev(&mut self) {
        let rows = self.rows.get();
        if rows.len() == 0 {
            return ;
        }
        let current = self.selected.get();
        let prev: usize = match current {
            None => rows.len() - 1,
            Some(idx) => {
                if idx > 0 {
                    idx - 1
                } else {
                    0
                }
            },
        };
        self.selected.set(Some(prev));
        self.ensure_visible(prev);
    }

    /// Scroll just enough to bring the index into the viewport.
    fn ensure_visible(&mut self, index: usize) {
        if self.visible_height > 0 && index >= self.scroll_offset
            && index - self.scroll_offset >= self.visible_height {
            self.scroll_offset = index - self.visible_height + 1;
        } else if index < self.scroll_offset {
            self.scroll_offset = index;
        }
    }

    /// Cycle one column's sort: ascending, then descending, then unsorted;
    /// the rows are re-sorted accordingly.
    pub fn toggle_sort(&mut self, col_idx: usize) {
        if col_idx >= self.columns.len() {
            return ;
        }
        if !self.columns[col_idx].sortable {
            return ;
        }
        let current = self.sort.get();
        let new_sort: Option<(usize, SortOrder)> = match current {
            None => Some((col_idx, SortOrder::Ascending)),
            Some(pair) => {
                if pair.0 == col_idx {
                    match pair.1 {
                        SortOrder::Ascending => Some((col_idx, SortOrder::Descending)),
                        SortOrder::Descending => None,
                    }
                } else {
                    Some((col_idx, SortOrder::Ascending))
                }
            },
        };
        self.sort.set(new_sort);
        match new_sort {
            Some(pair) => {
                self.apply_sort(pair.0, pair.1);
            },
            None => {},
        }
    }

    /// Sort the rows by one column's key.
    pub fn apply_sort(&mut self, col_idx: usize, order: SortOrder)
        ensures
            final(self).scroll_offset == 0 || final(self).scroll_offset == old(
                self,
            ).scroll_offset,
    {
        if col_idx >= self.columns.len() {
            return ;
        }
        let key = match &self.columns[col_idx].sort_key {
            Some(k) => row_text_clone(k),
            None => {
                return ;
            },
        };
        let rows = self.rows.get();
        let sorted = sort_rows(rows, &key, order);
        self.rows.set(sorted);
        self.scroll_offset = 0;
    }
}

/// The rows sorted by their key strings (insertion sort); the count is
/// preserved.
#[verifier::loop_isolation(false)]
pub fn sort_rows<T>(rows: Vec<T>, key: &RowTextFn<T>, order: SortOrder) -> (r: Vec<T>)
    ensures
        r@.len() == rows@.len(),
{
    let ghost n = rows@.len();
    let mut rest = rows;
    let mut out: Vec<T> = Vec::new();
    while rest.len() > 0
        invariant
            out@.len() + rest@.len() == n,
        decreases rest@.len(),
    {
        let item = rest.remove(0);
        let item_key = row_text_call(key, &item);
        // find the insertion point among the already sorted rows
        let mut pos: usize = 0;
        while pos < out.len()
            invariant
                0 <= pos <= out@.len(),
            decreases out@.len() - pos,
        {
            let other_key = row_text_call(key, &out[pos]);
            let before = match order {
                SortOrder::Ascending => str_le_bytes(item_key.as_str(), other_key.as_str()),
                SortOrder::Descending => str_le_bytes(other_key.as_str(), item_key.as_str()),
            };
            if before {
                break ;
            }
            pos = pos + 1;
        }
        out.insert(pos, item);
    }
    out
}

/// Byte-order comparison of two strings.
#[verifier::loop_isolation(false)]
pub fn str_le_bytes(a: &str, b: &str) -> bool {
    let ab = a.as_bytes();
    let bb = b.as_bytes();
    let n = if ab.len() <= bb.len() {
        ab.len()
    } else {
        bb.len()
    };
    let mut i: usize = 0;
    while i < n
        invariant
            0 <= i <= n,
            n <= ab@.len(),
            n <= bb@.len(),
        decreases n - i,
    {
        if ab[i] < bb[i] {
            return true;
        }
        if ab[i] > bb[i] {
            return false;
        }
        i = i + 1;
    }
    ab.len() <= bb.len()
}

/// The text padded with spaces to the width, or cut to it with a trailing
/// ellipsis.
#[verifier::loop_isolation(false)]
pub fn pad_or_truncate(s: &str, width: usize) -> (r: String) {
    let chars = str_chars(s);
    let mut cells: Vec<char> = Vec::new();
    if chars.len() > width {
        let cut = if width > 0 {
            width - 1
        } else {
            0
        };
        let mut i: usize = 0;
        while i < cut
            invariant
                0 <= i <= cut <= chars@.len(),
            decreases cut - i,
        {
            cells.push(chars[i]);
            i = i + 1;
        }
        if width > 0 {
            cells.push('\u{2026}');
        }
    } else {
        let mut i: usize = 0;
        while i < chars.len()
            invariant
                0 <= i <= chars@.len(),
            decreases chars@.len() - i,
        {
            cells.push(chars[i]);
            i = i + 1;
        }
        let mut k = chars.len();
        while k < width
            invariant
                k <= width,
            decreases width - k,
        {
            cells.push(' ');
            k = k + 1;
        }
    }
    chars_to_string(&cells)
}

impl<T: Clone + Send + Sync + 'static> Component for Table<T> {
    #[verifier::loop_isolation(false)]
    fn render(&self, ctx: &RenderContext) -> ViewNode {
        let rows = self.rows.get();
        if rows.len() == 0 {
            return ViewNode::text_styled(
                "(empty table)".to_owned(),
                Style::new().fg(Color::gray()),
            );
        }
        let mut children: Vec<ViewNode> = Vec::new();
        children.push(self.render_header(&rows[0]));
        children.push(self.render_separator());
        let selected_idx = self.selected.get();
        let start = if self.scroll_offset < rows.len() {
            self.scroll_offset
        } else {
            rows.len() - 1
        };
        let end = if self.visible_height < rows.len() - start {
            start + self.visible_height
        } else {
            rows.len()
        };
        let mut i: usize = start;
        while i < end
            invariant
                start <= i <= end <= rows@.len(),
            decreases end - i,
        {
            let is_selected = match selected_idx {
                Some(s) => s == i,
                None => false,
            };
            let is_even = i % 2 == 0;
            let row_text = self.format_row(&rows[i], false);
            let style = if is_selected {
                self.style.selected
            } else if is_even {
                self.style.alternating
            } else {
                self.style.normal
            };
            let mut line = String::new();
            if is_selected {
                line.append("> ");
            } else {
                line.append("  ");
            }
            line.append(row_text.as_str());
            children.push(ViewNode::text_styled(line, style));
            i = i + 1;
        }
        ViewNode::container(children)
    }

    fn handle_event(&mut self, event: &Event, ctx: &mut EventContext) -> EventResult {
        match event {
            Event::Key(key) => match key.code {
                KeyCode::Up => {
                    self.select_prev();
                    EventResult::Handled
                },
                KeyCode::Down => {
                    self.select_next();
                    EventResult::Handled
                },
                KeyCode::Char(c) => {
                    if c == 's' || c == 'S' {
                        self.toggle_sort(0);
                        EventResult::Handled
                    } else {
                        EventResult::Ignored
                    }
                },
                _ => EventResult::Ignored,
            },
            _ => EventResult::Ignored,
        }
    }
}

} // verus!
