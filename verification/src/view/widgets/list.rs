//! A scrollable list with a selection.

use std::sync::Arc;
use vstd::prelude::*;

use crate::command::chars_to_string;
use crate::command::clone_str;
use crate::event::Event;
use crate::event::EventResult;
use crate::event::KeyCode;
use crate::state::Signal;
use crate::theme::Color;
use crate::theme::Modifier;
use crate::theme::Style;
use crate::view::Component;
use crate::view::EventContext;
use crate::view::RenderContext;
use crate::view::ViewNode;

verus! {

/// A stored per-item rendering callback; opaque to verification.
#[verifier::external_body]
#[verifier::reject_recursive_types(T)]
pub struct ItemRenderFn<T> {
    f: Arc<dyn Fn(&T, bool) -> ViewNode + Send + Sync>,
}

/// Relies on `Arc::new`: stores the caller's callback.
#[verifier::external_body]
pub fn item_render_new<T, F: Fn(&T, bool) -> ViewNode + Send + Sync + 'static>(f: F) -> ItemRenderFn<
    T,
> {
    ItemRenderFn { f: Arc::new(f) }
}

/// Relies on the caller's own callback for the produced node.
#[verifier::external_body]
fn item_render_call<T>(f: &ItemRenderFn<T>, item: &T, selected: bool) -> ViewNode {
    (f.f)(item, selected)
}

/// The styles of a list.
#[derive(Clone)]
pub struct ListStyle {
    pub normal: Style,
    pub selected: Style,
    pub focused_selected: Style,
}

impl Default for ListStyle {
    fn default() -> ListStyle {
        ListStyle {
            normal: Style::new(),
            selected: Style::new().bg(Color::rgb(60, 60, 80)),
            focused_selected: Style::new().bg(Color::blue()).add_modifier(Modifier::bold()),
        }
    }
}

/// A vertical list over a signal of items with keyboard navigation, a
/// selection signal and a scrolling viewport.
#[verifier::reject_recursive_types(T)]
pub struct List<T> {
    pub items: Signal<Vec<T>>,
    pub selected: Signal<Option<usize>>,
    pub scroll_offset: usize,
    pub visible_height: usize,
    pub render_item: Option<ItemRenderFn<T>>,
    pub style: ListStyle,
}

impl<T: Clone + Send + Sync + 'static> List<T> {
    /// A list over the given items and selection signals.
    pub fn new(items: Signal<Vec<T>>, selected: Signal<Option<usize>>) -> (r: List<T>)
        ensures
            r.scroll_offset == 0,
            r.visible_height == 10,
    {
        List {
            items,
            selected,
            scroll_offset: 0,
            visible_height: 10,
            render_item: None,
            style: ListStyle::default(),
        }
    }

    /// This list with a custom item renderer.
    pub fn render_item<F: Fn(&T, bool) -> ViewNode + Send + Sync + 'static>(self, f: F) -> (r:
        List<T>)
        ensures
            r.scroll_offset == self.scroll_offset,
            r.visible_height == self.visible_height,
    {
        List { render_item: Some(item_render_new(f)), ..self }
    }

    /// This list showing the given number of items at once.
    pub fn visible_height(self, height: usize) -> (r: List<T>)
        ensures
            r.visible_height == height,
            r.scroll_offset == self.scroll_offset,
    {
        List { visible_height: height, ..self }
    }

    /// Select the next item, staying at the last.
    pub fn select_next(&mut self) {
        let items = self.items.get();
        if items.len() == 0 {
            return ;
        }
        let current = self.selected.get();
        let next: usize = match current {
            None => 0,
            Some(idx) => {
                if idx < usize::MAX && idx + 1 < items.len() {
                    idx + 1
                } else {
                    idx
                }
            },
        };
        self.selected.set(Some(next));
        self.ensure_visible(next);
    }

    /// Select the previous item, staying at the first.
    pub fn select_prev(&mut self) {
        let items = self.items.get();
        if items.len() == 0 {
            return ;
        }
        let current = self.selected.get();
        let prev: usize = match current {
            None => items.len() - 1,
            Some(idx) => {
                if idx > 0 {
                    idx - 1
                } else {
                    0
                }
            },
        };
        self.selected.set(Some(prev));
        self.ensure_visible(prev);
    }

    /// Jump to the first item.
    pub fn select_first(&mut self)
        ensures
            final(self).scroll_offset == 0 || final(self).scroll_offset == old(
                self,
            ).scroll_offset,
    {
        let items = self.items.get();
        if items.len() > 0 {
            self.selected.set(Some(0));
            self.scroll_offset = 0;
        }
    }

    /// Jump to the last item.
    pub fn select_last(&mut self) {
        let items = self.items.get();
        if items.len() > 0 {
            let last = items.len() - 1;
            self.selected.set(Some(last));
            self.ensure_visible(last);
        }
    }

    /// Move the selection one page down.
    pub fn page_down(&mut self) {
        let items = self.items.get();
        if items.len() == 0 {
            return ;
        }
        let current: usize = match self.selected.get() {
            Some(i) => i,
            None => 0,
        };
        let stepped = if current <= usize::MAX - self.visible_height {
            current + self.visible_height
        } else {
            usize::MAX
        };
        let next = if stepped < items.len() - 1 {
            stepped
        } else {
            items.len() - 1
        };
        self.selected.set(Some(next));
        self.ensure_visible(next);
    }

    /// Move the selection one page up.
    pub fn page_up(&mut self) {
        let items = self.items.get();
        if items.len() == 0 {
            return ;
        }
        let current: usize = match self.selected.get() {
            Some(i) => i,
            None => 0,
        };
        let prev = if current >= self.visible_height {
            current - self.visible_height
        } else {
            0
        };
        self.selected.set(Some(prev));
        self.ensure_visible(prev);
    }

    /// Scroll just enough to bring the index into the viewport.
    pub fn ensure_visible(&mut self, index: usize)
        ensures
            final(self).visible_height == old(self).visible_height,
    {
        if self.visible_height > 0 && index >= self.scroll_offset
            && index - self.scroll_offset >= self.visible_height {
            self.scroll_offset = index - self.visible_height + 1;
        } else if index < self.scroll_offset {
            self.scroll_offset = index;
        }
    }

    /// The node for one item: the custom renderer's, or the item's index
    /// as a plain line.
    fn render_one(&self, item: &T, absolute_idx: usize, is_selected: bool) -> ViewNode {
        match &self.render_item {
            Some(f) => item_render_call(f, item, is_selected),
            None => ViewNode::text("(item)".to_owned()),
        }
    }
}

impl<T: Clone + Send + Sync + 'static> Component for List<T> {
    #[verifier::loop_isolation(false)]
    fn render(&self, ctx: &RenderContext) -> ViewNode {
        let items = self.items.get();
        let selected_idx = self.selected.get();
        if items.len() == 0 {
            return ViewNode::text_styled(
                "(empty list)".to_owned(),
                Style::new().fg(Color::gray()),
            );
        }
        let start = if self.scroll_offset < items.len() {
            self.scroll_offset
        } else {
            items.len() - 1
        };
        let end = if self.visible_height < items.len() - start {
            start + self.visible_height
        } else {
            items.len()
        };
        let mut children: Vec<ViewNode> = Vec::new();
        let mut i: usize = start;
        while i < end
            invariant
                start <= i <= end <= items@.len(),
            decreases end - i,
        {
            let is_selected = match selected_idx {
                Some(s) => s == i,
                None => false,
            };
            let item_node = self.render_one(&items[i], i, is_selected);
            let decorated = match item_node {
                ViewNode::Text { content, style } => {
                    let mut text = String::new();
                    if is_selected {
                        text.append("> ");
                    } else {
                        text.append("  ");
                    }
                    text.append(content.as_str());
                    let st = if is_selected {
                        match self.style.focused_selected.bg {
                            Some(bg) => style.bg(bg),
                            None => style.bg(Color::blue()),
                        }
                    } else {
                        style
                    };
                    ViewNode::Text { content: text, style: st }
                },
                other => other,
            };
            children.push(decorated);
            i = i + 1;
        }
        ViewNode::container(children)
    }

    fn handle_event(&mut self, event: &Event, ctx: &mut EventContext) -> EventResult {
        match event {
            Event::Key(key) => match key.code {
                KeyCode::Up => {
                    self.select_prev();
                    EventResult::Handled
                },
                KeyCode::Down => {
                    self.select_next();
                    EventResult::Handled
                },
                KeyCode::Home => {
                    self.select_first();
                    EventResult::Handled
                },
                KeyCode::End => {
                    self.select_last();
                    EventResult::Handled
                },
                KeyCode::PageUp => {
                    self.page_up();
                    EventResult::Handled
                },
                KeyCode::PageDown => {
                    self.page_down();
                    EventResult::Handled
                },
                _ => EventResult::Ignored,
            },
            _ => EventResult::Ignored,
        }
    }
}

} // verus!
