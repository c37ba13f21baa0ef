//! A scrolling viewport around one child.

use vstd::prelude::*;

use crate::event::Event;
use crate::event::EventResult;
use crate::event::KeyCode;
use crate::state::Signal;
use crate::theme::Color;
use crate::theme::Style;
use crate::view::Component;
use crate::view::EventContext;
use crate::view::RenderContext;
use crate::view::ViewNode;
use crate::view::widgets::progress::push_decimal_u16;

verus! {

/// The styles of a scrollable container.
#[derive(Clone)]
pub struct ScrollStyle {
    pub scrollbar: Style,
    pub indicator: Style,
}

impl Default for ScrollStyle {
    fn default() -> ScrollStyle {
        ScrollStyle {
            scrollbar: Style::new().fg(Color::rgb(60, 60, 60)),
            indicator: Style::new().fg(Color::cyan()),
        }
    }
}

/// Scrolls one child vertically through a fixed-height viewport.
pub struct Scrollable {
    pub child: Box<dyn Component>,
    pub scroll_offset: Signal<usize>,
    pub viewport_height: usize,
    pub content_height: usize,
    pub scrollbar_shown: bool,
    pub style: ScrollStyle,
}

impl Scrollable {
    /// A viewport around the given child.
    pub fn new<C: Component + 'static>(child: C) -> (r: Scrollable)
        ensures
            r.viewport_height == 10,
            r.content_height == 0,
            r.scrollbar_shown,
    {
        let b: Box<dyn Component> = Box::new(child);
        Scrollable {
            child: b,
            scroll_offset: Signal::new(0),
            viewport_height: 10,
            content_height: 0,
            scrollbar_shown: true,
            style: ScrollStyle::default(),
        }
    }

    /// This viewport with the given height in lines.
    pub fn height(self, height: usize) -> (r: Scrollable)
        ensures
            r.viewport_height == height,
            r.content_height == self.content_height,
    {
        Scrollable { viewport_height: height, ..self }
    }

    /// This viewport with the scrollbar shown or hidden.
    pub fn show_scrollbar(self, show: bool) -> (r: Scrollable)
        ensures
            r.scrollbar_shown == show,
            r.viewport_height == self.viewport_height,
    {
        Scrollable { scrollbar_shown: show, ..self }
    }

    /// The greatest offset that still shows a full viewport.
    fn max_offset(&self) -> (r: usize)
        ensures
            r == if self.content_height >= self.viewport_height {
                self.content_height - self.viewport_height
            } else {
                0int
            },
    {
        if self.content_height >= self.viewport_height {
            self.content_height - self.viewport_height
        } else {
            0
        }
    }

    /// Scroll one line down, stopping at the bottom.
    pub fn scroll_down(&mut self) {
        let current = self.scroll_offset.get();
        let max_offset = self.max_offset();
        if current < max_offset {
            self.scroll_offset.set(current + 1);
        }
    }

    /// Scroll one line up, stopping at the top.
    pub fn scroll_up(&mut self) {
        let current = self.scroll_offset.get();
        if current > 0 {
            self.scroll_offset.set(current - 1);
        }
    }

    /// Scroll one viewport down, stopping at the bottom.
    pub fn page_down(&mut self) {
        let current = self.scroll_offset.get();
        let max_offset = self.max_offset();
        let stepped = if current <= usize::MAX - self.viewport_height {
            current + self.viewport_height
        } else {
            usize::MAX
        };
        let next = if stepped <= max_offset {
            stepped
        } else {
            max_offset
        };
        self.scroll_offset.set(next);
    }

    /// Scroll one viewport up, stopping at the top.
    pub fn page_up(&mut self) {
        let current = self.scroll_offset.get();
        let prev = if current >= self.viewport_height {
            current - self.viewport_height
        } else {
            0
        };
        self.scroll_offset.set(prev);
    }

    /// Scroll to the very top.
    pub fn scroll_to_top(&mut self) {
        self.scroll_offset.set(0);
    }

    /// Scroll to the very bottom.
    pub fn scroll_to_bottom(&mut self) {
        let max_offset = self.max_offset();
        self.scroll_offset.set(max_offset);
    }

    /// The position indicator, as a percentage of the content height.
    fn render_scrollbar(&self) -> ViewNode {
        if !self.scrollbar_shown || self.content_height <= self.viewport_height {
            return ViewNode::text(String::new());
        }
        let offset = self.scroll_offset.get();
        let clamped = if offset <= self.content_height {
            offset
        } else {
            self.content_height
        };
        proof {
            assert((clamped as int) * 100 / (self.content_height as int) <= 100)
                by (nonlinear_arith)
                requires
                    0 <= clamped as int <= self.content_height as int,
                    self.content_height as int > 0,
            ;
        }
        let position = (((clamped as u128) * 100) / (self.content_height as u128)) as u16;
        let mut indicator = String::new();
        indicator.append(" [");
        indicator.append(push_decimal_u16(position).as_str());
        indicator.append("%]");
        ViewNode::text_styled(indicator, self.style.indicator)
    }
}

impl Component for Scrollable {
    fn render(&self, ctx: &RenderContext) -> ViewNode {
        let content = self.child.render(ctx);
        let mut children: Vec<ViewNode> = Vec::new();
        children.push(content);
        if self.scrollbar_shown {
            children.push(self.render_scrollbar());
        }
        ViewNode::container(children)
    }

    fn handle_event(&mut self, event: &Event, ctx: &mut EventContext) -> EventResult {
        let result = self.child.handle_event(event, ctx);
        match result {
            EventResult::Ignored => {},
            other => {
                return other;
            },
        }
        match event {
            Event::Key(key) => match key.code {
                KeyCode::Down => {
                    self.scroll_down();
                    EventResult::Handled
                },
                KeyCode::Up => {
                    self.scroll_up();
                    EventResult::Handled
                },
                KeyCode::PageDown => {
                    self.page_down();
                    EventResult::Handled
                },
                KeyCode::PageUp => {
                    self.page_up();
                    EventResult::Handled
                },
                KeyCode::Home => {
                    self.scroll_to_top();
                    EventResult::Handled
                },
                KeyCode::End => {
                    self.scroll_to_bottom();
                    EventResult::Handled
                },
                _ => EventResult::Ignored,
            },
            _ => EventResult::Ignored,
        }
    }
}

} // verus!
