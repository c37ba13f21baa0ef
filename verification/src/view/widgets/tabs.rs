//! Tabbed views with keyboard switching.

use vstd::prelude::*;

use crate::event::Event;
use crate::event::EventResult;
use crate::event::KeyCode;
use crate::event::KeyModifiers;
use crate::state::Signal;
use crate::theme::Color;
use crate::theme::Modifier;
use crate::theme::Style;
use crate::view::Component;
use crate::view::EventContext;
use crate::view::RenderContext;
use crate::view::ViewNode;

verus! {

/// One tab: a title and its content.
pub struct Tab {
    pub title: String,
    pub content: Box<dyn Component>,
}

/// The styles of a tab bar.
#[derive(Clone)]
pub struct TabStyle {
    pub active: Style,
    pub inactive: Style,
    pub separator: Style,
}

impl Default for TabStyle {
    fn default() -> TabStyle {
        TabStyle {
            active: Style::new().bg(Color::blue()).fg(Color::white()).add_modifier(
                Modifier::bold(),
            ),
            inactive: Style::new().fg(Color::gray()),
            separator: Style::new().fg(Color::rgb(60, 60, 60)),
        }
    }
}

/// Relies on `Vec::push`: appends the element at the end.  The standard
/// push specification does not instantiate at an element type that holds a
/// trait object, so the length facts are restated here.
#[verifier::external_body]
fn push_tab(v: &mut Vec<Tab>, t: Tab)
    ensures
        final(v)@.len() == old(v)@.len() + 1,
{
    v.push(t);
}

/// A row of titled views; one is selected and shown.
pub struct Tabs {
    pub tabs: Vec<Tab>,
    pub selected: Signal<usize>,
    pub style: TabStyle,
}

impl Tabs {
    /// Tabs driven by the given selection signal.
    pub fn new(selected: Signal<usize>) -> (r: Tabs)
        ensures
            r.tabs@.len() == 0,
    {
        Tabs { tabs: Vec::new(), selected, style: TabStyle::default() }
    }

    /// These tabs with one more view at the end.
    pub fn tab<C: Component + 'static>(self, title: String, content: C) -> (r: Tabs)
        ensures
            r.tabs@.len() == self.tabs@.len() + 1,
    {
        let mut t = self;
        let b: Box<dyn Component> = Box::new(content);
        push_tab(&mut t.tabs, Tab { title, content: b });
        t
    }

    /// Select the next tab, wrapping at the end.
    pub fn select_next(&mut self) {
        if self.tabs.len() == 0 {
            return ;
        }
        let current = self.selected.get();
        let next = if current < usize::MAX && current + 1 < self.tabs.len() {
            current + 1
        } else {
            0
        };
        self.selected.set(next);
    }

    /// Select the previous tab, wrapping at the front.
    pub fn select_prev(&mut self) {
        if self.tabs.len() == 0 {
            return ;
        }
        let current = self.selected.get();
        let prev = if current == 0 || current >= self.tabs.len() {
            self.tabs.len() - 1
        } else {
            current - 1
        };
        self.selected.set(prev);
    }

    /// The bar of titles, the selected one highlighted.
    #[verifier::loop_isolation(false)]
    fn render_tab_bar(&self, selected: usize) -> ViewNode {
        let mut parts: Vec<ViewNode> = Vec::new();
        let mut i: usize = 0;
        while i < self.tabs.len()
            invariant
                0 <= i <= self.tabs@.len(),
            decreases self.tabs@.len() - i,
        {
            let is_selected = i == selected;
            let mut tab_text = String::new();
            tab_text.append(" ");
            tab_text.append(self.tabs[i].title.as_str());
            tab_text.append(" ");
            let style = if is_selected {
                self.style.active
            } else {
                self.style.inactive
            };
            parts.push(ViewNode::text_styled(tab_text, style));
            if i + 1 < self.tabs.len() {
                parts.push(ViewNode::text_styled("\u{2502}".to_owned(), self.style.separator));
            }
            i = i + 1;
        }
        ViewNode::container(parts)
    }
}

impl Component for Tabs {
    #[verifier::loop_isolation(false)]
    fn render(&self, ctx: &RenderContext) -> ViewNode {
        if self.tabs.len() == 0 {
            return ViewNode::text_styled("(no tabs)".to_owned(), Style::new().fg(Color::gray()));
        }
        let raw = self.selected.get();
        let selected = if raw < self.tabs.len() {
            raw
        } else {
            self.tabs.len() - 1
        };
        let mut children: Vec<ViewNode> = Vec::new();
        children.push(self.render_tab_bar(selected));
        let mut rule: Vec<char> = Vec::new();
        let mut k: usize = 0;
        while k < 60
            invariant
                k <= 60,
            decreases 60 - k,
        {
            rule.push('\u{2500}');
            k = k + 1;
        }
        children.push(
            ViewNode::text_styled(
                crate::command::chars_to_string(&rule),
                self.style.separator,
            ),
        );
        children.push(self.tabs[selected].content.render(ctx));
        children.push(
            ViewNode::text_styled(
                "  [Tab/\u{2192}] Next  [Shift+Tab/\u{2190}] Previous".to_owned(),
                Style::new().fg(Color::gray()),
            ),
        );
        ViewNode::container(children)
    }

    fn handle_event(&mut self, event: &Event, ctx: &mut EventContext) -> EventResult {
        let selected = self.selected.get();
        if selected < self.tabs.len() {
            let outcome = dispatch_tab(&mut self.tabs, selected, event, ctx);
            match outcome {
                EventResult::Ignored => {},
                other => {
                    return other;
                },
            }
        }
        match event {
            Event::Key(key) => match key.code {
                KeyCode::Tab => {
                    if key.modifiers.contains(KeyModifiers::shift()) {
                        self.select_prev();
                    } else {
                        self.select_next();
                    }
                    EventResult::Handled
                },
                KeyCode::Right => {
                    self.select_next();
                    EventResult::Handled
                },
                KeyCode::Left => {
                    self.select_prev();
                    EventResult::Handled
                },
                _ => EventResult::Ignored,
            },
            _ => EventResult::Ignored,
        }
    }
}

/// Relies on `Vec::insert`: puts the element at the index, shifting the
/// rest right.  The standard insert specification does not instantiate at
/// an element type that holds a trait object, so the length facts are
/// restated here.
#[verifier::external_body]
fn insert_tab(v: &mut Vec<Tab>, idx: usize, t: Tab)
    requires
        idx <= old(v)@.len(),
    ensures
        final(v)@.len() == old(v)@.len() + 1,
{
    v.insert(idx, t);
}

/// Offer the event to one tab's content.
#[verifier::loop_isolation(false)]
fn dispatch_tab(tabs: &mut Vec<Tab>, idx: usize, event: &Event, ctx: &mut EventContext) -> (r:
    EventResult)
    requires
        idx < old(tabs)@.len(),
    ensures
        final(tabs)@.len() == old(tabs)@.len(),
{
    let ghost n = tabs@.len();
    let mut entry = tabs.remove(idx);
    let result = entry.content.handle_event(event, ctx);
    insert_tab(tabs, idx, entry);
    result
}

} // verus!
