//! A centered dialog overlay.

use vstd::prelude::*;

use crate::event::Event;
use crate::event::EventResult;
use crate::event::KeyCode;
use crate::state::Signal;
use crate::theme::Color;
use crate::theme::Modifier;
use crate::theme::Style;
use crate::view::Component;
use crate::view::EventContext;
use crate::view::RenderContext;
use crate::view::ViewNode;

verus! {

/// The styles of a modal dialog.
#[derive(Clone)]
pub struct ModalStyle {
    pub border: Style,
    pub title: Style,
    pub background: Style,
}

impl Default for ModalStyle {
    fn default() -> ModalStyle {
        ModalStyle {
            border: Style::new().fg(Color::cyan()).add_modifier(Modifier::bold()),
            title: Style::new().fg(Color::yellow()).add_modifier(Modifier::bold()),
            background: Style::new().bg(Color::rgb(30, 30, 30)),
        }
    }
}

/// A dialog shown while its visibility signal holds true; Escape closes
/// it when it is closable.
pub struct Modal {
    pub visible: Signal<bool>,
    pub title: Option<String>,
    pub child: Option<Box<dyn Component>>,
    pub closable: bool,
    pub style: ModalStyle,
}

impl Modal {
    /// A modal controlled by the given visibility signal.
    pub fn new(visible: Signal<bool>) -> (r: Modal)
        ensures
            r.title is None,
            r.child is None,
            r.closable,
    {
        Modal {
            visible,
            title: None,
            child: None,
            closable: true,
            style: ModalStyle::default(),
        }
    }

    /// This modal with a title in its border.
    pub fn title(self, title: String) -> (r: Modal)
        ensures
            r.title matches Some(t) && t@ == title@,
            r.closable == self.closable,
    {
        Modal { title: Some(title), ..self }
    }

    /// This modal with its content set.
    pub fn child<C: Component + 'static>(self, child: C) -> (r: Modal)
        ensures
            r.child is Some,
            r.title == self.title,
            r.closable == self.closable,
    {
        let b: Box<dyn Component> = Box::new(child);
        Modal { child: Some(b), ..self }
    }

    /// This modal with its Escape behavior set.
    pub fn closable(self, closable: bool) -> (r: Modal)
        ensures
            r.closable == closable,
            r.title == self.title,
    {
        Modal { closable, ..self }
    }

    /// Hide the modal by lowering its visibility signal.
    pub fn close(&self) {
        self.visible.set(false);
    }
}

impl Component for Modal {
    fn render(&self, ctx: &RenderContext) -> ViewNode {
        if !self.visible.get() {
            return ViewNode::text(String::new());
        }
        let mut children: Vec<ViewNode> = Vec::new();
        match &self.title {
            Some(title) => {
                let mut border_line = String::new();
                border_line.append("\u{2554}\u{2550}\u{2550}\u{2550} ");
                border_line.append(title.as_str());
                border_line.append(" \u{2550}\u{2550}\u{2550}\u{2557}");
                children.push(ViewNode::text_styled(border_line, self.style.border));
            },
            None => {
                children.push(
                    ViewNode::text_styled(
                        "\u{2554}\u{2550}\u{2550}\u{2550}\u{2550}\u{2550}\u{2550}\u{2550}\u{2550}\u{2550}\u{2557}".to_owned(),
                        self.style.border,
                    ),
                );
            },
        }
        match &self.child {
            Some(child) => {
                children.push(ViewNode::text_styled("\u{2551} ".to_owned(), self.style.border));
                children.push(child.render(ctx));
                children.push(ViewNode::text_styled(" \u{2551}".to_owned(), self.style.border));
            },
            None => {},
        }
        children.push(
            ViewNode::text_styled(
                "\u{255a}\u{2550}\u{2550}\u{2550}\u{2550}\u{2550}\u{2550}\u{2550}\u{2550}\u{2550}\u{255d}".to_owned(),
                self.style.border,
            ),
        );
        if self.closable {
            children.push(
                ViewNode::text_styled(
                    "  [ESC to close]".to_owned(),
                    Style::new().fg(Color::gray()),
                ),
            );
        }
        ViewNode::container(children)
    }

    fn handle_event(&mut self, event: &Event, ctx: &mut EventContext) -> EventResult {
        if !self.visible.get() {
            return EventResult::Ignored;
        }
        match &mut self.child {
            Some(child) => {
                let result = child.handle_event(event, ctx);
                match result {
                    EventResult::Ignored => {},
                    other => {
                        return other;
                    },
                }
            },
            None => {},
        }
        if self.closable {
            match event {
                Event::Key(key) => match key.code {
                    KeyCode::Esc => {
                        self.close();
                        EventResult::Consumed
                    },
                    _ => EventResult::Ignored,
                },
                _ => EventResult::Ignored,
            }
        } else {
            EventResult::Ignored
        }
    }
}

} // verus!
