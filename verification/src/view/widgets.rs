//! Built-in widgets: text, buttons, stacks and panels, plus the larger
//! widgets in their own modules.

use std::sync::Arc;
use vstd::prelude::*;

use crate::command::clone_str;
use crate::event::Event;
use crate::event::EventResult;
use crate::event::KeyCode;
use crate::event::MouseButton;
use crate::event::MouseEventKind;
use crate::theme::Color;
use crate::theme::Modifier;
use crate::theme::Style;
use crate::view::Component;
use crate::view::EventContext;
use crate::view::RenderContext;
use crate::view::ViewNode;

pub mod input;
pub mod list;
pub mod modal;
pub mod progress;
pub mod scrollable;
pub mod table;
pub mod tabs;

pub use input::Input;
pub use list::List;
pub use modal::Modal;
pub use progress::ProgressBar;
pub use scrollable::Scrollable;
pub use table::Column as TableColumn;
pub use table::SortOrder;
pub use table::Table;
pub use tabs::Tabs;

verus! {

/// A stored text-producing callback; opaque to verification.
#[verifier::external_body]
pub struct TextFn {
    f: Arc<dyn Fn() -> String + Send + Sync>,
}

/// Relies on `Arc::new`: stores the caller's callback.
#[verifier::external_body]
pub fn text_fn_new<F: Fn() -> String + Send + Sync + 'static>(f: F) -> TextFn {
    TextFn { f: Arc::new(f) }
}

/// Relies on the caller's own callback for the produced text.
#[verifier::external_body]
fn text_fn_call(f: &TextFn) -> String {
    (f.f)()
}

/// A stored click callback; opaque to verification.
#[verifier::external_body]
pub struct ClickFn {
    f: Arc<dyn Fn() + Send + Sync>,
}

/// Relies on `Arc::new`: stores the caller's callback.
#[verifier::external_body]
pub fn click_fn_new<F: Fn() + Send + Sync + 'static>(f: F) -> ClickFn {
    ClickFn { f: Arc::new(f) }
}

/// Relies on the caller's own callback for its effect.
#[verifier::external_body]
fn click_fn_call(f: &ClickFn) {
    (f.f)()
}

/// Relies on `Vec::push`: appends the element at the end.  The standard
/// push specification does not instantiate at an element type that holds a
/// trait object, so the length facts are restated here.
#[verifier::external_body]
pub fn push_component(v: &mut Vec<Box<dyn Component>>, c: Box<dyn Component>)
    ensures
        final(v)@.len() == old(v)@.len() + 1,
{
    v.push(c);
}

/// Static or reactive text.
pub struct Text {
    pub content: TextContent,
    pub style: Style,
}

/// Where a text widget's content comes from.
pub enum TextContent {
    /// A fixed string.
    Static(String),
    /// A callback evaluated at render time.
    Dynamic(TextFn),
}

impl Text {
    /// Static text.
    pub fn new(text: String) -> (r: Text)
        ensures
            r.content matches TextContent::Static(t) && t@ == text@,
    {
        Text { content: TextContent::Static(text), style: Style::new() }
    }

    /// Text recomputed from reactive state at every render.
    pub fn bind<F: Fn() -> String + Send + Sync + 'static>(f: F) -> Text {
        Text { content: TextContent::Dynamic(text_fn_new(f)), style: Style::new() }
    }

    /// This text with a style.
    pub fn style(self, style: Style) -> (r: Text)
        ensures
            r.content == self.content,
            r.style == style,
    {
        Text { style, ..self }
    }

    /// This text with the foreground set.
    pub fn fg(self, color: Color) -> (r: Text)
        ensures
            r.content == self.content,
            r.style.fg == Some(color),
    {
        let style = self.style.fg(color);
        Text { style, ..self }
    }

    /// This text with the background set.
    pub fn bg(self, color: Color) -> (r: Text)
        ensures
            r.content == self.content,
            r.style.bg == Some(color),
    {
        let style = self.style.bg(color);
        Text { style, ..self }
    }

    /// This text with a modifier added.
    pub fn add_modifier(self, modifier: Modifier) -> (r: Text)
        ensures
            r.content == self.content,
            r.style.modifiers.bits == (self.style.modifiers.bits | modifier.bits),
    {
        let style = self.style.add_modifier(modifier);
        Text { style, ..self }
    }

    /// The current content: the fixed string, or the callback's result.
    pub fn get_content(&self) -> (r: String)
        ensures
            self.content matches TextContent::Static(t) ==> r@ == t@,
    {
        match &self.content {
            TextContent::Static(s) => clone_str(s),
            TextContent::Dynamic(f) => text_fn_call(f),
        }
    }
}

impl Component for Text {
    fn render(&self, ctx: &RenderContext) -> ViewNode {
        ViewNode::text_styled(self.get_content(), self.style)
    }
}

/// A button's visual state.
#[derive(Debug, Clone, Copy, PartialEq, Eq, Structural)]
pub enum ButtonState {
    Normal,
    Hover,
    Active,
}

/// The styles a button cycles through.
#[derive(Clone)]
pub struct ButtonStyle {
    pub normal: Style,
    pub hover: Style,
    pub active: Style,
}

impl Default for ButtonStyle {
    fn default() -> ButtonStyle {
        ButtonStyle {
            normal: Style::new().fg(Color::white()).bg(Color::blue()),
            hover: Style::new().fg(Color::white()).bg(Color::rgb(100, 150, 255)).add_modifier(
                Modifier::bold(),
            ),
            active: Style::new().fg(Color::black()).bg(Color::cyan()).add_modifier(
                Modifier::bold(),
            ),
        }
    }
}

/// A labelled button that runs a callback when activated by Enter, Space
/// or a mouse click inside its area.
pub struct Button {
    pub label: String,
    pub on_click: ClickFn,
    pub style: ButtonStyle,
    pub state: ButtonState,
}

impl Button {
    pub fn new<F: Fn() + Send + Sync + 'static>(label: String, on_click: F) -> Button {
        Button {
            label,
            on_click: click_fn_new(on_click),
            style: ButtonStyle::default(),
            state: ButtonState::Normal,
        }
    }

    /// This button with the normal-state style replaced.
    pub fn style_normal(self, style: Style) -> Button {
        let mut b = self;
        b.style.normal = style;
        b
    }

    /// This button with the hover-state style replaced.
    pub fn style_hover(self, style: Style) -> Button {
        let mut b = self;
        b.style.hover = style;
        b
    }

    /// This button with the active-state style replaced.
    pub fn style_active(self, style: Style) -> Button {
        let mut b = self;
        b.style.active = style;
        b
    }

    /// The style of the current visual state.
    pub fn get_style(&self) -> (r: Style)
        ensures
            self.state == ButtonState::Normal ==> r == self.style.normal,
            self.state == ButtonState::Hover ==> r == self.style.hover,
            self.state == ButtonState::Active ==> r == self.style.active,
    {
        match self.state {
            ButtonState::Normal => self.style.normal,
            ButtonState::Hover => self.style.hover,
            ButtonState::Active => self.style.active,
        }
    }

    /// Run the click callback.
    fn activate(&self) {
        click_fn_call(&self.on_click);
    }
}

impl Component for Button {
    fn render(&self, ctx: &RenderContext) -> ViewNode {
        let mut content = String::new();
        content.append("[ ");
        content.append(self.label.as_str());
        content.append(" ]");
        ViewNode::text_styled(content, self.get_style())
    }

    fn handle_event(&mut self, event: &Event, ctx: &mut EventContext) -> EventResult {
        match event {
            Event::Key(key) => {
                match key.code {
                    KeyCode::Enter => {
                        self.state = ButtonState::Active;
                        self.activate();
                        return EventResult::Consumed;
                    },
                    KeyCode::Char(c) => {
                        if c == ' ' {
                            self.state = ButtonState::Active;
                            self.activate();
                            return EventResult::Consumed;
                        }
                    },
                    _ => {},
                }
            },
            Event::Mouse(mouse) => {
                let is_over = ctx.area.contains(mouse.x, mouse.y);
                match mouse.kind {
                    MouseEventKind::Down(MouseButton::Left) => {
                        if is_over {
                            self.state = ButtonState::Active;
                            return EventResult::Handled;
                        }
                    },
                    MouseEventKind::Up(MouseButton::Left) => {
                        if self.state == ButtonState::Active {
                            if is_over {
                                self.activate();
                            }
                            self.state = ButtonState::Normal;
                            return EventResult::Consumed;
                        }
                    },
                    MouseEventKind::Moved => {
                        if is_over && self.state == ButtonState::Normal {
                            self.state = ButtonState::Hover;
                        } else if !is_over && self.state == ButtonState::Hover {
                            self.state = ButtonState::Normal;
                        }
                    },
                    _ => {},
                }
            },
            _ => {},
        }
        EventResult::Ignored
    }
}

/// A container that renders its children top to bottom.
pub struct VStack {
    pub children: Vec<Box<dyn Component>>,
    pub gap: u16,
}

impl VStack {
    pub fn new() -> (r: VStack)
        ensures
            r.children@.len() == 0,
            r.gap == 0,
    {
        VStack { children: Vec::new(), gap: 0 }
    }

    /// This stack with the given inter-child gap.
    pub fn gap(self, gap: u16) -> (r: VStack)
        ensures
            r.children@.len() == self.children@.len(),
            r.gap == gap,
    {
        VStack { gap, ..self }
    }

    /// This stack with one more child at the end.
    pub fn push<C: Component + 'static>(self, child: C) -> (r: VStack)
        ensures
            r.children@.len() == self.children@.len() + 1,
            r.gap == self.gap,
    {
        let mut st = self;
        let b: Box<dyn Component> = Box::new(child);
        push_component(&mut st.children, b);
        st
    }
}

impl Component for VStack {
    fn render(&self, ctx: &RenderContext) -> ViewNode {
        ViewNode::container(render_children(&self.children, ctx))
    }

    fn handle_event(&mut self, event: &Event, ctx: &mut EventContext) -> EventResult {
        dispatch_children(&mut self.children, event, ctx)
    }
}

impl Default for VStack {
    fn default() -> (r: VStack)
        ensures
            r.children@.len() == 0,
            r.gap == 0,
    {
        VStack::new()
    }
}

/// A container that renders its children side by side.
pub struct HStack {
    pub children: Vec<Box<dyn Component>>,
    pub gap: u16,
}

impl HStack {
    pub fn new() -> (r: HStack)
        ensures
            r.children@.len() == 0,
            r.gap == 0,
    {
        HStack { children: Vec::new(), gap: 0 }
    }

    /// This stack with the given inter-child gap.
    pub fn gap(self, gap: u16) -> (r: HStack)
        ensures
            r.children@.len() == self.children@.len(),
            r.gap == gap,
    {
        HStack { gap, ..self }
    }

    /// This stack with one more child at the end.
    pub fn push<C: Component + 'static>(self, child: C) -> (r: HStack)
        ensures
            r.children@.len() == self.children@.len() + 1,
            r.gap == self.gap,
    {
        let mut st = self;
        let b: Box<dyn Component> = Box::new(child);
        push_component(&mut st.children, b);
        st
    }
}

impl Component for HStack {
    fn render(&self, ctx: &RenderContext) -> ViewNode {
        ViewNode::container(render_children(&self.children, ctx))
    }

    fn handle_event(&mut self, event: &Event, ctx: &mut EventContext) -> EventResult {
        dispatch_children(&mut self.children, event, ctx)
    }
}

impl Default for HStack {
    fn default() -> (r: HStack)
        ensures
            r.children@.len() == 0,
            r.gap == 0,
    {
        HStack::new()
    }
}

/// Render every child into its own view node, in order.
#[verifier::loop_isolation(false)]
pub fn render_children(children: &Vec<Box<dyn Component>>, ctx: &RenderContext) -> (r: Vec<
    ViewNode,
>)
    ensures
        r@.len() == children@.len(),
{
    let mut nodes: Vec<ViewNode> = Vec::new();
    let mut i: usize = 0;
    while i < children.len()
        invariant
            0 <= i <= children@.len(),
            nodes@.len() == i,
        decreases children@.len() - i,
    {
        nodes.push(children[i].render(ctx));
        i = i + 1;
    }
    nodes
}

/// Offer the event to each child in order until one handles or consumes
/// it.
#[verifier::loop_isolation(false)]
pub fn dispatch_children(
    children: &mut Vec<Box<dyn Component>>,
    event: &Event,
    ctx: &mut EventContext,
) -> (r: EventResult)
    ensures
        final(children)@.len() == old(children)@.len(),
{
    let ghost n = children@.len();
    let mut done: Vec<Box<dyn Component>> = Vec::new();
    let mut outcome = EventResult::Ignored;
    while children.len() > 0
        invariant
            done@.len() + children@.len() == n,
        decreases children@.len(),
    {
        let mut child = children.remove(0);
        if matches!(outcome, EventResult::Ignored) {
            let result = child.handle_event(event, ctx);
            match result {
                EventResult::Consumed => {
                    outcome = EventResult::Consumed;
                },
                EventResult::Handled => {
                    outcome = EventResult::Handled;
                },
                EventResult::Ignored => {},
            }
        }
        push_component(&mut done, child);
    }
    while done.len() > 0
        invariant
            done@.len() + children@.len() == n,
        decreases done@.len(),
    {
        let child = done.remove(0);
        push_component(children, child);
    }
    outcome
}

/// A bordered container with an optional title.
pub struct Panel {
    pub title: Option<String>,
    pub child: Option<Box<dyn Component>>,
    pub border_style: Style,
}

impl Panel {
    pub fn new() -> (r: Panel)
        ensures
            r.title is None,
            r.child is None,
    {
        Panel { title: None, child: None, border_style: Style::new().fg(Color::gray()) }
    }

    /// This panel with a title in its border.
    pub fn title(self, title: String) -> (r: Panel)
        ensures
            r.title matches Some(t) && t@ == title@,
    {
        Panel { title: Some(title), ..self }
    }

    /// This panel with its content set.
    pub fn child<C: Component + 'static>(self, child: C) -> (r: Panel)
        ensures
            r.child is Some,
            r.title == self.title,
    {
        let b: Box<dyn Component> = Box::new(child);
        Panel { child: Some(b), ..self }
    }

    /// This panel with its border style replaced.
    pub fn border_style(self, style: Style) -> (r: Panel)
        ensures
            r.border_style == style,
            r.title == self.title,
    {
        Panel { border_style: style, ..self }
    }
}

impl Component for Panel {
    fn render(&self, ctx: &RenderContext) -> ViewNode {
        let mut children: Vec<ViewNode> = Vec::new();
        match &self.title {
            Some(title) => {
                let mut border_line = String::new();
                border_line.append("\u{250c}\u{2500} ");
                border_line.append(title.as_str());
                border_line.append(" \u{2500}\u{2510}");
                children.push(ViewNode::text_styled(border_line, self.border_style));
            },
            None => {
                children.push(
                    ViewNode::text_styled(
                        "\u{250c}\u{2500}\u{2500}\u{2500}\u{2500}\u{2500}\u{2510}".to_owned(),
                        self.border_style,
                    ),
                );
            },
        }
        match &self.child {
            Some(child) => {
                children.push(child.render(ctx));
            },
            None => {},
        }
        children.push(
            ViewNode::text_styled(
                "\u{2514}\u{2500}\u{2500}\u{2500}\u{2500}\u{2500}\u{2518}".to_owned(),
                self.border_style,
            ),
        );
        ViewNode::container(children)
    }

    fn handle_event(&mut self, event: &Event, ctx: &mut EventContext) -> EventResult {
        match &mut self.child {
            Some(child) => child.handle_event(event, ctx),
            None => EventResult::Ignored,
        }
    }
}

impl Default for Panel {
    fn default() -> (r: Panel)
        ensures
            r.title is None,
            r.child is None,
    {
        Panel::new()
    }
}

} // verus!
