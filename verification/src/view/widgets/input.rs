//! A single-line text input with a cursor.

use vstd::prelude::*;

use crate::event::Event;
use crate::event::EventResult;
use crate::event::KeyCode;
use crate::event::KeyModifiers;
use crate::render::buffer::str_chars;
use crate::command::chars_to_string;
use crate::state::Signal;
use crate::theme::Color;
use crate::theme::Modifier;
use crate::theme::Style;
use crate::view::Component;
use crate::view::EventContext;
use crate::view::RenderContext;
use crate::view::ViewNode;

verus! {

/// The styles of an input field.
#[derive(Clone)]
pub struct InputStyle {
    pub normal: Style,
    pub focused: Style,
    pub placeholder: Style,
}

impl Default for InputStyle {
    fn default() -> InputStyle {
        InputStyle {
            normal: Style::new().fg(Color::white()).bg(Color::rgb(40, 40, 40)),
            focused: Style::new().fg(Color::white()).bg(Color::rgb(60, 60, 80)).add_modifier(
                Modifier::bold(),
            ),
            placeholder: Style::new().fg(Color::gray()).bg(Color::rgb(40, 40, 40)),
        }
    }
}

/// A text input bound to a string signal, with cursor movement, editing
/// keys and an optional placeholder and length bound.
pub struct Input {
    pub value: Signal<String>,
    pub cursor_pos: usize,
    pub placeholder: Option<String>,
    pub password_mode: bool,
    pub max_length: Option<usize>,
    pub is_focused: bool,
    pub style: InputStyle,
}

impl Input {
    /// An input editing the given signal.
    pub fn new(value: Signal<String>) -> (r: Input)
        ensures
            r.cursor_pos == 0,
            !r.password_mode,
            r.placeholder is None,
            r.max_length is None,
            !r.is_focused,
    {
        Input {
            value,
            cursor_pos: 0,
            placeholder: None,
            password_mode: false,
            max_length: None,
            is_focused: false,
            style: InputStyle::default(),
        }
    }

    /// This input with placeholder text for when it is empty.
    pub fn placeholder(self, text: String) -> (r: Input)
        ensures
            r.placeholder matches Some(t) && t@ == text@,
            r.cursor_pos == self.cursor_pos,
    {
        Input { placeholder: Some(text), ..self }
    }

    /// This input masking every character as `*`.
    pub fn password(self) -> (r: Input)
        ensures
            r.password_mode,
            r.cursor_pos == self.cursor_pos,
    {
        Input { password_mode: true, ..self }
    }

    /// This input refusing input beyond the given length.
    pub fn max_length(self, length: usize) -> (r: Input)
        ensures
            r.max_length == Some(length),
            r.cursor_pos == self.cursor_pos,
    {
        Input { max_length: Some(length), ..self }
    }

    /// This input with its focus state set.
    pub fn focused(self, focused: bool) -> (r: Input)
        ensures
            r.is_focused == focused,
            r.cursor_pos == self.cursor_pos,
    {
        Input { is_focused: focused, ..self }
    }

    /// The text as shown: masked in password mode.
    pub fn display_text(&self) -> String {
        let text = self.value.get();
        let chars = str_chars(text.as_str());
        if chars.len() == 0 {
            return String::new();
        }
        if self.password_mode {
            let mut masked: Vec<char> = Vec::new();
            let mut i: usize = 0;
            while i < chars.len()
                invariant
                    masked@.len() == i,
                    0 <= i <= chars@.len(),
                decreases chars@.len() - i,
            {
                masked.push('*');
                i = i + 1;
            }
            chars_to_string(&masked)
        } else {
            text
        }
    }

    /// Insert a character at the cursor; refused beyond the length bound.
    pub fn insert_char(&mut self, c: char)
        ensures
            final(self).cursor_pos == old(self).cursor_pos || final(self).cursor_pos == old(
                self,
            ).cursor_pos + 1,
    {
        let current = self.value.get();
        let mut chars = str_chars(current.as_str());
        match self.max_length {
            Some(max) => {
                if chars.len() >= max {
                    return ;
                }
            },
            None => {},
        }
        if self.cursor_pos <= chars.len() {
            chars.insert(self.cursor_pos, c);
            self.value.set(chars_to_string(&chars));
            if self.cursor_pos < usize::MAX {
                self.cursor_pos = self.cursor_pos + 1;
            }
        }
    }

    /// Delete the character before the cursor.
    pub fn delete_before_cursor(&mut self)
        ensures
            final(self).cursor_pos == old(self).cursor_pos || final(self).cursor_pos == old(
                self,
            ).cursor_pos - 1,
    {
        if self.cursor_pos == 0 {
            return ;
        }
        let current = self.value.get();
        let mut chars = str_chars(current.as_str());
        if self.cursor_pos <= chars.len() {
            let removed = chars.remove(self.cursor_pos - 1);
            self.value.set(chars_to_string(&chars));
            self.cursor_pos = self.cursor_pos - 1;
        }
    }

    /// Delete the character at the cursor.
    pub fn delete_at_cursor(&mut self)
        ensures
            final(self).cursor_pos == old(self).cursor_pos,
    {
        let current = self.value.get();
        let mut chars = str_chars(current.as_str());
        if self.cursor_pos < chars.len() {
            let removed = chars.remove(self.cursor_pos);
            self.value.set(chars_to_string(&chars));
        }
    }

    /// Move the cursor one cell left, stopping at the start.
    pub fn move_cursor_left(&mut self)
        ensures
            final(self).cursor_pos == if old(self).cursor_pos > 0 {
                old(self).cursor_pos - 1
            } else {
                0int
            },
    {
        if self.cursor_pos > 0 {
            self.cursor_pos = self.cursor_pos - 1;
        }
    }

    /// Move the cursor one cell right, stopping at the end of the text.
    pub fn move_cursor_right(&mut self)
        ensures
            final(self).cursor_pos == old(self).cursor_pos || final(self).cursor_pos == old(
                self,
            ).cursor_pos + 1,
    {
        let text = self.value.get();
        let chars = str_chars(text.as_str());
        if self.cursor_pos < chars.len() {
            self.cursor_pos = self.cursor_pos + 1;
        }
    }

    /// Move the cursor to the start.
    pub fn move_cursor_home(&mut self)
        ensures
            final(self).cursor_pos == 0,
    {
        self.cursor_pos = 0;
    }

    /// Move the cursor past the last character.
    pub fn move_cursor_end(&mut self) {
        let text = self.value.get();
        let chars = str_chars(text.as_str());
        self.cursor_pos = chars.len();
    }

    /// Clear the text and move the cursor to the start.
    pub fn clear(&mut self)
        ensures
            final(self).cursor_pos == 0,
    {
        self.value.set(String::new());
        self.cursor_pos = 0;
    }
}

impl Component for Input {
    fn render(&self, ctx: &RenderContext) -> ViewNode {
        let display = self.display_text();
        let style = if self.is_focused {
            self.style.focused
        } else {
            self.style.normal
        };
        let chars = str_chars(display.as_str());
        if chars.len() == 0 {
            match &self.placeholder {
                Some(placeholder) => {
                    let mut text = String::new();
                    text.append(placeholder.as_str());
                    text.append(" ");
                    return ViewNode::text_styled(text, self.style.placeholder);
                },
                None => {},
            }
        }
        if self.is_focused {
            // show the cursor as a bar between the characters
            let mut with_cursor: Vec<char> = Vec::new();
            let mut i: usize = 0;
            while i < chars.len()
                invariant
                    0 <= i <= chars@.len(),
                decreases chars@.len() - i,
            {
                if i == self.cursor_pos {
                    with_cursor.push('|');
                }
                with_cursor.push(chars[i]);
                i = i + 1;
            }
            if self.cursor_pos >= chars.len() {
                with_cursor.push('|');
            }
            ViewNode::text_styled(chars_to_string(&with_cursor), style)
        } else {
            let mut text = String::new();
            text.append(display.as_str());
            text.append(" ");
            ViewNode::text_styled(text, style)
        }
    }

    fn handle_event(&mut self, event: &Event, ctx: &mut EventContext) -> EventResult {
        if !self.is_focused {
            return EventResult::Ignored;
        }
        match event {
            Event::Key(key) => {
                if key.modifiers.contains(KeyModifiers::control()) {
                    match key.code {
                        KeyCode::Char(c) => {
                            if c == 'u' {
                                self.clear();
                                return EventResult::Handled;
                            }
                            if c == 'a' {
                                self.move_cursor_home();
                                return EventResult::Handled;
                            }
                            if c == 'e' {
                                self.move_cursor_end();
                                return EventResult::Handled;
                            }
                            return EventResult::Ignored;
                        },
                        _ => {
                            return EventResult::Ignored;
                        },
                    }
                }
                match key.code {
                    KeyCode::Char(c) => {
                        self.insert_char(c);
                        EventResult::Handled
                    },
                    KeyCode::Backspace => {
                        self.delete_before_cursor();
                        EventResult::Handled
                    },
                    KeyCode::Delete => {
                        self.delete_at_cursor();
                        EventResult::Handled
                    },
                    KeyCode::Left => {
                        self.move_cursor_left();
                        EventResult::Handled
                    },
                    KeyCode::Right => {
                        self.move_cursor_right();
                        EventResult::Handled
                    },
                    KeyCode::Home => {
                        self.move_cursor_home();
                        EventResult::Handled
                    },
                    KeyCode::End => {
                        self.move_cursor_end();
                        EventResult::Handled
                    },
                    _ => EventResult::Ignored,
                }
            },
            _ => EventResult::Ignored,
        }
    }
}

} // verus!
