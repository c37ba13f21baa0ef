//! A progress bar over a fraction in thousandths.

use vstd::prelude::*;

use crate::command::chars_to_string;
use crate::event::Event;
use crate::event::EventResult;
use crate::state::Signal;
use crate::theme::Color;
use crate::theme::Style;
use crate::view::Component;
use crate::view::EventContext;
use crate::view::RenderContext;
use crate::view::ViewNode;

verus! {

/// The styles of a progress bar.
#[derive(Clone)]
pub struct ProgressStyle {
    pub filled: Style,
    pub empty: Style,
    pub label: Style,
}

impl Default for ProgressStyle {
    fn default() -> ProgressStyle {
        ProgressStyle {
            filled: Style::new().bg(Color::green()).fg(Color::black()),
            empty: Style::new().bg(Color::rgb(40, 40, 40)).fg(Color::gray()),
            label: Style::new().fg(Color::white()),
        }
    }
}

/// A horizontal bar showing a completion fraction, measured in
/// thousandths: 0 is empty, 1000 is full; larger values are clamped.
pub struct ProgressBar {
    pub progress: Signal<u16>,
    pub label: Option<String>,
    pub width: usize,
    pub show_percentage: bool,
    pub style: ProgressStyle,
}

impl ProgressBar {
    /// A bar over the given progress signal.
    pub fn new(progress: Signal<u16>) -> (r: ProgressBar)
        ensures
            r.width == 30,
            r.show_percentage,
            r.label is None,
    {
        ProgressBar {
            progress,
            label: None,
            width: 30,
            show_percentage: true,
            style: ProgressStyle::default(),
        }
    }

    /// This bar with a label before it.
    pub fn label(self, text: String) -> (r: ProgressBar)
        ensures
            r.label matches Some(t) && t@ == text@,
            r.width == self.width,
    {
        ProgressBar { label: Some(text), ..self }
    }

    /// This bar with the given width in cells.
    pub fn width(self, width: usize) -> (r: ProgressBar)
        ensures
            r.width == width,
            r.label == self.label,
    {
        ProgressBar { width, ..self }
    }

    /// This bar with the percentage text shown or hidden.
    pub fn show_percentage(self, show: bool) -> (r: ProgressBar)
        ensures
            r.show_percentage == show,
            r.width == self.width,
    {
        ProgressBar { show_percentage: show, ..self }
    }

    /// This bar with the filled part's color replaced.
    pub fn filled_color(self, color: Color) -> (r: ProgressBar)
        ensures
            r.width == self.width,
            r.style.filled.bg == Some(color),
    {
        let mut b = self;
        b.style.filled = b.style.filled.bg(color);
        b
    }

    /// The bar's cells: filled blocks for the completed fraction, shade
    /// blocks for the rest, exactly `width` cells in all.
    #[verifier::loop_isolation(false)]
    pub fn render_bar(&self, progress: u16) -> (r: String)
        ensures
            r@.len() == self.width,
    {
        let clamped: u16 = if progress > 1000 {
            1000
        } else {
            progress
        };
        proof {
            assert((self.width as int) * (clamped as int) <= (self.width as int) * 1000)
                by (nonlinear_arith)
                requires
                    clamped as int <= 1000,
                    self.width as int >= 0,
            ;
            assert((self.width as int) * (clamped as int) >= 0) by (nonlinear_arith)
                requires
                    clamped as int >= 0,
                    self.width as int >= 0,
            ;
            assert((self.width as int) * (clamped as int) / 1000 <= self.width as int)
                by (nonlinear_arith)
                requires
                    (self.width as int) * (clamped as int) <= (self.width as int) * 1000,
                    (self.width as int) * (clamped as int) >= 0,
            ;
        }
        let filled_width = (((self.width as u128) * (clamped as u128)) / 1000) as usize;
        let mut cells: Vec<char> = Vec::new();
        let mut i: usize = 0;
        while i < filled_width
            invariant
                0 <= i <= filled_width <= self.width,
                cells@.len() == i,
            decreases filled_width - i,
        {
            cells.push('\u{2588}');
            i = i + 1;
        }
        let mut k: usize = filled_width;
        while k < self.width
            invariant
                filled_width <= k <= self.width,
                cells@.len() == k,
            decreases self.width - k,
        {
            cells.push('\u{2591}');
            k = k + 1;
        }
        chars_to_string(&cells)
    }
}

impl Component for ProgressBar {
    fn render(&self, ctx: &RenderContext) -> ViewNode {
        let progress = self.progress.get();
        let clamped: u16 = if progress > 1000 {
            1000
        } else {
            progress
        };
        let bar = self.render_bar(clamped);
        let mut combined = String::new();
        match &self.label {
            Some(label) => {
                combined.append(label.as_str());
                combined.append(" ");
            },
            None => {},
        }
        combined.append(bar.as_str());
        if self.show_percentage {
            combined.append(" ");
            let pct = clamped / 10;
            combined.append(push_decimal_u16(pct).as_str());
            combined.append("%");
        }
        ViewNode::text_styled(combined, self.style.label)
    }

    fn handle_event(&mut self, event: &Event, ctx: &mut EventContext) -> EventResult {
        EventResult::Ignored
    }
}

/// The decimal digits of a small number, as text.
#[verifier::loop_isolation(false)]
pub fn push_decimal_u16(v: u16) -> (r: String)
    ensures
        r@.len() >= 1,
{
    let mut digits: Vec<char> = Vec::new();
    let mut n = v;
    if n == 0 {
        digits.push('0');
    }
    while n > 0
        invariant
            n <= v,
            n < v ==> digits@.len() >= 1,
            v == 0 ==> digits@.len() >= 1,
        decreases n,
    {
        let d = n % 10;
        digits.push(digit_char(d as u8));
        n = n / 10;
    }
    // digits came out least-significant first
    let mut out: Vec<char> = Vec::new();
    let mut i: usize = digits.len();
    proof {
        assert(digits@.len() >= 1);
    }
    while i > 0
        invariant
            0 <= i <= digits@.len(),
            out@.len() == digits@.len() - i,
        decreases i,
    {
        i = i - 1;
        out.push(digits[i]);
    }
    chars_to_string(&out)
}

/// The character of one decimal digit.
pub fn digit_char(d: u8) -> (r: char)
    requires
        d < 10,
{
    match d {
        0 => '0',
        1 => '1',
        2 => '2',
        3 => '3',
        4 => '4',
        5 => '5',
        6 => '6',
        7 => '7',
        8 => '8',
        _ => '9',
    }
}

} // verus!
