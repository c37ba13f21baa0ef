//! The renderer: dirty regions to style-minimized escape sequences.
//!
//! Each frame, the renderer diffs the new buffer against the previous one
//! and redraws only the dirty regions, re-emitting the style only when it
//! changes within a row and resetting it at each row's end.

use vstd::prelude::*;

use crate::error::Error;
use crate::render::backend::Backend;
use crate::render::buffer::Buffer;
use crate::render::buffer::Cell;
use crate::render::diff::compute_diff;
use crate::render::diff::DirtyRegion;
use crate::theme::Style;

verus! {

/// The decimal digits of a byte, as output bytes.
pub open spec fn dec_bytes(n: int) -> Seq<u8> {
    if n < 10 {
        seq![(48 + n) as u8]
    } else if n < 100 {
        seq![(48 + n / 10) as u8, (48 + n % 10) as u8]
    } else {
        seq![(48 + n / 100) as u8, (48 + (n / 10) % 10) as u8, (48 + n % 10) as u8]
    }
}

/// The escape bytes that reset all attributes.
pub open spec fn reset_bytes() -> Seq<u8> {
    seq![27u8, 91u8, 48u8, 109u8]
}

/// The escape bytes that select a 24-bit color: foreground under code 38,
/// background under code 48.
pub open spec fn color_bytes(code: int, r: int, g: int, b: int) -> Seq<u8> {
    seq![27u8, 91u8] + dec_bytes(code) + seq![59u8, 50u8, 59u8] + dec_bytes(r) + seq![59u8]
        + dec_bytes(g) + seq![59u8] + dec_bytes(b) + seq![109u8]
}

/// The escape bytes of one modifier code.
pub open spec fn modifier_code_bytes(code: int) -> Seq<u8> {
    seq![27u8, 91u8] + dec_bytes(code) + seq![109u8]
}

/// The bytes a style change appends after `acc`: a reset, then the
/// foreground and background when present, then one code per set
/// modifier, in the fixed order bold, dim, italic, underline, blink,
/// reverse, hidden, strikethrough.
pub open spec fn style_append(s: Style, acc: Seq<u8>) -> Seq<u8> {
    let a0 = acc + reset_bytes();
    let a1 = match s.fg {
        Some(c) => a0 + color_bytes(38, c.r as int, c.g as int, c.b as int),
        None => a0,
    };
    let a2 = match s.bg {
        Some(c) => a1 + color_bytes(48, c.r as int, c.g as int, c.b as int),
        None => a1,
    };
    let a3 = if s.modifiers.bits & 0x01 != 0 {
        a2 + modifier_code_bytes(1)
    } else {
        a2
    };
    let a4 = if s.modifiers.bits & 0x02 != 0 {
        a3 + modifier_code_bytes(2)
    } else {
        a3
    };
    let a5 = if s.modifiers.bits & 0x04 != 0 {
        a4 + modifier_code_bytes(3)
    } else {
        a4
    };
    let a6 = if s.modifiers.bits & 0x08 != 0 {
        a5 + modifier_code_bytes(4)
    } else {
        a5
    };
    let a7 = if s.modifiers.bits & 0x10 != 0 {
        a6 + modifier_code_bytes(5)
    } else {
        a6
    };
    let a8 = if s.modifiers.bits & 0x20 != 0 {
        a7 + modifier_code_bytes(7)
    } else {
        a7
    };
    let a9 = if s.modifiers.bits & 0x40 != 0 {
        a8 + modifier_code_bytes(8)
    } else {
        a8
    };
    if s.modifiers.bits & 0x80 != 0 {
        a9 + modifier_code_bytes(9)
    } else {
        a9
    }
}

/// The full byte sequence of one style change.
pub open spec fn style_bytes(s: Style) -> Seq<u8> {
    style_append(s, Seq::empty())
}

/// Append the decimal digits of a byte.
fn push_dec(out: &mut Vec<u8>, n: u8)
    ensures
        final(out)@ == old(out)@ + dec_bytes(n as int),
{
    if n < 10 {
        out.push(48 + n);
        proof {
            assert(final(out)@ =~= old(out)@ + dec_bytes(n as int));
        }
    } else if n < 100 {
        out.push(48 + n / 10);
        out.push(48 + n % 10);
        proof {
            assert(final(out)@ =~= old(out)@ + dec_bytes(n as int));
        }
    } else {
        out.push(48 + n / 100);
        out.push(48 + (n / 10) % 10);
        out.push(48 + n % 10);
        proof {
            assert(final(out)@ =~= old(out)@ + dec_bytes(n as int));
        }
    }
}

/// Append one 24-bit color selection.
fn push_color(out: &mut Vec<u8>, code: u8, r: u8, g: u8, b: u8)
    ensures
        final(out)@ == old(out)@ + color_bytes(code as int, r as int, g as int, b as int),
{
    out.push(27);
    out.push(91);
    push_dec(out, code);
    out.push(59);
    out.push(50);
    out.push(59);
    push_dec(out, r);
    out.push(59);
    push_dec(out, g);
    out.push(59);
    push_dec(out, b);
    out.push(109);
    proof {
        assert(final(out)@ =~= old(out)@ + color_bytes(
            code as int,
            r as int,
            g as int,
            b as int,
        ));
    }
}

/// Append one modifier code.
fn push_modifier(out: &mut Vec<u8>, code: u8)
    ensures
        final(out)@ == old(out)@ + modifier_code_bytes(code as int),
{
    out.push(27);
    out.push(91);
    push_dec(out, code);
    out.push(109);
    proof {
        assert(final(out)@ =~= old(out)@ + modifier_code_bytes(code as int));
    }
}

/// Append the reset sequence.
pub fn write_reset_codes(out: &mut Vec<u8>)
    ensures
        final(out)@ == old(out)@ + reset_bytes(),
{
    out.push(27);
    out.push(91);
    out.push(48);
    out.push(109);
    proof {
        assert(final(out)@ =~= old(out)@ + reset_bytes());
    }
}

/// Append the full escape sequence of one style change.
pub fn write_style_codes(out: &mut Vec<u8>, style: &Style)
    ensures
        final(out)@ == style_append(*style, old(out)@),
{
    write_reset_codes(out);
    match style.fg {
        Some(c) => {
            push_color(out, 38, c.r, c.g, c.b);
        },
        None => {},
    }
    match style.bg {
        Some(c) => {
            push_color(out, 48, c.r, c.g, c.b);
        },
        None => {},
    }
    if style.modifiers.bits & 0x01 != 0 {
        push_modifier(out, 1);
    }
    if style.modifiers.bits & 0x02 != 0 {
        push_modifier(out, 2);
    }
    if style.modifiers.bits & 0x04 != 0 {
        push_modifier(out, 3);
    }
    if style.modifiers.bits & 0x08 != 0 {
        push_modifier(out, 4);
    }
    if style.modifiers.bits & 0x10 != 0 {
        push_modifier(out, 5);
    }
    if style.modifiers.bits & 0x20 != 0 {
        push_modifier(out, 7);
    }
    if style.modifiers.bits & 0x40 != 0 {
        push_modifier(out, 8);
    }
    if style.modifiers.bits & 0x80 != 0 {
        push_modifier(out, 9);
    }
}

/// The UTF-8 encoding of one character: one to four bytes by code-point
/// range.
pub open spec fn utf8_of(c: char) -> Seq<u8> {
    let cp = c as u32;
    if cp < 0x80 {
        seq![cp as u8]
    } else if cp < 0x800 {
        seq![(0xC0 | (cp >> 6)) as u8, (0x80 | (cp & 0x3F)) as u8]
    } else if cp < 0x10000 {
        seq![
            (0xE0 | (cp >> 12)) as u8,
            (0x80 | ((cp >> 6) & 0x3F)) as u8,
            (0x80 | (cp & 0x3F)) as u8,
        ]
    } else {
        seq![
            (0xF0 | (cp >> 18)) as u8,
            (0x80 | ((cp >> 12) & 0x3F)) as u8,
            (0x80 | ((cp >> 6) & 0x3F)) as u8,
            (0x80 | (cp & 0x3F)) as u8,
        ]
    }
}

/// Append the UTF-8 encoding of one character.
pub fn push_char_utf8(out: &mut Vec<u8>, c: char)
    ensures
        final(out)@ == old(out)@ + utf8_of(c),
{
    let cp = c as u32;
    if cp < 0x80 {
        proof {
            assert(cp < 0x80 ==> cp < 256) by (bit_vector);
        }
        out.push(cp as u8);
        proof {
            assert(final(out)@ =~= old(out)@ + utf8_of(c));
        }
    } else if cp < 0x800 {
        proof {
            assert((0xC0 | (cp >> 6)) < 256 && (0x80 | (cp & 0x3F)) < 256) by (bit_vector)
                requires
                    cp < 0x800,
            ;
        }
        out.push((0xC0 | (cp >> 6)) as u8);
        out.push((0x80 | (cp & 0x3F)) as u8);
        proof {
            assert(final(out)@ =~= old(out)@ + utf8_of(c));
        }
    } else if cp < 0x10000 {
        proof {
            assert((0xE0 | (cp >> 12)) < 256 && (0x80 | ((cp >> 6) & 0x3F)) < 256 && (0x80 | (
            cp & 0x3F)) < 256) by (bit_vector)
                requires
                    cp < 0x10000,
            ;
        }
        out.push((0xE0 | (cp >> 12)) as u8);
        out.push((0x80 | ((cp >> 6) & 0x3F)) as u8);
        out.push((0x80 | (cp & 0x3F)) as u8);
        proof {
            assert(final(out)@ =~= old(out)@ + utf8_of(c));
        }
    } else {
        proof {
            assert(cp < 0x110000);
            assert((0xF0 | (cp >> 18)) < 256 && (0x80 | ((cp >> 12) & 0x3F)) < 256 && (0x80 | (
            (cp >> 6) & 0x3F)) < 256 && (0x80 | (cp & 0x3F)) < 256) by (bit_vector)
                requires
                    cp < 0x110000,
            ;
        }
        out.push((0xF0 | (cp >> 18)) as u8);
        out.push((0x80 | ((cp >> 12) & 0x3F)) as u8);
        out.push((0x80 | ((cp >> 6) & 0x3F)) as u8);
        out.push((0x80 | (cp & 0x3F)) as u8);
        proof {
            assert(final(out)@ =~= old(out)@ + utf8_of(c));
        }
    }
}

/// The bytes one cell appends after `acc`: the full style change when its
/// style differs from the one last emitted, then the character.
pub open spec fn cell_append(c: Cell, cur: Option<Style>, acc: Seq<u8>) -> Seq<u8> {
    let with_style = match cur {
        Some(st) => if st == c.style {
            acc
        } else {
            style_append(c.style, acc)
        },
        None => style_append(c.style, acc),
    };
    with_style + utf8_of(c.ch)
}

/// The style-minimized bytes of a run of cells, threading the last emitted
/// style through the run.
pub open spec fn run_append(cells: Seq<Cell>, cur: Option<Style>, acc: Seq<u8>) -> Seq<u8>
    decreases cells.len(),
{
    if cells.len() == 0 {
        acc
    } else {
        run_append(cells.drop_first(), Some(cells[0].style), cell_append(cells[0], cur, acc))
    }
}

/// The whole escape output of one row run: each cell's style is emitted
/// only when it differs from the style last emitted within the run, and a
/// run that emitted anything ends with a reset.
pub open spec fn spec_row_output(cells: Seq<Cell>) -> Seq<u8> {
    if cells.len() == 0 {
        Seq::empty()
    } else {
        run_append(cells, None, Seq::empty()) + reset_bytes()
    }
}

/// The escape bytes for the cells of row `y` in columns
/// `[x_start, x_end)`: exactly the style-minimized output of that run.
#[verifier::loop_isolation(false)]
pub fn row_escape_bytes(buffer: &Buffer, y: u16, x_start: u16, x_end: u16) -> (out: Vec<u8>)
    requires
        buffer.wf(),
        y < buffer.height,
        x_start <= x_end,
        x_end <= buffer.width,
    ensures
        out@ == spec_row_output(
            buffer.spec_row(y as int).subrange(x_start as int, x_end as int),
        ),
{
    let ghost seg = buffer.spec_row(y as int).subrange(x_start as int, x_end as int);
    proof {
        crate::render::buffer::lemma_row_bounds(
            y as int,
            buffer.width as int,
            buffer.height as int,
        );
        assert(seg.skip(0) =~= seg);
    }
    let mut output: Vec<u8> = Vec::new();
    let mut current_style: Option<Style> = None;
    let mut x = x_start;
    while x < x_end
        invariant
            x_start <= x <= x_end,
            run_append(
                seg.skip(x - x_start),
                current_style,
                output@,
            ) == run_append(seg, None, Seq::empty()),
            x == x_start ==> current_style is None && output@.len() == 0,
            x > x_start ==> current_style == Some(seg[x - x_start - 1].style),
        decreases x_end - x,
    {
        let ghost pre = seg.skip(x - x_start);
        proof {
            assert(pre[0] == seg[x - x_start]);
            assert(seg[x - x_start] == buffer.spec_cell(x as int, y as int));
            assert(pre.drop_first() =~= seg.skip(x + 1 - x_start));
        }
        let cell = match buffer.get(x, y) {
            Some(c) => *c,
            None => Cell::new(' '),
        };
        let changed = match &current_style {
            Some(st) => !(*st == cell.style),
            None => true,
        };
        if changed {
            write_style_codes(&mut output, &cell.style);
        }
        push_char_utf8(&mut output, cell.ch);
        current_style = Some(cell.style);
        x = x + 1;
    }
    if current_style.is_some() {
        write_reset_codes(&mut output);
        proof {
            assert(seg.skip(x_end - x_start) =~= Seq::<Cell>::empty());
            assert(seg.len() > 0);
        }
    } else {
        proof {
            assert(seg.len() == 0);
            assert(seg =~= Seq::<Cell>::empty());
        }
    }
    output
}

/// Writes frames through a backend, redrawing only what changed since the
/// previous frame.
pub struct Renderer {
    /// Whether the next frame is the first and must redraw everything.
    pub first_render: bool,
}

impl Renderer {
    pub fn new() -> (r: Renderer)
        ensures
            r.first_render,
    {
        Renderer { first_render: true }
    }

    /// Draw one frame: on the first frame, or without a previous buffer,
    /// the whole screen is one dirty region; otherwise only the regions
    /// the differ reports are redrawn.  A frame whose rows all hash like
    /// the previous frame's touches the backend not at all.  Otherwise the
    /// backend is flushed once, after all regions.
    #[verifier::loop_isolation(false)]
    pub fn render<B: Backend>(
        &mut self,
        backend: &mut B,
        prev_buffer: Option<&Buffer>,
        buffer: &Buffer,
    ) -> (r: Result<(), Error>)
        requires
            buffer.wf(),
            prev_buffer matches Some(p) ==> p.wf(),
        ensures
            !final(self).first_render,
            (!old(self).first_render && (prev_buffer matches Some(p) && p.width
                == buffer.width && p.height == buffer.height && (forall|yy: int|
                0 <= yy < buffer.height ==> crate::render::diff::spec_line_hash(
                    p.spec_row(yy),
                ) == crate::render::diff::spec_line_hash(buffer.spec_row(yy))))) ==> r is Ok,
    {
        let dirty_regions: Vec<DirtyRegion>;
        match prev_buffer {
            Some(prev) => {
                if self.first_render {
                    self.first_render = false;
                    let mut v: Vec<DirtyRegion> = Vec::new();
                    v.push(DirtyRegion::full_screen(buffer.width, buffer.height));
                    dirty_regions = v;
                } else {
                    dirty_regions = compute_diff(prev, buffer);
                }
            },
            None => {
                self.first_render = false;
                let mut v: Vec<DirtyRegion> = Vec::new();
                v.push(DirtyRegion::full_screen(buffer.width, buffer.height));
                dirty_regions = v;
            },
        }
        self.first_render = false;
        if dirty_regions.len() == 0 {
            return Ok(());
        }
        let mut i: usize = 0;
        while i < dirty_regions.len()
            invariant
                0 <= i <= dirty_regions@.len(),
                buffer.wf(),
            decreases dirty_regions@.len() - i,
        {
            match self.render_region(backend, buffer, &dirty_regions[i]) {
                Ok(u) => {},
                Err(e) => {
                    return Err(e);
                },
            }
            i = i + 1;
        }
        backend.flush()
    }

    /// Draw one region: per row clipped to the buffer, move the cursor to
    /// the region's left edge and write that row's style-minimized escape
    /// bytes, exactly as `row_escape_bytes` specifies them.
    #[verifier::loop_isolation(false)]
    fn render_region<B: Backend>(
        &self,
        backend: &mut B,
        buffer: &Buffer,
        region: &DirtyRegion,
    ) -> (r: Result<(), Error>)
        requires
            buffer.wf(),
    {
        let rect = region.rect;
        let y_end = {
            let reach = (rect.y as u32) + (rect.height as u32);
            if reach < buffer.height as u32 {
                reach as u16
            } else {
                buffer.height
            }
        };
        let x_end = {
            let reach = (rect.x as u32) + (rect.width as u32);
            if reach < buffer.width as u32 {
                reach as u16
            } else {
                buffer.width
            }
        };
        if rect.y >= y_end {
            return Ok(());
        }
        let mut y = rect.y;
        while y < y_end
            invariant
                rect.y <= y <= y_end,
                y_end <= buffer.height,
                x_end <= buffer.width,
                buffer.wf(),
            decreases y_end - y,
        {
            match backend.cursor_goto(rect.x, y) {
                Ok(u) => {},
                Err(e) => {
                    return Err(e);
                },
            }
            let output: Vec<u8> = if rect.x < x_end {
                row_escape_bytes(buffer, y, rect.x, x_end)
            } else {
                Vec::new()
            };
            match backend.write(output.as_slice()) {
                Ok(u) => {},
                Err(e) => {
                    return Err(e);
                },
            }
            y = y + 1;
        }
        Ok(())
    }
}

impl Default for Renderer {
    fn default() -> (r: Renderer)
        ensures
            r.first_render,
    {
        Renderer::new()
    }
}

} // verus!
