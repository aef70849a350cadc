//! Formatted text: splits a text into lines under a wrap mode and a
//! size constraint, aligns the lines, and produces the glyph rectangles
//! the UI compositor consumes. The font is a plain metrics table
//! provided by the font loader.

use vstd::prelude::*;
use crate::brush::Brush;
use crate::fixed::Fx;
use crate::math::{Color, FxRect, FxVec2};

verus! {

/// Horizontal placement of lines inside the constraint box.
#[derive(Clone, Copy, Debug, PartialEq, Eq, Structural)]
pub enum HorizontalAlignment {
    Left,
    Center,
    Right,
    Stretch,
}

/// Vertical placement of the text block inside the constraint box.
#[derive(Clone, Copy, Debug, PartialEq, Eq, Structural)]
pub enum VerticalAlignment {
    Top,
    Center,
    Bottom,
    Stretch,
}

/// Wrapping mode for formatted text.
#[derive(Clone, Copy, Debug, PartialEq, Eq, Structural, Hash)]
pub enum WrapMode {
    /// No wrapping needed.
    NoWrap,
    /// Letter-based wrapping.
    Letter,
    /// Word-based wrapping.
    Word,
}

/// One glyph rectangle of the laid-out text.
#[derive(Clone, Copy, Debug, PartialEq, Eq)]
pub struct TextGlyph {
    pub bounds: FxRect,
    pub tex_coords: [FxVec2; 4],
}

impl TextGlyph {
    /// The glyph's rectangle.
    pub fn get_bounds(&self) -> (r: FxRect)
        ensures
            r == self.bounds,
    {
        self.bounds
    }

    /// The glyph's texture coordinates in the font atlas.
    pub fn get_tex_coords(&self) -> (r: &[FxVec2; 4])
        ensures
            r == &self.tex_coords,
    {
        &self.tex_coords
    }
}

/// One laid-out text line: its symbol range, extent and placement.
#[derive(Clone, Copy, Debug, PartialEq, Eq, Structural)]
pub struct TextLine {
    /// Index of the starting symbol in the text.
    pub begin: usize,
    /// Index one past the ending symbol.
    pub end: usize,
    /// Total width of the line.
    pub width: Fx,
    /// Total height of the line, usually the font's ascender.
    pub height: Fx,
    /// Local horizontal position.
    pub x_offset: Fx,
    /// Local vertical position.
    pub y_offset: Fx,
}

impl TextLine {
    /// An empty line at the origin.
    pub fn new() -> (r: TextLine)
        ensures
            r.begin == 0 && r.end == 0,
            r.width.raw == 0 && r.height.raw == 0,
            r.x_offset.raw == 0 && r.y_offset.raw == 0,
    {
        TextLine {
            begin: 0,
            end: 0,
            width: Fx::zero(),
            height: Fx::zero(),
            x_offset: Fx::zero(),
            y_offset: Fx::zero(),
        }
    }

    /// How many symbols the line spans.
    pub fn len(&self) -> (r: usize)
        requires
            self.begin <= self.end,
        ensures
            r == self.end - self.begin,
    {
        self.end - self.begin
    }

    /// Whether the line spans no symbols.
    pub fn is_empty(&self) -> (r: bool)
        ensures
            r == (self.end == self.begin),
    {
        self.end == self.begin
    }
}

/// The metrics of one font glyph.
#[derive(Clone, Copy, Debug, PartialEq, Eq)]
pub struct FontGlyph {
    pub code: u32,
    pub advance: Fx,
    pub left: Fx,
    pub top: Fx,
    pub bitmap_width: usize,
    pub bitmap_height: usize,
    pub tex_coords: [FxVec2; 4],
}

/// A font as the layout sees it: a glyph metrics table and the font's
/// vertical metrics.
#[derive(Clone, Debug, PartialEq)]
pub struct Font {
    pub glyphs: Vec<FontGlyph>,
    pub height: Fx,
    pub ascender: Fx,
    pub descender: Fx,
}

/// First index at or after `from` of a glyph for `code`, or the length.
pub open spec fn glyph_at(gs: Seq<FontGlyph>, code: u32, from: int) -> int
    decreases gs.len() - from,
{
    if from < 0 || from >= gs.len() {
        gs.len() as int
    } else if gs[from].code == code {
        from
    } else {
        glyph_at(gs, code, from + 1)
    }
}

impl Font {
    /// The glyph for a symbol, if the font has one.
    pub fn glyph(&self, code: u32) -> (r: Option<&FontGlyph>)
        ensures
            glyph_at(self.glyphs@, code, 0) < self.glyphs@.len() ==> r == Some(
                &self.glyphs@[glyph_at(self.glyphs@, code, 0)],
            ),
            glyph_at(self.glyphs@, code, 0) >= self.glyphs@.len() ==> r is None,
    {
        let mut i: usize = 0;
        while i < self.glyphs.len()
            invariant
                i <= self.glyphs@.len(),
                glyph_at(self.glyphs@, code, 0) == glyph_at(self.glyphs@, code, i as int),
            decreases self.glyphs@.len() - i,
        {
            if self.glyphs[i].code == code {
                return Some(&self.glyphs[i]);
            }
            i = i + 1;
        }
        None
    }

    /// The advance of a symbol: its glyph's advance, or the font height
    /// for symbols the font lacks.
    pub fn glyph_advance(&self, code: u32) -> (r: Fx)
        ensures
            r == glyph_advance_spec(*self, code),
    {
        match self.glyph(code) {
            Some(glyph) => glyph.advance,
            None => self.height,
        }
    }

    /// The font's ascender.
    pub fn ascender(&self) -> (r: Fx)
        ensures
            r == self.ascender,
    {
        self.ascender
    }

    /// The font's descender (a negative value).
    pub fn descender(&self) -> (r: Fx)
        ensures
            r == self.descender,
    {
        self.descender
    }

    /// The font's height.
    pub fn height(&self) -> (r: Fx)
        ensures
            r == self.height,
    {
        self.height
    }
}

/// What [`Font::glyph_advance`] yields.
pub open spec fn glyph_advance_spec(font: Font, code: u32) -> Fx {
    if glyph_at(font.glyphs@, code, 0) < font.glyphs@.len() {
        font.glyphs@[glyph_at(font.glyphs@, code, 0)].advance
    } else {
        font.height
    }
}

/// Text laid out into lines and glyph rectangles.
#[derive(Clone, Debug, PartialEq)]
pub struct FormattedText {
    pub font: Option<Font>,
    /// The text, one symbol per element.
    pub text: Vec<u32>,
    pub lines: Vec<TextLine>,
    pub glyphs: Vec<TextGlyph>,
    pub vertical_alignment: VerticalAlignment,
    pub horizontal_alignment: HorizontalAlignment,
    pub brush: Brush,
    pub constraint: FxVec2,
    pub wrap: WrapMode,
    pub mask_char: Option<u32>,
}

/// A word being accumulated during word wrapping.
#[derive(Clone, Copy, Debug, PartialEq, Eq, Structural)]
struct Word {
    width: Fx,
    length: usize,
}

/// Adds two symbol indexes without overflowing.
fn sat_add_index(a: usize, b: usize) -> (r: usize)
    ensures
        r as int == if a + b <= usize::MAX {
            a + b
        } else {
            usize::MAX as int
        },
{
    if b <= usize::MAX - a {
        a + b
    } else {
        usize::MAX
    }
}

impl FormattedText {
    /// The laid-out glyph rectangles.
    pub fn get_glyphs(&self) -> (r: &Vec<TextGlyph>)
        ensures
            r@ == self.glyphs@,
    {
        &self.glyphs
    }

    /// The font, if one is set.
    pub fn get_font(&self) -> (r: &Option<Font>)
        ensures
            r == &self.font,
    {
        &self.font
    }

    /// Sets the font.
    pub fn set_font(&mut self, font: Font)
        ensures
            *final(self) == (FormattedText { font: Some(font), ..*old(self) }),
    {
        self.font = Some(font);
    }

    /// The laid-out lines.
    pub fn get_lines(&self) -> (r: &Vec<TextLine>)
        ensures
            r@ == self.lines@,
    {
        &self.lines
    }

    /// Sets the vertical alignment.
    pub fn set_vertical_alignment(&mut self, vertical_alignment: VerticalAlignment)
        ensures
            *final(self) == (FormattedText { vertical_alignment, ..*old(self) }),
    {
        self.vertical_alignment = vertical_alignment;
    }

    /// The vertical alignment.
    pub fn vertical_alignment(&self) -> (r: VerticalAlignment)
        ensures
            r == self.vertical_alignment,
    {
        self.vertical_alignment
    }

    /// Sets the horizontal alignment.
    pub fn set_horizontal_alignment(&mut self, horizontal_alignment: HorizontalAlignment)
        ensures
            *final(self) == (FormattedText { horizontal_alignment, ..*old(self) }),
    {
        self.horizontal_alignment = horizontal_alignment;
    }

    /// The horizontal alignment.
    pub fn horizontal_alignment(&self) -> (r: HorizontalAlignment)
        ensures
            r == self.horizontal_alignment,
    {
        self.horizontal_alignment
    }

    /// Sets the brush.
    pub fn set_brush(&mut self, brush: Brush)
        ensures
            final(self).brush == brush,
            final(self).text@ == old(self).text@,
            final(self).lines@ == old(self).lines@,
    {
        self.brush = brush;
    }

    /// The brush.
    pub fn brush(&self) -> (r: &Brush)
        ensures
            r == &self.brush,
    {
        &self.brush
    }

    /// Sets the layout constraint box.
    pub fn set_constraint(&mut self, constraint: FxVec2)
        ensures
            *final(self) == (FormattedText { constraint, ..*old(self) }),
    {
        self.constraint = constraint;
    }

    /// The raw symbol array.
    pub fn get_raw_text(&self) -> (r: &Vec<u32>)
        ensures
            r@ == self.text@,
    {
        &self.text
    }

    /// Replaces the whole text.
    pub fn set_text(&mut self, text: Vec<u32>)
        ensures
            final(self).text@ == text@,
            final(self).font == old(self).font,
            final(self).wrap == old(self).wrap,
    {
        self.text = text;
    }

    /// Sets the wrap mode.
    pub fn set_wrap(&mut self, wrap: WrapMode)
        ensures
            *final(self) == (FormattedText { wrap, ..*old(self) }),
    {
        self.wrap = wrap;
    }

    /// The wrap mode.
    pub fn wrap_mode(&self) -> (r: WrapMode)
        ensures
            r == self.wrap,
    {
        self.wrap
    }

    /// Inserts one symbol at an index.
    pub fn insert_char(&mut self, code: u32, index: usize)
        requires
            index <= old(self).text@.len(),
            old(self).text@.len() < usize::MAX,
        ensures
            final(self).text@ == old(self).text@.insert(index as int, code),
            final(self).font == old(self).font,
    {
        self.text.insert(index, code);
    }

    /// Inserts symbols at a position, in order.
    pub fn insert_str(&mut self, codes: &Vec<u32>, position: usize)
        requires
            position <= old(self).text@.len(),
            old(self).text@.len() + codes@.len() < usize::MAX,
        ensures
            final(self).text@ == old(self).text@.subrange(0, position as int) + codes@ + old(
                self,
            ).text@.subrange(position as int, old(self).text@.len() as int),
            final(self).font == old(self).font,
    {
        let mut i: usize = 0;
        while i < codes.len()
            invariant
                i <= codes@.len(),
                position + i <= self.text@.len(),
                old(self).text@.len() + codes@.len() < usize::MAX,
                self.text@.len() == old(self).text@.len() + i,
                self.text@ == old(self).text@.subrange(0, position as int) + codes@.subrange(
                    0,
                    i as int,
                ) + old(self).text@.subrange(position as int, old(self).text@.len() as int),
                self.font == old(self).font,
                self.lines == old(self).lines,
                self.glyphs == old(self).glyphs,
                self.vertical_alignment == old(self).vertical_alignment,
                self.horizontal_alignment == old(self).horizontal_alignment,
                self.brush == old(self).brush,
                self.constraint == old(self).constraint,
                self.wrap == old(self).wrap,
                self.mask_char == old(self).mask_char,
            decreases codes@.len() - i,
        {
            self.text.insert(position + i, codes[i]);
            i = i + 1;
            proof {
                assert(self.text@ =~= old(self).text@.subrange(0, position as int)
                    + codes@.subrange(0, i as int) + old(self).text@.subrange(
                    position as int,
                    old(self).text@.len() as int,
                ));
            }
        }
        proof {
            assert(codes@.subrange(0, codes@.len() as int) =~= codes@);
            assert(self.text@ =~= old(self).text@.subrange(0, position as int) + codes@ + old(
                self,
            ).text@.subrange(position as int, old(self).text@.len() as int));
        }
    }

    /// The summed advance of the symbol range `[from, to)`, zero without
    /// a font.
    pub fn get_range_width(&self, from: usize, to: usize) -> (r: Fx)
        requires
            from <= to <= self.text@.len(),
        ensures
            self.font matches Some(font) ==> r.raw == range_width_spec(
                font,
                self.text@,
                from as int,
                to as int,
            ),
            self.font is None ==> r.raw == 0,
    {
        let font = match &self.font {
            Some(font) => font,
            None => {
                return Fx::zero();
            },
        };
        let mut width = Fx::zero();
        let mut i: usize = from;
        while i < to
            invariant
                from <= i <= to <= self.text@.len(),
                self.font matches Some(f) && f == font,
                width.raw == range_width_spec(*font, self.text@, from as int, i as int),
            decreases to - i,
        {
            width = width.add(font.glyph_advance(self.text[i]));
            i = i + 1;
        }
        width
    }

    /// Removes the symbol range `[from, to)`.
    pub fn remove_range(&mut self, from: usize, to: usize)
        requires
            from <= to <= old(self).text@.len(),
        ensures
            final(self).text@ == old(self).text@.subrange(0, from as int) + old(
                self,
            ).text@.subrange(to as int, old(self).text@.len() as int),
            final(self).font == old(self).font,
    {
        let mut k: usize = to;
        while k > from
            invariant
                from <= k <= old(self).text@.len(),
                self.text@ == old(self).text@.subrange(0, k as int) + old(self).text@.subrange(
                    to as int,
                    old(self).text@.len() as int,
                ),
                self.font == old(self).font,
                self.lines == old(self).lines,
                self.glyphs == old(self).glyphs,
                self.vertical_alignment == old(self).vertical_alignment,
                self.horizontal_alignment == old(self).horizontal_alignment,
                self.brush == old(self).brush,
                self.constraint == old(self).constraint,
                self.wrap == old(self).wrap,
                self.mask_char == old(self).mask_char,
            decreases k,
        {
            k = k - 1;
            self.text.remove(k);
            proof {
                assert(self.text@ =~= old(self).text@.subrange(0, k as int) + old(
                    self,
                ).text@.subrange(to as int, old(self).text@.len() as int));
            }
        }
        proof {
            assert(self.text@ =~= old(self).text@.subrange(0, from as int) + old(
                self,
            ).text@.subrange(to as int, old(self).text@.len() as int));
        }
    }

    /// Removes the symbol at an index.
    pub fn remove_at(&mut self, index: usize)
        requires
            index < old(self).text@.len(),
        ensures
            final(self).text@ == old(self).text@.remove(index as int),
            final(self).font == old(self).font,
    {
        self.text.remove(index);
    }

    /// Lays the text out: splits it on lines under the wrap mode and
    /// constraint, aligns the lines, and generates one glyph rectangle
    /// per laid-out symbol. Returns the text block's size. Without a
    /// font nothing is laid out and the size is zero. Every produced
    /// line spans an ordered symbol range, and under left or stretch
    /// alignment no line is offset horizontally.
    pub fn build(&mut self) -> (r: FxVec2)
        requires
            old(self).text@.len() < 0x1000_0000,
        ensures
            old(self).font is None ==> r.x.raw == 0 && r.y.raw == 0 && *final(self) == *old(
                self,
            ),
            final(self).text@ == old(self).text@,
            final(self).font == old(self).font,
            final(self).wrap == old(self).wrap,
            final(self).horizontal_alignment == old(self).horizontal_alignment,
            final(self).vertical_alignment == old(self).vertical_alignment,
            final(self).brush == old(self).brush,
            final(self).constraint == old(self).constraint,
            final(self).mask_char == old(self).mask_char,
            old(self).font is Some ==> forall|k: int|
                0 <= k < final(self).lines@.len() ==> (#[trigger] final(self).lines@[k]).begin
                    <= final(self).lines@[k].end,
            (old(self).font is Some && (old(self).horizontal_alignment is Left || old(
                self,
            ).horizontal_alignment is Stretch)) ==> forall|k: int|
                0 <= k < final(self).lines@.len()
                    ==> (#[trigger] final(self).lines@[k]).x_offset.raw == 0,
    {
        let font = match &self.font {
            Some(font) => font,
            None => {
                return FxVec2::zero();
            },
        };

        // Mask every symbol when a mask symbol is set (password fields).
        let mut text: Vec<u32> = Vec::new();
        let mut k: usize = 0;
        while k < self.text.len()
            invariant
                k <= self.text@.len(),
                text@.len() == k,
        decreases self.text@.len() - k,
        {
            match self.mask_char {
                Some(mask) => {
                    text.push(mask);
                },
                None => {
                    text.push(self.text[k]);
                },
            }
            k = k + 1;
        }
        let text_len = text.len();

        // Split on lines.
        let mut total_height = Fx::zero();
        let mut current_line = TextLine::new();
        let mut word: Option<Word> = None;
        let mut lines: Vec<TextLine> = Vec::new();
        let mut i: usize = 0;
        while i < text_len
            invariant
                i <= text_len,
                text_len == text@.len(),
                text_len < 0x1000_0000,
                current_line.begin <= current_line.end,
                lines_wf_partial(lines@),
            decreases text_len - i,
        {
            let code = text[i];
            let advance = font.glyph_advance(code);
            let is_new_line = code == 10 || code == 13;
            let new_width = current_line.width.add(advance);
            let is_white_space = code == 32 || code == 9 || code == 10 || code == 13;
            let word_ended = (word.is_some() && is_white_space) || i == text_len - 1;

            if matches!(self.wrap, WrapMode::Word) && !is_white_space {
                word = match word {
                    Some(w) => Some(
                        Word {
                            width: w.width.add(advance),
                            length: sat_add_index(w.length, 1),
                        },
                    ),
                    None => Some(Word { width: advance, length: 1 }),
                };
            }

            if is_new_line {
                // Commit the pending word and the line, then restart
                // after the line break.
                match word {
                    Some(w) => {
                        current_line.width = current_line.width.add(w.width);
                        current_line.end = sat_add_index(current_line.end, w.length);
                        word = None;
                    },
                    None => {},
                }
                lines.push(current_line);
                current_line.begin = sat_add_index(i, 1);
                current_line.end = current_line.begin;
                current_line.width = advance;
                total_height = total_height.add(font.ascender);
            } else {
                match self.wrap {
                    WrapMode::NoWrap => {
                        current_line.width = new_width;
                        current_line.end = sat_add_index(current_line.end, 1);
                    },
                    WrapMode::Letter => {
                        if new_width.raw > self.constraint.x.raw {
                            lines.push(current_line);
                            current_line.begin = i;
                            current_line.end = sat_add_index(current_line.begin, 1);
                            current_line.width = advance;
                            total_height = total_height.add(font.ascender);
                        } else {
                            current_line.width = new_width;
                            current_line.end = sat_add_index(current_line.end, 1);
                        }
                    },
                    WrapMode::Word => {
                        if word_ended {
                            match word {
                                Some(w) => {
                                    if w.width.raw > self.constraint.x.raw {
                                        // The word alone exceeds the
                                        // constraint: push it whole.
                                        current_line.width = current_line.width.add(w.width);
                                        current_line.end = sat_add_index(
                                            current_line.end,
                                            w.length,
                                        );
                                        lines.push(current_line);
                                        current_line.begin = current_line.end;
                                        current_line.width = Fx::zero();
                                        total_height = total_height.add(font.ascender);
                                    } else if current_line.width.add(w.width).raw
                                        > self.constraint.x.raw {
                                        // Commit the line and move the
                                        // word onto the next one.
                                        lines.push(current_line);
                                        current_line.begin = if w.length <= i {
                                            i - w.length
                                        } else {
                                            0
                                        };
                                        current_line.end = i;
                                        if current_line.end < current_line.begin {
                                            current_line.end = current_line.begin;
                                        }
                                        current_line.width = w.width;
                                        total_height = total_height.add(font.ascender);
                                    } else {
                                        // The word fits: append it.
                                        current_line.width = current_line.width.add(w.width);
                                        current_line.end = sat_add_index(
                                            current_line.end,
                                            w.length,
                                        );
                                    }
                                    word = None;
                                },
                                None => {},
                            }
                        }
                        // White space passes through outside of words.
                        if is_white_space {
                            current_line.end = sat_add_index(current_line.end, 1);
                            current_line.width = current_line.width.add(advance);
                        }
                    },
                }
            }
            i = i + 1;
        }
        // Commit the rest of the text.
        if current_line.begin != current_line.end {
            let mut k: usize = if current_line.end <= text_len {
                current_line.end
            } else {
                text_len
            };
            while k < text_len
                invariant
                    k <= text_len,
                    text_len == text@.len(),
                decreases text_len - k,
            {
                let advance = font.glyph_advance(text[k]);
                current_line.width = current_line.width.add(advance);
                k = k + 1;
            }
            if current_line.begin <= text_len {
                current_line.end = text_len;
            } else {
                current_line.end = current_line.begin;
            }
            lines.push(current_line);
            total_height = total_height.add(font.ascender);
        }

        // Align lines horizontally inside the constraint.
        let mut li: usize = 0;
        while li < lines.len()
            invariant
                li <= lines@.len(),
                lines_wf_partial(lines@),
                forall|k: int|
                    0 <= k < li ==> (self.horizontal_alignment is Left
                        || self.horizontal_alignment is Stretch) ==> (#[trigger] lines@[k]).x_offset.raw
                        == 0,
            decreases lines@.len() - li,
        {
            let line = lines[li];
            let x_offset = match self.horizontal_alignment {
                HorizontalAlignment::Left => Fx::zero(),
                HorizontalAlignment::Center => {
                    let slack = self.constraint.x.sub(line.width);
                    let half = slack.div(Fx::from_raw(131072));
                    if half.raw > 0 {
                        half
                    } else {
                        Fx::zero()
                    }
                },
                HorizontalAlignment::Right => {
                    let slack = self.constraint.x.sub(line.width);
                    if slack.raw > 0 {
                        slack
                    } else {
                        Fx::zero()
                    }
                },
                HorizontalAlignment::Stretch => Fx::zero(),
            };
            let updated = TextLine { x_offset, ..line };
            lines.remove(li);
            lines.insert(li, updated);
            li = li + 1;
            proof {
                assert(lines@[li as int - 1] == updated);
            }
        }

        // Generate glyph rectangles line by line.
        let mut glyphs: Vec<TextGlyph> = Vec::new();
        let cursor_y_start = match self.vertical_alignment {
            VerticalAlignment::Top => Fx::zero(),
            VerticalAlignment::Center => {
                let slack = self.constraint.y.sub(total_height);
                let half = slack.div(Fx::from_raw(131072));
                if half.raw > 0 {
                    half
                } else {
                    Fx::zero()
                }
            },
            VerticalAlignment::Bottom => {
                let slack = self.constraint.y.sub(total_height);
                if slack.raw > 0 {
                    slack
                } else {
                    Fx::zero()
                }
            },
            VerticalAlignment::Stretch => Fx::zero(),
        };
        let mut cursor_y = cursor_y_start;
        let mut li: usize = 0;
        while li < lines.len()
            invariant
                li <= lines@.len(),
                text_len == text@.len(),
                lines_wf_partial(lines@),
                forall|k: int|
                    0 <= k < lines@.len() ==> (self.horizontal_alignment is Left
                        || self.horizontal_alignment is Stretch) ==> (#[trigger] lines@[k]).x_offset.raw
                        == 0,
            decreases lines@.len() - li,
        {
            let line = lines[li];
            let mut cursor_x = line.x_offset;
            let line_end = if line.end <= text_len {
                line.end
            } else {
                text_len
            };
            let mut c: usize = if line.begin <= line_end {
                line.begin
            } else {
                line_end
            };
            while c < line_end
                invariant
                    c <= line_end,
                    line_end <= text_len,
                    text_len == text@.len(),
                decreases line_end - c,
            {
                let code = text[c];
                match font.glyph(code) {
                    Some(glyph) => {
                        let x = cursor_x.add(glyph.left);
                        let y = cursor_y.add(font.ascender).sub(glyph.top).sub(
                            Fx::from_int(glyph.bitmap_height as i64),
                        );
                        let rect = FxRect {
                            position: FxVec2 { x, y },
                            size: FxVec2 {
                                x: Fx::from_int(glyph.bitmap_width as i64),
                                y: Fx::from_int(glyph.bitmap_height as i64),
                            },
                        };
                        glyphs.push(TextGlyph { bounds: rect, tex_coords: glyph.tex_coords });
                        cursor_x = cursor_x.add(glyph.advance);
                    },
                    None => {
                        // A symbol the font lacks gets a placeholder
                        // square of the font's height.
                        let rect = FxRect {
                            position: FxVec2 { x: cursor_x, y: cursor_y.add(font.ascender) },
                            size: FxVec2 { x: font.height, y: font.height },
                        };
                        glyphs.push(
                            TextGlyph {
                                bounds: rect,
                                tex_coords: [
                                    FxVec2::zero(),
                                    FxVec2::zero(),
                                    FxVec2::zero(),
                                    FxVec2::zero(),
                                ],
                            },
                        );
                        cursor_x = cursor_x.add(font.height);
                    },
                }
                c = c + 1;
            }
            let updated = TextLine { height: font.ascender, y_offset: cursor_y, ..line };
            lines.remove(li);
            lines.insert(li, updated);
            cursor_y = cursor_y.add(font.ascender);
            li = li + 1;
            proof {
                assert(lines@[li as int - 1] == updated);
            }
        }

        // The block size: the widest line by the total height minus the
        // (negative) descender.
        let mut full_width = Fx::zero();
        let mut li: usize = 0;
        while li < lines.len()
            invariant
                li <= lines@.len(),
            decreases lines@.len() - li,
        {
            if lines[li].width.raw > full_width.raw {
                full_width = lines[li].width;
            }
            li = li + 1;
        }
        let full_height = total_height.sub(font.descender);
        self.lines = lines;
        self.glyphs = glyphs;
        FxVec2 { x: full_width, y: full_height }
    }
}

/// The summed advance of a symbol range, folded by saturating addition
/// from the left.
pub open spec fn range_width_spec(font: Font, text: Seq<u32>, from: int, to: int) -> int
    decreases to - from,
{
    if from >= to {
        0
    } else {
        crate::fixed::fx_sat(
            range_width_spec(font, text, from, to - 1) + glyph_advance_spec(
                font,
                text[to - 1],
            ).raw,
        )
    }
}

/// Every committed line has an ordered symbol range.
pub open spec fn lines_wf_partial(lines: Seq<TextLine>) -> bool {
    forall|k: int| 0 <= k < lines.len() ==> (#[trigger] lines[k]).begin <= lines[k].end
}

/// Builds formatted text in a declarative manner.
pub struct FormattedTextBuilder {
    pub font: Option<Font>,
    pub brush: Brush,
    pub constraint: FxVec2,
    pub text: Vec<u32>,
    pub vertical_alignment: VerticalAlignment,
    pub horizontal_alignment: HorizontalAlignment,
    pub wrap: WrapMode,
    pub mask_char: Option<u32>,
}

impl FormattedTextBuilder {
    /// A builder with the default parameters: no font, white solid
    /// brush, a 128 by 128 constraint, no wrapping.
    pub fn new() -> (r: FormattedTextBuilder)
        ensures
            r.font is None,
            r.text@.len() == 0,
            r.horizontal_alignment == HorizontalAlignment::Left,
            r.vertical_alignment == VerticalAlignment::Top,
            r.wrap == WrapMode::NoWrap,
            r.mask_char is None,
            r.brush == Brush::Solid(Color { r: 255, g: 255, b: 255, a: 255 }),
            r.constraint.x.raw == 128 * crate::fixed::FX_ONE,
            r.constraint.y.raw == 128 * crate::fixed::FX_ONE,
    {
        FormattedTextBuilder {
            font: None,
            text: Vec::new(),
            horizontal_alignment: HorizontalAlignment::Left,
            vertical_alignment: VerticalAlignment::Top,
            brush: Brush::Solid(Color::white()),
            constraint: FxVec2 { x: Fx::from_raw(8388608), y: Fx::from_raw(8388608) },
            wrap: WrapMode::NoWrap,
            mask_char: None,
        }
    }

    /// Sets the font.
    pub fn with_font(self, font: Font) -> (r: FormattedTextBuilder)
        ensures
            r == (FormattedTextBuilder { font: Some(font), ..self }),
    {
        FormattedTextBuilder { font: Some(font), ..self }
    }

    /// Sets the vertical alignment.
    pub fn with_vertical_alignment(self, vertical_alignment: VerticalAlignment) -> (r:
        FormattedTextBuilder)
        ensures
            r == (FormattedTextBuilder { vertical_alignment, ..self }),
    {
        FormattedTextBuilder { vertical_alignment, ..self }
    }

    /// Sets the wrap mode.
    pub fn with_wrap(self, wrap: WrapMode) -> (r: FormattedTextBuilder)
        ensures
            r == (FormattedTextBuilder { wrap, ..self }),
    {
        FormattedTextBuilder { wrap, ..self }
    }

    /// Sets the horizontal alignment.
    pub fn with_horizontal_alignment(self, horizontal_alignment: HorizontalAlignment) -> (r:
        FormattedTextBuilder)
        ensures
            r == (FormattedTextBuilder { horizontal_alignment, ..self }),
    {
        FormattedTextBuilder { horizontal_alignment, ..self }
    }

    /// Sets the text, one symbol per element.
    pub fn with_text(self, text: Vec<u32>) -> (r: FormattedTextBuilder)
        ensures
            r.text@ == text@,
            r.font == self.font,
            r.wrap == self.wrap,
    {
        FormattedTextBuilder { text, ..self }
    }

    /// Sets the constraint box.
    pub fn with_constraint(self, constraint: FxVec2) -> (r: FormattedTextBuilder)
        ensures
            r == (FormattedTextBuilder { constraint, ..self }),
    {
        FormattedTextBuilder { constraint, ..self }
    }

    /// Sets the brush.
    pub fn with_brush(self, brush: Brush) -> (r: FormattedTextBuilder)
        ensures
            r.brush == brush,
            r.text@ == self.text@,
            r.font == self.font,
    {
        FormattedTextBuilder { brush, ..self }
    }

    /// Sets the mask symbol (password fields).
    pub fn with_mask_char(self, mask_char: Option<u32>) -> (r: FormattedTextBuilder)
        ensures
            r == (FormattedTextBuilder { mask_char, ..self }),
    {
        FormattedTextBuilder { mask_char, ..self }
    }

    /// Builds the formatted text, not yet laid out.
    pub fn build(self) -> (r: FormattedText)
        ensures
            r.font == self.font,
            r.text@ == self.text@,
            r.lines@.len() == 0,
            r.glyphs@.len() == 0,
            r.vertical_alignment == self.vertical_alignment,
            r.horizontal_alignment == self.horizontal_alignment,
            r.brush == self.brush,
            r.constraint == self.constraint,
            r.wrap == self.wrap,
            r.mask_char == self.mask_char,
    {
        FormattedText {
            font: self.font,
            text: self.text,
            lines: Vec::new(),
            glyphs: Vec::new(),
            vertical_alignment: self.vertical_alignment,
            horizontal_alignment: self.horizontal_alignment,
            brush: self.brush,
            constraint: self.constraint,
            wrap: self.wrap,
            mask_char: self.mask_char,
        }
    }
}

} // verus!
