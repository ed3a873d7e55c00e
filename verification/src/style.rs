//! Paper sizes, alignment and the style record of one text operation.

use vstd::prelude::*;

verus! {

/// Physical paper size of the printer.
#[derive(Debug, Clone, Copy, PartialEq, Eq, Structural)]
pub enum PaperWidth {
    Mm58,
    Mm80,
}

impl PaperWidth {
    /// Width of the printable area in dots.
    pub open spec fn spec_dots(self) -> int {
        match self {
            PaperWidth::Mm58 => 384,
            PaperWidth::Mm80 => 576,
        }
    }

    /// Narrow (single-cell) characters per line.
    pub open spec fn spec_chars(self) -> int {
        match self {
            PaperWidth::Mm58 => 32,
            PaperWidth::Mm80 => 48,
        }
    }

    /// Wide (double-cell) characters per line.
    pub open spec fn spec_chars_jp(self) -> int {
        match self {
            PaperWidth::Mm58 => 16,
            PaperWidth::Mm80 => 24,
        }
    }

    pub fn dots(&self) -> (d: u16)
        ensures
            d == self.spec_dots(),
    {
        match self {
            PaperWidth::Mm58 => 384,
            PaperWidth::Mm80 => 576,
        }
    }

    pub fn chars(&self) -> (n: usize)
        ensures
            n == self.spec_chars(),
    {
        match self {
            PaperWidth::Mm58 => 32,
            PaperWidth::Mm80 => 48,
        }
    }

    pub fn chars_jp(&self) -> (n: usize)
        ensures
            n == self.spec_chars_jp(),
    {
        match self {
            PaperWidth::Mm58 => 16,
            PaperWidth::Mm80 => 24,
        }
    }
}

impl Default for PaperWidth {
    fn default() -> (w: Self)
        ensures
            w == PaperWidth::Mm58,
    {
        PaperWidth::Mm58
    }
}

/// Horizontal alignment of a line.
#[derive(Debug, Clone, Copy, PartialEq, Eq, Structural)]
pub enum Align {
    Left,
    Center,
    Right,
}

/// Style of one text operation. A fresh value is built per call; the
/// builder methods return the changed copy.
#[derive(Debug, Clone, Copy)]
pub struct TextStyle {
    pub bold: bool,
    pub underline: bool,
    pub double_width: bool,
    pub double_height: bool,
    pub reverse: bool,
    pub align: Align,
}

impl Default for TextStyle {
    fn default() -> (s: Self)
        ensures
            s == TextStyle::plain(),
    {
        TextStyle {
            bold: false,
            underline: false,
            double_width: false,
            double_height: false,
            reverse: false,
            align: Align::Left,
        }
    }
}

impl TextStyle {
    /// The default style: nothing switched on, aligned left.
    pub open spec fn plain() -> TextStyle {
        TextStyle {
            bold: false,
            underline: false,
            double_width: false,
            double_height: false,
            reverse: false,
            align: Align::Left,
        }
    }

    pub fn bold(self) -> (s: Self)
        ensures
            s == (TextStyle { bold: true, ..self }),
    {
        let mut s = self;
        s.bold = true;
        s
    }

    pub fn underline(self) -> (s: Self)
        ensures
            s == (TextStyle { underline: true, ..self }),
    {
        let mut s = self;
        s.underline = true;
        s
    }

    pub fn double_width(self) -> (s: Self)
        ensures
            s == (TextStyle { double_width: true, ..self }),
    {
        let mut s = self;
        s.double_width = true;
        s
    }

    pub fn double_height(self) -> (s: Self)
        ensures
            s == (TextStyle { double_height: true, ..self }),
    {
        let mut s = self;
        s.double_height = true;
        s
    }

    pub fn align(self, align: Align) -> (s: Self)
        ensures
            s == (TextStyle { align: align, ..self }),
    {
        let mut s = self;
        s.align = align;
        s
    }

    pub fn center(self) -> (s: Self)
        ensures
            s == (TextStyle { align: Align::Center, ..self }),
    {
        self.align(Align::Center)
    }

    pub fn right(self) -> (s: Self)
        ensures
            s == (TextStyle { align: Align::Right, ..self }),
    {
        self.align(Align::Right)
    }

    pub fn reverse(self) -> (s: Self)
        ensures
            s == (TextStyle { reverse: true, ..self }),
    {
        let mut s = self;
        s.reverse = true;
        s
    }

    pub fn double(self) -> (s: Self)
        ensures
            s == (TextStyle { double_width: true, double_height: true, ..self }),
    {
        self.double_width().double_height()
    }
}

} // verus!
