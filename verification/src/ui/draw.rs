//! The plans that a renderer draws: texts, fills and widgets at their places,
//! in the colours of a palette.

use vstd::prelude::*;
use crate::text;
use crate::ui::geometry::Rect;

verus! {

/// A colour. What the number stands for is up to the renderer.
#[derive(Clone, Copy, Debug, PartialEq, Eq, Structural)]
pub struct Color(pub u32);

/// The colours of a theme.
#[derive(Clone, Copy, Debug, PartialEq, Eq, Structural)]
pub struct Palette {
    pub accent: Color,
    pub red: Color,
    pub yellow: Color,
    pub green: Color,
    pub mauve: Color,
    pub text: Color,
    pub subtext0: Color,
    pub overlay0: Color,
    pub overlay1: Color,
    pub surface0: Color,
    pub surface1: Color,
    pub surface_dim: Color,
    pub panel_bg: Color,
    /// The background of a row under the pointer.
    pub hover_bg: Color,
    /// A foreground that is readable on the accent colours.
    pub panel_contrast_fg: Color,
}

/// How a cell is drawn.
#[derive(Clone, Copy, Debug, PartialEq, Eq, Structural)]
pub struct Style {
    pub fg: Option<Color>,
    pub bg: Option<Color>,
    pub bold: bool,
    pub dim: bool,
}

/// Cells as they are.
pub open spec fn plain() -> Style {
    Style { fg: None, bg: None, bold: false, dim: false }
}

/// A foreground.
pub open spec fn fg(color: Color) -> Style {
    Style { fg: Some(color), bg: None, bold: false, dim: false }
}

/// A background.
pub open spec fn bg(color: Color) -> Style {
    Style { fg: None, bg: Some(color), bold: false, dim: false }
}

/// A foreground on a background.
pub open spec fn on(color: Color, back: Color) -> Style {
    Style { fg: Some(color), bg: Some(back), bold: false, dim: false }
}

impl Style {
    pub open spec fn bolder(self) -> Style {
        Style { bold: true, ..self }
    }

    pub open spec fn dimmer(self) -> Style {
        Style { dim: true, ..self }
    }

    /// Cells as they are.
    pub fn plain() -> (r: Self)
        ensures
            r == plain(),
    {
        Style { fg: None, bg: None, bold: false, dim: false }
    }

    /// A foreground.
    pub fn fg(color: Color) -> (r: Self)
        ensures
            r == fg(color),
    {
        Style { fg: Some(color), bg: None, bold: false, dim: false }
    }

    /// A background.
    pub fn bg(color: Color) -> (r: Self)
        ensures
            r == bg(color),
    {
        Style { fg: None, bg: Some(color), bold: false, dim: false }
    }

    /// A foreground on a background.
    pub fn on(color: Color, back: Color) -> (r: Self)
        ensures
            r == on(color, back),
    {
        Style { fg: Some(color), bg: Some(back), bold: false, dim: false }
    }

    /// The same in bold.
    pub fn bold(self) -> (r: Self)
        ensures
            r == self.bolder(),
    {
        Style { fg: self.fg, bg: self.bg, bold: true, dim: self.dim }
    }

    /// The same, dimmed.
    pub fn dim(self) -> (r: Self)
        ensures
            r == self.dimmer(),
    {
        Style { fg: self.fg, bg: self.bg, bold: self.bold, dim: true }
    }
}

/// A piece of text in one style. Where there is a limit, the renderer cuts the
/// text to so many cells.
#[derive(Debug, PartialEq, Eq)]
pub struct Span {
    pub text: String,
    pub limit: Option<usize>,
    pub style: Style,
}

/// What a `Span` holds.
#[verifier::ext_equal]
pub struct SpanView {
    pub text: Seq<char>,
    pub limit: Option<usize>,
    pub style: Style,
}

impl View for Span {
    type V = SpanView;

    open spec fn view(&self) -> SpanView {
        SpanView { text: self.text@, limit: self.limit, style: self.style }
    }
}

/// A piece of text in a style.
pub open spec fn span(s: Seq<char>, style: Style) -> SpanView {
    SpanView { text: s, limit: None, style }
}

/// A piece of text in a style, cut to a number of cells.
pub open spec fn cut_span(s: Seq<char>, limit: usize, style: Style) -> SpanView {
    SpanView { text: s, limit: Some(limit), style }
}

impl Span {
    /// A piece of text in a style.
    pub fn styled(s: &str, style: Style) -> (r: Self)
        ensures
            r@ == span(s@, style),
    {
        Span { text: s.to_string(), limit: None, style }
    }

    /// A piece of text in a style, cut to a number of cells.
    pub fn cut(s: &str, limit: usize, style: Style) -> (r: Self)
        ensures
            r@ == cut_span(s@, limit, style),
    {
        Span { text: s.to_string(), limit: Some(limit), style }
    }
}

/// Adds a piece of text to a line.
pub fn push_span(spans: &mut Vec<Span>, s: Span)
    ensures
        text::views(final(spans)@) == text::views(old(spans)@).push(s@),
{
    let ghost before = spans@;
    spans.push(s);
    proof {
        text::lemma_views_push(before, s);
        assert(spans@ =~= before.push(s));
    }
}

/// How far a list is scrolled.
#[derive(Clone, Copy, Debug, PartialEq, Eq, Structural)]
pub struct ScrollMetrics {
    pub offset_from_bottom: usize,
    pub max_offset_from_bottom: usize,
    pub viewport_rows: usize,
}

/// A button: the key that presses it, and what it says.
#[derive(Debug, PartialEq, Eq)]
pub struct ActionButton {
    pub hint: String,
    pub label: String,
}

impl View for ActionButton {
    type V = (Seq<char>, Seq<char>);

    open spec fn view(&self) -> (Seq<char>, Seq<char>) {
        (self.hint@, self.label@)
    }
}

/// A row of buttons in a dialog: the cells between two of them, and the line that
/// they are in, counted from the top of the dialog.
#[derive(Debug, PartialEq, Eq)]
pub struct ButtonRow {
    pub buttons: Vec<ActionButton>,
    pub gap: u16,
    pub row: u16,
}

/// What a `ButtonRow` holds.
pub struct ButtonRowView {
    pub buttons: Seq<(Seq<char>, Seq<char>)>,
    pub gap: u16,
    pub row: u16,
}

impl View for ButtonRow {
    type V = ButtonRowView;

    open spec fn view(&self) -> ButtonRowView {
        ButtonRowView { buttons: text::views(self.buttons@), gap: self.gap, row: self.row }
    }
}

/// One thing to draw.
#[derive(Debug, PartialEq, Eq)]
pub enum DrawOp {
    /// Sets the style of the cells and leaves their symbols.
    Tint { area: Rect, style: Style },
    /// Sets the symbol and the style of the cells.
    Fill { area: Rect, symbol: char, style: Style },
    /// Empties the cells.
    Clear { area: Rect },
    /// Draws a line of text over a style.
    Line { area: Rect, spans: Vec<Span>, style: Style, right: bool, wrap: bool },
    /// Draws a scrollbar.
    Scrollbar { area: Rect, metrics: ScrollMetrics, track: Color, thumb: Color },
    /// Draws the header of a dialog.
    Header { area: Rect, title: String },
    /// Draws a row of buttons in a dialog, each in its style.
    Buttons { inner: Rect, row: ButtonRow, styles: Vec<Style> },
    /// Dims what is drawn already.
    Dim { area: Rect },
    /// Draws the frame of a dialog.
    Modal { area: Rect },
    /// Draws the frame of a panel over its background.
    Panel { area: Rect, border: Color, background: Color },
}

/// The same, over texts.
pub enum OpView {
    Tint { area: Rect, style: Style },
    Fill { area: Rect, symbol: char, style: Style },
    Clear { area: Rect },
    Line { area: Rect, spans: Seq<SpanView>, style: Style, right: bool, wrap: bool },
    Scrollbar { area: Rect, metrics: ScrollMetrics, track: Color, thumb: Color },
    Header { area: Rect, title: Seq<char> },
    Buttons { inner: Rect, row: ButtonRowView, styles: Seq<Style> },
    Dim { area: Rect },
    Modal { area: Rect },
    Panel { area: Rect, border: Color, background: Color },
}

impl View for DrawOp {
    type V = OpView;

    open spec fn view(&self) -> OpView {
        match self {
            DrawOp::Tint { area, style } => OpView::Tint { area: *area, style: *style },
            DrawOp::Fill { area, symbol, style } => OpView::Fill {
                area: *area,
                symbol: *symbol,
                style: *style,
            },
            DrawOp::Clear { area } => OpView::Clear { area: *area },
            DrawOp::Line { area, spans, style, right, wrap } => OpView::Line {
                area: *area,
                spans: text::views(spans@),
                style: *style,
                right: *right,
                wrap: *wrap,
            },
            DrawOp::Scrollbar { area, metrics, track, thumb } => OpView::Scrollbar {
                area: *area,
                metrics: *metrics,
                track: *track,
                thumb: *thumb,
            },
            DrawOp::Header { area, title } => OpView::Header { area: *area, title: title@ },
            DrawOp::Buttons { inner, row, styles } => OpView::Buttons {
                inner: *inner,
                row: row@,
                styles: styles@,
            },
            DrawOp::Dim { area } => OpView::Dim { area: *area },
            DrawOp::Modal { area } => OpView::Modal { area: *area },
            DrawOp::Panel { area, border, background } => OpView::Panel {
                area: *area,
                border: *border,
                background: *background,
            },
        }
    }
}

/// A line of text.
pub open spec fn line(area: Rect, spans: Seq<SpanView>) -> OpView {
    OpView::Line { area, spans, style: plain(), right: false, wrap: false }
}

/// A line of one text in one style, which the rest of the line has too.
pub open spec fn line_of(area: Rect, s: Seq<char>, style: Style) -> OpView {
    OpView::Line { area, spans: seq![span(s, plain())], style, right: false, wrap: false }
}

/// A line of one text in one style, cut to a number of cells.
pub open spec fn cut_line(area: Rect, s: Seq<char>, limit: usize, style: Style) -> OpView {
    OpView::Line { area, spans: seq![cut_span(s, limit, plain())], style, right: false, wrap: false }
}

/// Adds one thing to a plan.
pub fn push_op(ops: &mut Vec<DrawOp>, op: DrawOp)
    ensures
        text::views(final(ops)@) == text::views(old(ops)@).push(op@),
{
    let ghost before = ops@;
    ops.push(op);
    proof {
        text::lemma_views_push(before, op);
        assert(ops@ =~= before.push(op));
    }
}

/// Adds a line of text to a plan.
pub fn push_line(ops: &mut Vec<DrawOp>, area: Rect, spans: Vec<Span>)
    ensures
        text::views(final(ops)@) == text::views(old(ops)@).push(line(area, text::views(spans@))),
{
    push_op(ops, DrawOp::Line { area, spans, style: Style::plain(), right: false, wrap: false });
}

/// Adds a line of one text in one style to a plan.
pub fn push_text_line(ops: &mut Vec<DrawOp>, area: Rect, s: &str, style: Style)
    ensures
        text::views(final(ops)@) == text::views(old(ops)@).push(line_of(area, s@, style)),
{
    let mut spans: Vec<Span> = Vec::new();
    assert(text::views(spans@) =~= seq![]);
    push_span(&mut spans, Span::styled(s, Style::plain()));
    assert(text::views(spans@) =~= seq![span(s@, plain())]);
    push_op(ops, DrawOp::Line { area, spans, style, right: false, wrap: false });
}

/// Adds a line of one text in one style, cut to a number of cells, to a plan.
pub fn push_cut_line(ops: &mut Vec<DrawOp>, area: Rect, s: &str, limit: usize, style: Style)
    ensures
        text::views(final(ops)@) == text::views(old(ops)@).push(cut_line(area, s@, limit, style)),
{
    let mut spans: Vec<Span> = Vec::new();
    assert(text::views(spans@) =~= seq![]);
    push_span(&mut spans, Span::cut(s, limit, Style::plain()));
    assert(text::views(spans@) =~= seq![cut_span(s@, limit, plain())]);
    push_op(ops, DrawOp::Line { area, spans, style, right: false, wrap: false });
}

/// Adds a line of one styled span to a plan.
pub fn push_span_line(ops: &mut Vec<DrawOp>, area: Rect, s: &str, style: Style)
    ensures
        text::views(final(ops)@) == text::views(old(ops)@).push(line(area, seq![span(s@, style)])),
{
    let mut spans: Vec<Span> = Vec::new();
    assert(text::views(spans@) =~= seq![]);
    push_span(&mut spans, Span::styled(s, style));
    assert(text::views(spans@) =~= seq![span(s@, style)]);
    push_line(ops, area, spans);
}

/// Adds the header of a dialog to a plan.
pub fn push_header(ops: &mut Vec<DrawOp>, area: Rect, title: &str)
    ensures
        text::views(final(ops)@) == text::views(old(ops)@).push(
            OpView::Header { area, title: title@ },
        ),
{
    push_op(ops, DrawOp::Header { area, title: title.to_string() });
}

/// A text of `n` equal characters.
pub open spec fn repeated(c: char, n: nat) -> Seq<char> {
    Seq::new(n, |i: int| c)
}

/// A text of `n` equal characters.
pub fn repeat(c: char, n: usize) -> (r: String)
    ensures
        r@ == repeated(c, n as nat),
{
    let mut r = String::new();
    let mut i: usize = 0;
    assert(r@ =~= repeated(c, 0));
    while i < n
        invariant
            i <= n,
            r@ == repeated(c, i as nat),
        decreases n - i,
    {
        r.push(c);
        i = i + 1;
        assert(repeated(c, i as nat) =~= repeated(c, (i - 1) as nat).push(c));
    }
    r
}

/// The number of characters that are missing to a width.
pub open spec fn missing(s: Seq<char>, width: nat) -> nat {
    if s.len() < width {
        (width - s.len()) as nat
    } else {
        0
    }
}

/// A text with blanks behind it, up to a number of characters.
pub open spec fn padded_right(s: Seq<char>, width: nat) -> Seq<char> {
    s + repeated(' ', missing(s, width))
}

/// A text with blanks before it, up to a number of characters.
pub open spec fn padded_left(s: Seq<char>, width: nat) -> Seq<char> {
    repeated(' ', missing(s, width)) + s
}

/// A text with blanks behind it, up to a number of characters.
pub fn pad_right(s: &str, width: usize) -> (r: String)
    ensures
        r@ == padded_right(s@, width as nat),
{
    let n: usize = text::to_chars(s).len();
    let blanks = repeat(
        ' ',
        if n < width {
            width - n
        } else {
            0
        },
    );
    text::join2(s, blanks.as_str())
}

/// A text with blanks before it, up to a number of characters.
pub fn pad_left(s: &str, width: usize) -> (r: String)
    ensures
        r@ == padded_left(s@, width as nat),
{
    let n: usize = text::to_chars(s).len();
    let blanks = repeat(
        ' ',
        if n < width {
            width - n
        } else {
            0
        },
    );
    text::join2(blanks.as_str(), s)
}

} // verus!
