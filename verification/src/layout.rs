//! What a screen is made of: rectangles, styled lines of text, and the list
//! of widgets that a frame has been asked to draw.
//!
//! The renderer writes its output as values of these types. Nothing here
//! touches a terminal: a frame only records what was drawn where, in order,
//! and whoever owns the terminal replays the record.

use vstd::prelude::*;
use vstd::string::*;

verus! {

/// A rectangle of terminal cells: the column and the row of its top left
/// corner, and its size.
#[derive(Debug, Clone, Copy, PartialEq, Eq, Structural)]
pub struct Rect {
    pub x: u16,
    pub y: u16,
    pub width: u16,
    pub height: u16,
}

#[derive(Debug, Clone, Copy, PartialEq, Eq, Structural)]
pub enum Color {
    Blue,
    Green,
    Cyan,
    Yellow,
    Red,
    Magenta,
}

/// How text is drawn: in a colour or in the terminal's own, bold or not.
#[derive(Debug, Clone, Copy, PartialEq, Eq)]
pub struct Style {
    pub fg: Option<Color>,
    pub bold: bool,
}

#[derive(Debug, Clone, Copy, PartialEq, Eq, Structural)]
pub enum Alignment {
    Left,
    Center,
    Right,
}

impl Style {
    /// The terminal's own colour, not bold.
    pub open spec fn plain() -> Style {
        Style { fg: None, bold: false }
    }

    /// The given colour, not bold.
    pub open spec fn colored(color: Color) -> Style {
        Style { fg: Some(color), bold: false }
    }

    /// The given colour, bold.
    pub open spec fn strong(color: Color) -> Style {
        Style { fg: Some(color), bold: true }
    }

    /// The terminal's own colour, not bold.
    pub fn new() -> (style: Style)
        ensures
            style == Style::plain(),
    {
        Style { fg: None, bold: false }
    }

    /// This style in the given colour.
    pub fn fg(self, color: Color) -> (style: Style)
        ensures
            style == (Style { fg: Some(color), bold: self.bold }),
    {
        Style { fg: Some(color), bold: self.bold }
    }

    /// This style in bold.
    pub fn bold(self) -> (style: Style)
        ensures
            style == (Style { fg: self.fg, bold: true }),
    {
        Style { fg: self.fg, bold: true }
    }
}

/// One line of text in one style. A line without an alignment of its own
/// takes that of its paragraph.
#[derive(Debug, Clone, PartialEq, Eq)]
pub struct Line {
    pub content: String,
    pub style: Style,
    pub alignment: Option<Alignment>,
}

/// A line as contracts see it: its text as a sequence of characters.
pub struct LineView {
    pub content: Seq<char>,
    pub style: Style,
    pub alignment: Option<Alignment>,
}

impl View for Line {
    type V = LineView;

    open spec fn view(&self) -> LineView {
        LineView { content: self.content@, style: self.style, alignment: self.alignment }
    }
}

/// An empty line.
pub open spec fn blank() -> LineView {
    LineView { content: Seq::empty(), style: Style::plain(), alignment: None }
}

/// A line of plain text.
pub open spec fn plain(content: Seq<char>) -> LineView {
    LineView { content, style: Style::plain(), alignment: None }
}

/// A line of styled text in the middle of its row.
pub open spec fn centered(content: Seq<char>, style: Style) -> LineView {
    LineView { content, style, alignment: Some(Alignment::Center) }
}

impl Line {
    /// An empty line.
    pub fn blank() -> (line: Line)
        ensures
            line@ == blank(),
    {
        Line { content: String::new(), style: Style::new(), alignment: None }
    }

    /// A line of plain text.
    pub fn raw(content: &str) -> (line: Line)
        ensures
            line@ == plain(content@),
    {
        Line { content: String::from_str(content), style: Style::new(), alignment: None }
    }

    /// A line of styled text, with the alignment of its paragraph.
    pub fn styled(content: String, style: Style) -> (line: Line)
        ensures
            line@ == (LineView { content: content@, style, alignment: None }),
    {
        Line { content, style, alignment: None }
    }

    /// This line in the middle of its row.
    pub fn centered(self) -> (line: Line)
        ensures
            line@ == (LineView { alignment: Some(Alignment::Center), ..self@ }),
    {
        Line { content: self.content, style: self.style, alignment: Some(Alignment::Center) }
    }
}

/// The views of the lines of a text.
pub open spec fn line_views(lines: Seq<Line>) -> Seq<LineView> {
    Seq::new(lines.len(), |i: int| lines[i]@)
}

/// Lines of text with a style and an alignment for those lines that have
/// none of their own.
#[derive(Debug, Clone, PartialEq, Eq)]
pub struct Paragraph {
    pub lines: Vec<Line>,
    pub style: Style,
    pub alignment: Alignment,
}

/// A paragraph as contracts see it.
pub struct ParagraphView {
    pub lines: Seq<LineView>,
    pub style: Style,
    pub alignment: Alignment,
}

impl View for Paragraph {
    type V = ParagraphView;

    open spec fn view(&self) -> ParagraphView {
        ParagraphView {
            lines: line_views(self.lines@),
            style: self.style,
            alignment: self.alignment,
        }
    }
}

impl Paragraph {
    /// The given lines in plain style, from the left.
    pub fn new(lines: Vec<Line>) -> (paragraph: Paragraph)
        ensures
            paragraph@ == (ParagraphView {
                lines: line_views(lines@),
                style: Style::plain(),
                alignment: Alignment::Left,
            }),
    {
        Paragraph { lines, style: Style::new(), alignment: Alignment::Left }
    }

    /// This paragraph in the given style.
    pub fn style(self, style: Style) -> (paragraph: Paragraph)
        ensures
            paragraph@ == (ParagraphView { style, ..self@ }),
    {
        Paragraph { lines: self.lines, style, alignment: self.alignment }
    }

    /// This paragraph with the given alignment.
    pub fn alignment(self, alignment: Alignment) -> (paragraph: Paragraph)
        ensures
            paragraph@ == (ParagraphView { alignment, ..self@ }),
    {
        Paragraph { lines: self.lines, style: self.style, alignment }
    }
}

/// Something to draw into a rectangle.
#[derive(Debug, Clone, PartialEq, Eq)]
pub enum Widget {
    /// Blanks the rectangle.
    Clear,
    /// A border round the rectangle, with a title in its top edge.
    Block { title: String, border_style: Style },
    /// Text, from the top of the rectangle.
    Paragraph(Paragraph),
}

/// A widget as contracts see it.
pub enum WidgetView {
    Clear,
    Block { title: Seq<char>, border_style: Style },
    Paragraph(ParagraphView),
}

impl View for Widget {
    type V = WidgetView;

    open spec fn view(&self) -> WidgetView {
        match *self {
            Widget::Clear => WidgetView::Clear,
            Widget::Block { title, border_style } => WidgetView::Block {
                title: title@,
                border_style,
            },
            Widget::Paragraph(paragraph) => WidgetView::Paragraph(paragraph@),
        }
    }
}

/// One widget drawn into one rectangle.
#[derive(Debug, Clone, PartialEq, Eq)]
pub struct Draw {
    pub widget: Widget,
    pub area: Rect,
}

/// A drawn widget as contracts see it.
pub struct DrawView {
    pub widget: WidgetView,
    pub area: Rect,
}

impl View for Draw {
    type V = DrawView;

    open spec fn view(&self) -> DrawView {
        DrawView { widget: self.widget@, area: self.area }
    }
}

/// The paragraph `paragraph` drawn into `area`.
pub open spec fn text_at(paragraph: ParagraphView, area: Rect) -> DrawView {
    DrawView { widget: WidgetView::Paragraph(paragraph), area }
}

/// One screen in the making: the size of the terminal and what has been
/// drawn so far, the earliest first. What is drawn later lies on top.
#[derive(Debug, Clone, PartialEq, Eq)]
pub struct Frame {
    pub area: Rect,
    pub draws: Vec<Draw>,
}

impl View for Frame {
    type V = Seq<DrawView>;

    open spec fn view(&self) -> Seq<DrawView> {
        Seq::new(self.draws@.len(), |i: int| self.draws@[i]@)
    }
}

impl Frame {
    /// An empty frame for a terminal of the given size.
    pub fn new(area: Rect) -> (frame: Frame)
        ensures
            frame.area == area,
            frame@ == Seq::<DrawView>::empty(),
    {
        let frame = Frame { area, draws: Vec::new() };
        assert(frame@ =~= Seq::<DrawView>::empty());
        frame
    }

    /// The size of the terminal.
    pub fn area(&self) -> (area: Rect)
        ensures
            area == self.area,
    {
        self.area
    }

    /// Draws `widget` into `area`, on top of what is there.
    pub fn render_widget(&mut self, widget: Widget, area: Rect)
        ensures
            final(self)@ == old(self)@.push(DrawView { widget: widget@, area }),
            final(self).area == old(self).area,
    {
        self.draws.push(Draw { widget, area });
        assert(self@ =~= old(self)@.push(DrawView { widget: widget@, area }));
    }
}

} // verus!
