//! Drawing: what to put on the character grid, as a list of commands for
//! whoever owns the terminal.

use crate::text::push_char;
use vstd::prelude::*;
use vstd::string::{StrSliceExecFns, StringExecFns};

verus! {

/// A rectangle of the grid.
#[derive(Debug, PartialEq, Eq, Clone, Copy, Structural)]
pub struct RenderBox {
    pub top: usize,
    pub left: usize,
    pub width: usize,
    pub height: usize,
}

/// How a text is written.
#[derive(Debug, PartialEq, Eq, Clone, Copy, Structural)]
pub enum TextStyle {
    Normal,
    Bold,
    Italic,
}

/// One command for the terminal.
#[derive(Debug, PartialEq, Eq, Clone)]
pub enum Draw {
    /// Move the cursor.
    Move { row: i32, column: i32 },
    /// Write text at the cursor.
    Text(String),
    /// Switch a text style on, and with it the highlight of the focused
    /// widget where `focus` is set.
    StyleOn { style: TextStyle, focus: bool },
    /// Switch the same off again.
    StyleOff { style: TextStyle, focus: bool },
    /// A vertical scroll bar in `area`, its thumb at `offset` of `range`.
    Scrollbar { area: RenderBox, offset: i32, range: i32 },
    /// Show the cursor, or hide it.
    Cursor(bool),
}

/// The mathematical content of a [`Draw`].
pub enum DrawView {
    Move { row: i32, column: i32 },
    Text(Seq<char>),
    StyleOn { style: TextStyle, focus: bool },
    StyleOff { style: TextStyle, focus: bool },
    Scrollbar { area: RenderBox, offset: i32, range: i32 },
    Cursor(bool),
}

impl View for Draw {
    type V = DrawView;

    open spec fn view(&self) -> DrawView {
        match self {
            Draw::Move { row, column } => DrawView::Move { row: *row, column: *column },
            Draw::Text(text) => DrawView::Text(text@),
            Draw::StyleOn { style, focus } => DrawView::StyleOn { style: *style, focus: *focus },
            Draw::StyleOff { style, focus } => DrawView::StyleOff { style: *style, focus: *focus },
            Draw::Scrollbar { area, offset, range } => DrawView::Scrollbar {
                area: *area,
                offset: *offset,
                range: *range,
            },
            Draw::Cursor(visible) => DrawView::Cursor(*visible),
        }
    }
}

/// The coordinate nearest to `v` that the terminal can be given.
pub open spec fn clip(v: int) -> i32 {
    if v < i32::MIN {
        i32::MIN
    } else if v > i32::MAX {
        i32::MAX
    } else {
        v as i32
    }
}

/// The extent nearest to `v`: nothing for a negative one.
pub open spec fn span(v: int) -> usize {
    if v < 0 {
        0
    } else if v > usize::MAX {
        usize::MAX
    } else {
        v as usize
    }
}

/// What is left of an extent between its two border cells.
pub open spec fn inner(extent: usize) -> nat {
    if extent >= 2 {
        (extent - 2) as nat
    } else {
        0
    }
}

/// `n` times the same.
pub open spec fn repeat<A>(item: A, n: nat) -> Seq<A> {
    Seq::new(n, |i: int| item)
}

/// The character that stands for what was cut off.
pub open spec fn ellipsis() -> char {
    '\u{2026}'
}

/// A text as it is shown in `width` cells: whole where it fits, else its
/// first `width` characters and an ellipsis, and nothing where there is no
/// cell at all.
pub open spec fn fitted(text: Seq<char>, width: nat) -> Seq<char> {
    if text.len() <= width {
        text
    } else if width >= 1 {
        text.subrange(0, width as int).push(ellipsis())
    } else {
        Seq::empty()
    }
}

/// The horizontal line of a frame.
pub open spec fn horizontal() -> Seq<char> {
    seq!['\u{2500}']
}

/// The vertical line of a frame.
pub open spec fn vertical() -> Seq<char> {
    seq!['\u{2502}']
}

/// The upper left corner of a frame, from which lines go down and right.
pub open spec fn down_right() -> Seq<char> {
    seq!['\u{250c}']
}

/// The upper right corner of a frame.
pub open spec fn down_left() -> Seq<char> {
    seq!['\u{2510}']
}

/// The lower left corner of a frame.
pub open spec fn up_right() -> Seq<char> {
    seq!['\u{2514}']
}

/// The lower right corner of a frame.
pub open spec fn up_left() -> Seq<char> {
    seq!['\u{2518}']
}

/// The commands that write a text with a style into the first line of `area`.
pub open spec fn string_ops(text: Seq<char>, style: TextStyle, focus: bool, area: RenderBox) -> Seq<
    DrawView,
> {
    seq![
        DrawView::StyleOn { style, focus },
        DrawView::Move { row: clip(area.top as int), column: clip(area.left as int) },
        DrawView::Text(fitted(text, area.width as nat)),
        DrawView::StyleOff { style, focus },
    ]
}

/// The commands that blank the first `n` lines of `area`.
pub open spec fn clear_rows(area: RenderBox, n: nat) -> Seq<DrawView>
    decreases n,
{
    if n == 0 {
        Seq::empty()
    } else {
        clear_rows(area, (n - 1) as nat) + seq![
            DrawView::Move { row: clip(area.top + n - 1), column: clip(area.left as int) },
            DrawView::Text(repeat(' ', area.width as nat)),
        ]
    }
}

/// The commands that blank `area`.
pub open spec fn clear_ops(area: RenderBox) -> Seq<DrawView> {
    seq![DrawView::Move { row: clip(area.top as int), column: clip(area.left as int) }]
        + clear_rows(area, area.height as nat)
}

/// The commands that draw the two sides of a frame along its first `n`
/// inner lines.
pub open spec fn side_rows(area: RenderBox, n: nat) -> Seq<DrawView>
    decreases n,
{
    if n == 0 {
        Seq::empty()
    } else {
        side_rows(area, (n - 1) as nat) + seq![
            DrawView::Text(vertical()),
            DrawView::Move { row: clip(area.top + n), column: clip(area.left + area.width - 1) },
            DrawView::Text(vertical()),
            DrawView::Move { row: clip(area.top + n + 1), column: clip(area.left as int) },
        ]
    }
}

/// The commands that draw a frame around `area`: the upper border, the two
/// sides line by line, the lower border.
pub open spec fn box_ops(area: RenderBox) -> Seq<DrawView> {
    seq![
        DrawView::Move { row: clip(area.top as int), column: clip(area.left as int) },
        DrawView::Text(down_right()),
    ] + repeat(DrawView::Text(horizontal()), inner(area.width)) + seq![
        DrawView::Text(down_left()),
        DrawView::Move { row: clip(area.top + 1), column: clip(area.left as int) },
    ] + side_rows(area, inner(area.height)) + seq![DrawView::Text(up_right())] + repeat(
        DrawView::Text(horizontal()),
        inner(area.width),
    ) + seq![DrawView::Text(up_left())]
}

/// The light horizontal line.
///
/// Trusted: hands out `box_drawing::light::HORIZONTAL`, the one character U+2500.
#[verifier::external_body]
fn light_horizontal() -> (glyph: &'static str)
    ensures
        glyph@ == horizontal(),
{
    box_drawing::light::HORIZONTAL
}

/// The light vertical line.
///
/// Trusted: hands out `box_drawing::light::VERTICAL`, the one character U+2502.
#[verifier::external_body]
fn light_vertical() -> (glyph: &'static str)
    ensures
        glyph@ == vertical(),
{
    box_drawing::light::VERTICAL
}

/// The light upper left corner.
///
/// Trusted: hands out `box_drawing::light::DOWN_RIGHT`, the one character U+250C.
#[verifier::external_body]
fn light_down_right() -> (glyph: &'static str)
    ensures
        glyph@ == down_right(),
{
    box_drawing::light::DOWN_RIGHT
}

/// The light upper right corner.
///
/// Trusted: hands out `box_drawing::light::DOWN_LEFT`, the one character U+2510.
#[verifier::external_body]
fn light_down_left() -> (glyph: &'static str)
    ensures
        glyph@ == down_left(),
{
    box_drawing::light::DOWN_LEFT
}

/// The light lower left corner.
///
/// Trusted: hands out `box_drawing::light::UP_RIGHT`, the one character U+2514.
#[verifier::external_body]
fn light_up_right() -> (glyph: &'static str)
    ensures
        glyph@ == up_right(),
{
    box_drawing::light::UP_RIGHT
}

/// The light lower right corner.
///
/// Trusted: hands out `box_drawing::light::UP_LEFT`, the one character U+2518.
#[verifier::external_body]
fn light_up_left() -> (glyph: &'static str)
    ensures
        glyph@ == up_left(),
{
    box_drawing::light::UP_LEFT
}

/// The coordinate nearest to `v`.
pub fn clipped(v: i128) -> (c: i32)
    ensures
        c == clip(v as int),
{
    if v < -2147483648 {
        -2147483648
    } else if v > 2147483647 {
        2147483647
    } else {
        v as i32
    }
}

/// The extent nearest to `v`.
pub fn spanned(v: i128) -> (n: usize)
    ensures
        n == span(v as int),
{
    if v < 0 {
        0
    } else if v > usize::MAX as i128 {
        usize::MAX
    } else {
        v as usize
    }
}

/// `text` as it is shown in `width` cells.
pub fn fit(text: &str, width: usize) -> (shown: String)
    ensures
        shown@ == fitted(text@, width as nat),
{
    let len: usize = text.unicode_len();
    if len <= width {
        String::from_str(text)
    } else if width >= 1 {
        let mut shown = String::from_str(text.substring_char(0, width));
        push_char(&mut shown, '\u{2026}');
        shown
    } else {
        String::new()
    }
}

/// The commands drawn so far.
#[derive(Debug)]
pub struct Renderer {
    commands: Vec<Draw>,
}

impl Renderer {
    /// What has been drawn so far, first to last.
    pub closed spec fn drawn(self) -> Seq<DrawView> {
        Seq::new(self.commands.len() as nat, |i: int| self.commands[i]@)
    }

    /// A renderer that has drawn nothing.
    pub fn new() -> (renderer: Renderer)
        ensures
            renderer.drawn() == Seq::<DrawView>::empty(),
    {
        let renderer = Renderer { commands: Vec::new() };
        assert(renderer.drawn() =~= Seq::<DrawView>::empty());
        renderer
    }

    /// The commands drawn so far, first to last.
    pub fn commands(&self) -> (commands: &Vec<Draw>)
        ensures
            commands.len() == self.drawn().len(),
            forall|i: int| 0 <= i < commands.len() ==> commands[i]@ == self.drawn()[i],
    {
        &self.commands
    }

    /// Adds one command.
    pub fn put(&mut self, command: Draw)
        ensures
            final(self).drawn() == old(self).drawn().push(command@),
    {
        self.commands.push(command);
        assert(self.drawn() =~= old(self).drawn().push(command@));
    }

    fn put_text(&mut self, text: &str)
        ensures
            final(self).drawn() == old(self).drawn().push(DrawView::Text(text@)),
    {
        self.put(Draw::Text(String::from_str(text)));
    }

    fn put_horizontals(&mut self, n: usize)
        ensures
            final(self).drawn() == old(self).drawn() + repeat(
                DrawView::Text(horizontal()),
                n as nat,
            ),
    {
        let mut i: usize = 0;
        assert(self.drawn() =~= old(self).drawn() + repeat(DrawView::Text(horizontal()), 0));
        while i < n
            invariant
                i <= n,
                self.drawn() == old(self).drawn() + repeat(DrawView::Text(horizontal()), i as nat),
            decreases n - i,
        {
            self.put_text(light_horizontal());
            i = i + 1;
            assert(self.drawn() =~= old(self).drawn() + repeat(
                DrawView::Text(horizontal()),
                i as nat,
            ));
        }
    }

    /// Blanks `area`, line by line.
    pub fn clear_rect(&mut self, area: &RenderBox)
        ensures
            final(self).drawn() == old(self).drawn() + clear_ops(*area),
    {
        let left: i32 = clipped(area.left as i128);
        let mut blank = String::new();
        let mut k: usize = 0;
        assert(blank@ =~= repeat(' ', 0));
        while k < area.width
            invariant
                k <= area.width,
                blank@ == repeat(' ', k as nat),
            decreases area.width - k,
        {
            push_char(&mut blank, ' ');
            k = k + 1;
            assert(blank@ =~= repeat(' ', k as nat));
        }
        self.put(Draw::Move { row: clipped(area.top as i128), column: left });
        let mut i: usize = 0;
        assert(self.drawn() =~= old(self).drawn() + (seq![
            DrawView::Move { row: clip(area.top as int), column: clip(area.left as int) },
        ] + clear_rows(*area, 0)));
        while i < area.height
            invariant
                i <= area.height,
                left == clip(area.left as int),
                blank@ == repeat(' ', area.width as nat),
                self.drawn() == old(self).drawn() + (seq![
                    DrawView::Move { row: clip(area.top as int), column: clip(area.left as int) },
                ] + clear_rows(*area, i as nat)),
            decreases area.height - i,
        {
            self.put(Draw::Move { row: clipped(area.top as i128 + i as i128), column: left });
            self.put(Draw::Text(blank.clone()));
            i = i + 1;
            assert(self.drawn() =~= old(self).drawn() + (seq![
                DrawView::Move { row: clip(area.top as int), column: clip(area.left as int) },
            ] + clear_rows(*area, i as nat)));
        }
    }

    /// Draws a frame around `render_box`.
    pub fn draw_box(&mut self, render_box: &RenderBox)
        ensures
            final(self).drawn() == old(self).drawn() + box_ops(*render_box),
    {
        let area = *render_box;
        let top: i128 = area.top as i128;
        let left: i32 = clipped(area.left as i128);
        let right: i32 = clipped(area.left as i128 + area.width as i128 - 1);
        let across: usize = if area.width >= 2 {
            area.width - 2
        } else {
            0
        };
        let down: usize = if area.height >= 2 {
            area.height - 2
        } else {
            0
        };
        self.put(Draw::Move { row: clipped(top), column: left });
        self.put_text(light_down_right());
        self.put_horizontals(across);
        self.put_text(light_down_left());
        self.put(Draw::Move { row: clipped(top + 1), column: left });
        let ghost upper = seq![
            DrawView::Move { row: clip(area.top as int), column: clip(area.left as int) },
            DrawView::Text(down_right()),
        ] + repeat(DrawView::Text(horizontal()), inner(area.width)) + seq![
            DrawView::Text(down_left()),
            DrawView::Move { row: clip(area.top + 1), column: clip(area.left as int) },
        ];
        assert(self.drawn() =~= old(self).drawn() + (upper + side_rows(area, 0)));
        let mut i: usize = 0;
        while i < down
            invariant
                i <= down == inner(area.height),
                top == area.top,
                left == clip(area.left as int),
                right == clip(area.left + area.width - 1),
                self.drawn() == old(self).drawn() + (upper + side_rows(area, i as nat)),
            decreases down - i,
        {
            self.put_text(light_vertical());
            self.put(Draw::Move { row: clipped(top + i as i128 + 1), column: right });
            self.put_text(light_vertical());
            self.put(Draw::Move { row: clipped(top + i as i128 + 2), column: left });
            i = i + 1;
            assert(self.drawn() =~= old(self).drawn() + (upper + side_rows(area, i as nat)));
        }
        self.put_text(light_up_right());
        self.put_horizontals(across);
        self.put_text(light_up_left());
        assert(self.drawn() =~= old(self).drawn() + box_ops(area));
    }

    /// Asks for a vertical scroll bar in `render_box`, with its thumb at
    /// `offset` of `range`.
    pub fn draw_vscrollbar(&mut self, render_box: &RenderBox, offset: i32, range: i32)
        ensures
            final(self).drawn() == old(self).drawn().push(
                DrawView::Scrollbar { area: *render_box, offset, range },
            ),
    {
        self.put(Draw::Scrollbar { area: *render_box, offset, range });
    }

    /// Writes `string` into the first line of `render_box`, cut to its width.
    pub fn draw_string(
        &mut self,
        string: &str,
        text_style: TextStyle,
        is_focus: bool,
        render_box: &RenderBox,
    )
        ensures
            final(self).drawn() == old(self).drawn() + string_ops(
                string@,
                text_style,
                is_focus,
                *render_box,
            ),
    {
        self.put(Draw::StyleOn { style: text_style, focus: is_focus });
        self.put(
            Draw::Move {
                row: clipped(render_box.top as i128),
                column: clipped(render_box.left as i128),
            },
        );
        self.put(Draw::Text(fit(string, render_box.width)));
        self.put(Draw::StyleOff { style: text_style, focus: is_focus });
        assert(self.drawn() =~= old(self).drawn() + string_ops(
            string@,
            text_style,
            is_focus,
            *render_box,
        ));
    }
}

} // verus!
