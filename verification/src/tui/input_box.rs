//! A one-line text entry with two modes, after the manner of modal editors.

use crate::text::push_char;
use crate::tui::events::{
    fired, nobody, ComponentType, DispatchView, Event, EventData, EventDataView, EventHandler,
    EventListeners, EventType, EventView, Input, Reaction, Triggered,
};
use crate::tui::renderer::{
    box_ops, clear_ops, clip, clipped, span, spanned, string_ops, Draw, DrawView, RenderBox,
    Renderer, TextStyle,
};
use crate::tui::{Component, Position};
use vstd::prelude::*;
use vstd::string::{StrSliceExecFns, StringExecFns};

verus! {

/// A framed line of text that the keyboard edits while the box is in its
/// insert mode.
#[derive(Debug)]
pub struct InputBox {
    label: String,
    width: i32,
    value: String,
    is_focus: bool,
    insert_mode: bool,
    event_listeners: EventListeners,
}

/// The mathematical content of an [`InputBox`].
pub struct InputBoxView {
    pub label: Seq<char>,
    pub width: i32,
    pub value: Seq<char>,
    pub is_focus: bool,
    pub insert_mode: bool,
    pub event_listeners: Map<EventType, Seq<EventHandler>>,
}

/// The control characters of ASCII.
pub open spec fn is_ascii_control(c: char) -> bool {
    (c as u32) < 32 || c as u32 == 127
}

impl InputBoxView {
    /// Whether the text is longer than the box can show.
    pub open spec fn is_overflow(self) -> bool {
        self.width - 2 < self.value.len()
    }

    /// The event that tells the listeners the mode the box is in.
    pub open spec fn input_mode_changed(self) -> DispatchView {
        fired(
            self.event_listeners,
            EventView {
                event_type: EventType::ChangeInputMode,
                event_data: EventDataView::Bool(self.insert_mode),
            },
        )
    }

    /// The event that hands the text to the listeners.
    pub open spec fn submitted(self) -> DispatchView {
        fired(
            self.event_listeners,
            EventView {
                event_type: EventType::Submit,
                event_data: EventDataView::String(self.value),
            },
        )
    }

    /// The box left as it is.
    pub open spec fn stays(self, consumed: bool) -> Reaction<InputBoxView> {
        Reaction { state: self, consumed, fired: None }
    }

    /// What a character does to a focused box.
    ///
    /// Escape leaves the insert mode and says so. Enter submits the text and
    /// empties the box while in insert mode, and does nothing otherwise. A
    /// carriage return is swallowed. Any other character that is no control
    /// character is appended in insert mode; outside it `i` and `a` enter the
    /// insert mode, and the rest is not for this box.
    pub open spec fn key(self, c: char) -> Reaction<InputBoxView> {
        if c == '\u{1b}' {
            let state = InputBoxView { insert_mode: false, ..self };
            Reaction { state, consumed: true, fired: Some(state.input_mode_changed()) }
        } else if c == '\n' {
            if self.insert_mode {
                Reaction {
                    state: InputBoxView { value: Seq::empty(), ..self },
                    consumed: true,
                    fired: Some(self.submitted()),
                }
            } else {
                self.stays(true)
            }
        } else if c == '\r' {
            self.stays(true)
        } else if is_ascii_control(c) {
            self.stays(false)
        } else if self.insert_mode {
            Reaction {
                state: InputBoxView { value: self.value.push(c), ..self },
                consumed: true,
                fired: None,
            }
        } else if c == 'i' || c == 'a' {
            let state = InputBoxView { insert_mode: true, ..self };
            Reaction { state, consumed: true, fired: Some(state.input_mode_changed()) }
        } else {
            self.stays(false)
        }
    }

    /// The box without the last character of its text, if it has one.
    pub open spec fn erased(self) -> InputBoxView {
        if self.value.len() > 0 {
            InputBoxView { value: self.value.drop_last(), ..self }
        } else {
            self
        }
    }

    /// What an event does to the box. A box without the focus ignores it.
    pub open spec fn trigger(self, event: EventView) -> Reaction<InputBoxView> {
        if !self.is_focus {
            self.stays(false)
        } else if event.event_type == EventType::KeyPress {
            match event.event_data {
                EventDataView::Char(c) => self.key(c),
                EventDataView::Key(Input::KeyBackspace) => Reaction {
                    state: self.erased(),
                    consumed: true,
                    fired: None,
                },
                _ => self.stays(false),
            }
        } else {
            self.stays(false)
        }
    }

    /// The label, which names the insert mode while the box is in it.
    pub open spec fn title(self) -> Seq<char> {
        if self.insert_mode {
            self.label + "(insert)"@
        } else {
            self.label
        }
    }

    /// The number of characters shown of a text that is too long.
    pub open spec fn room(self) -> nat {
        if self.width > 3 {
            (self.width - 3) as nat
        } else {
            0
        }
    }

    /// The part of the text that is shown: all of it where it fits, else its
    /// end, so that the place of editing stays in view.
    pub open spec fn shown(self) -> Seq<char> {
        if self.is_overflow() {
            self.value.subrange(self.value.len() - self.room(), self.value.len() as int)
        } else {
            self.value
        }
    }

    /// The rectangle inside the frame, `height` lines high.
    pub open spec fn line_area(self, top: int, left: int, height: usize) -> RenderBox {
        RenderBox { top: span(top + 1), left: span(left + 1), width: span(self.width - 2), height }
    }

    /// The commands that draw the box at `top`, `left`: the frame, the label
    /// on it, and the text on a blanked line.
    pub open spec fn rendering(self, top: int, left: int) -> Seq<DrawView> {
        box_ops(RenderBox { top: span(top), left: span(left), width: span(self.width as int), height: 3 })
            + string_ops(
            self.title(),
            TextStyle::Normal,
            self.is_focus,
            RenderBox {
                top: span(top),
                left: (span(left) + 2) as usize,
                width: span(self.width - 2),
                height: 0,
            },
        ) + clear_ops(self.line_area(top, left, 1)) + string_ops(
            self.shown(),
            TextStyle::Normal,
            false,
            self.line_area(top, left, 0),
        )
    }

    /// The column of the cursor within the text line.
    pub open spec fn cursor_x(self) -> int {
        if self.width - 3 < self.value.len() {
            self.width - 3
        } else {
            self.value.len() as int
        }
    }

    /// The commands that place the cursor behind the text shown, for a box
    /// that has the focus; none for one that has not.
    pub open spec fn focus_rendering(self, top: int, left: int) -> Seq<DrawView> {
        if self.is_focus {
            seq![
                DrawView::Cursor(true),
                DrawView::Move { row: clip(top + 1), column: clip(left + 1 + self.cursor_x()) },
            ]
        } else {
            Seq::empty()
        }
    }
}

/// The key press that stands for the Enter key.
pub open spec fn enter() -> EventView {
    EventView { event_type: EventType::KeyPress, event_data: EventDataView::Char('\n') }
}

/// A box submits on Enter while it has the focus and is in insert mode, and
/// on nothing else. It then submits its text once, to the handlers
/// registered for submissions, and is empty afterwards.
pub proof fn lemma_submits_on_enter_only(input_box: InputBoxView, event: EventView)
    ensures
        input_box.is_focus && input_box.insert_mode && event == enter() ==> {
            &&& input_box.trigger(event).fired == Some(input_box.submitted())
            &&& input_box.trigger(event).state.value == Seq::<char>::empty()
            &&& input_box.trigger(event).state.insert_mode
        },
        !(input_box.is_focus && input_box.insert_mode && event == enter()) ==> !(
        input_box.trigger(event).fired matches Some(dispatch) && dispatch.event.event_type
            == EventType::Submit),
{
}

impl View for InputBox {
    type V = InputBoxView;

    closed spec fn view(&self) -> InputBoxView {
        InputBoxView {
            label: self.label@,
            width: self.width,
            value: self.value@,
            is_focus: self.is_focus,
            insert_mode: self.insert_mode,
            event_listeners: self.event_listeners@,
        }
    }
}

fn ascii_control(c: char) -> (r: bool)
    ensures
        r == is_ascii_control(c),
{
    let code: u32 = c as u32;
    code < 32 || code == 127
}

impl InputBox {
    /// A box as it is made: empty, without the focus, outside its insert
    /// mode, and nobody listens to it.
    pub open spec fn created(label: Seq<char>, width: i32) -> InputBoxView {
        InputBoxView {
            label,
            width,
            value: Seq::empty(),
            is_focus: false,
            insert_mode: false,
            event_listeners: nobody(),
        }
    }

    /// A box with a label, `width` cells wide with its frame.
    pub fn new(label: &str, width: i32) -> (input_box: InputBox)
        ensures
            input_box@ == Self::created(label@, width),
    {
        InputBox {
            label: String::from_str(label),
            width,
            value: String::new(),
            is_focus: false,
            event_listeners: EventListeners::new(),
            insert_mode: false,
        }
    }

    fn is_overflow(&self) -> (r: bool)
        ensures
            r == self@.is_overflow(),
    {
        self.width as i128 - 2 < self.value.as_str().unicode_len() as i128
    }

    /// Gives the box the focus.
    pub fn focus(&mut self)
        ensures
            final(self)@ == (InputBoxView { is_focus: true, ..old(self)@ }),
    {
        self.is_focus = true;
    }

    /// Empties the box.
    pub fn clear(&mut self)
        ensures
            final(self)@ == (InputBoxView { value: Seq::empty(), ..old(self)@ }),
    {
        self.value = String::new();
    }

    /// The text in the box.
    pub fn value(&self) -> (value: &String)
        ensures
            value@ == self@.value,
    {
        &self.value
    }

    /// Whether the box has the focus.
    pub fn is_focus(&self) -> (is_focus: bool)
        ensures
            is_focus == self@.is_focus,
    {
        self.is_focus
    }

    /// Whether the box is in its insert mode.
    pub fn insert_mode(&self) -> (insert_mode: bool)
        ensures
            insert_mode == self@.insert_mode,
    {
        self.insert_mode
    }

    fn input_mode_changed(&self) -> (dispatch: crate::tui::events::Dispatch)
        ensures
            dispatch@ == self@.input_mode_changed(),
    {
        self.event_listeners.dispatch(
            Event::new(EventType::ChangeInputMode, EventData::Bool(self.insert_mode)),
        )
    }

    fn key(&mut self, c: char) -> (r: Triggered)
        ensures
            final(self)@ == old(self)@.key(c).state,
            r.answers(old(self)@.key(c)),
    {
        if c == '\u{1b}' {
            self.insert_mode = false;
            Triggered { consumed: true, fired: Some(self.input_mode_changed()) }
        } else if c == '\n' {
            if !self.insert_mode {
                return Triggered { consumed: true, fired: None };
            }
            let event = Event::new(EventType::Submit, EventData::String(self.value.clone()));
            let dispatch = self.event_listeners.dispatch(event);
            self.clear();
            Triggered { consumed: true, fired: Some(dispatch) }
        } else if c == '\r' {
            Triggered { consumed: true, fired: None }
        } else if ascii_control(c) {
            Triggered { consumed: false, fired: None }
        } else if self.insert_mode {
            push_char(&mut self.value, c);
            Triggered { consumed: true, fired: None }
        } else if c == 'i' || c == 'a' {
            self.insert_mode = true;
            Triggered { consumed: true, fired: Some(self.input_mode_changed()) }
        } else {
            Triggered { consumed: false, fired: None }
        }
    }

    fn erase(&mut self)
        ensures
            final(self)@ == old(self)@.erased(),
    {
        let len: usize = self.value.as_str().unicode_len();
        if len > 0 {
            let shorter = String::from_str(self.value.as_str().substring_char(0, len - 1));
            self.value = shorter;
        }
    }
}

impl Component for InputBox {
    fn render(&self, renderer: &mut Renderer, position: &Position)
        ensures
            final(renderer).drawn() == old(renderer).drawn() + self@.rendering(
                position@.0,
                position@.1,
            ),
    {
        let top: i128 = position.top() as i128;
        let left: i128 = position.left() as i128;
        let width: i128 = self.width as i128;
        renderer.draw_box(
            &RenderBox { top: spanned(top), left: spanned(left), width: spanned(width), height: 3 },
        );
        let title = if self.insert_mode {
            self.label.clone().concat("(insert)")
        } else {
            self.label.clone()
        };
        renderer.draw_string(
            title.as_str(),
            TextStyle::Normal,
            self.is_focus,
            &RenderBox {
                top: spanned(top),
                left: spanned(left) + 2,
                width: spanned(width - 2),
                height: 0,
            },
        );
        renderer.clear_rect(
            &RenderBox {
                top: spanned(top + 1),
                left: spanned(left + 1),
                width: spanned(width - 2),
                height: 1,
            },
        );
        let value_text_render_box = RenderBox {
            top: spanned(top + 1),
            left: spanned(left + 1),
            width: spanned(width - 2),
            height: 0,
        };
        let value_sz: usize = self.value.as_str().unicode_len();
        if self.is_overflow() {
            let room: usize = if width > 3 {
                (width - 3) as usize
            } else {
                0
            };
            let rendering_text = self.value.as_str().substring_char(value_sz - room, value_sz);
            renderer.draw_string(rendering_text, TextStyle::Normal, false, &value_text_render_box);
        } else {
            renderer.draw_string(
                self.value.as_str(),
                TextStyle::Normal,
                false,
                &value_text_render_box,
            );
        }
        assert(renderer.drawn() =~= old(renderer).drawn() + self@.rendering(
            position@.0,
            position@.1,
        ));
    }

    fn render_focus(&self, renderer: &mut Renderer, position: &Position)
        ensures
            final(renderer).drawn() == old(renderer).drawn() + self@.focus_rendering(
                position@.0,
                position@.1,
            ),
    {
        if !self.is_focus {
            assert(renderer.drawn() =~= old(renderer).drawn() + Seq::<DrawView>::empty());
            return ;
        }
        renderer.put(Draw::Cursor(true));
        let sz: i128 = self.value.as_str().unicode_len() as i128;
        let room: i128 = self.width as i128 - 3;
        let cursor_x: i128 = if room < sz {
            room
        } else {
            sz
        };
        renderer.put(
            Draw::Move {
                row: clipped(position.top() as i128 + 1),
                column: clipped(position.left() as i128 + 1 + cursor_x),
            },
        );
        assert(renderer.drawn() =~= old(renderer).drawn() + self@.focus_rendering(
            position@.0,
            position@.1,
        ));
    }

    fn trigger(&mut self, event: &Event) -> (r: Triggered)
        ensures
            final(self)@ == old(self)@.trigger(event@).state,
            r.answers(old(self)@.trigger(event@)),
    {
        if !self.is_focus {
            return Triggered { consumed: false, fired: None };
        }
        match event.event_type {
            EventType::KeyPress => match &event.event_data {
                EventData::Char(c) => self.key(*c),
                EventData::Key(Input::KeyBackspace) => {
                    self.erase();
                    Triggered { consumed: true, fired: None }
                },
                _ => Triggered { consumed: false, fired: None },
            },
            _ => Triggered { consumed: false, fired: None },
        }
    }

    fn toggle_focus(&mut self)
        ensures
            final(self)@ == (InputBoxView { is_focus: !old(self)@.is_focus, ..old(self)@ }),
    {
        self.is_focus = !self.is_focus
    }

    fn add_event_listener(&mut self, event_type: EventType, handler: EventHandler)
        ensures
            final(self)@ == (InputBoxView {
                event_listeners: old(self)@.event_listeners.insert(
                    event_type,
                    old(self)@.event_listeners[event_type].push(handler),
                ),
                ..old(self)@
            }),
    {
        self.event_listeners.add(event_type, handler);
    }

    fn get_component_type(&self) -> (kind: ComponentType)
        ensures
            kind == ComponentType::InputBox,
    {
        ComponentType::InputBox
    }

    fn is_focusable(&self) -> (focusable: bool)
        ensures
            focusable,
    {
        true
    }
}

} // verus!
