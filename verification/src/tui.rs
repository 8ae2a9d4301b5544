//! The interface: widgets, the events that pass between them, and the
//! application that owns them.

pub mod app;
pub mod events;
pub mod input_box;
pub mod renderer;
pub mod selectable_list;
pub mod system_bar;

pub use crate::tui::app::{App, CommandEntry, Request, Turn};
use crate::tui::events::{
    ComponentType, Event, EventHandler, EventType, EventView, Reaction, Triggered,
};
use crate::tui::input_box::{InputBox, InputBoxView};
use crate::tui::renderer::{DrawView, Renderer};
use crate::tui::selectable_list::{SelectableList, SelectableListView};
use crate::tui::system_bar::{SystemBar, SystemBarView};
use vstd::prelude::*;

verus! {

/// What every widget can do.
pub trait Component {
    /// Draws the widget with its upper left corner at `position`.
    fn render(&self, renderer: &mut Renderer, position: &Position);

    /// Places the cursor, where the widget has the focus.
    fn render_focus(&self, renderer: &mut Renderer, position: &Position);

    /// Takes the focus, or gives it up.
    fn toggle_focus(&mut self);

    /// Registers a handler for events of one kind that the widget fires.
    fn add_event_listener(&mut self, event: EventType, handler: EventHandler);

    /// Hands an event to the widget.
    fn trigger(&mut self, event: &Event) -> Triggered;

    /// The kind of the widget.
    fn get_component_type(&self) -> ComponentType;

    /// Whether the widget reacts to keys at all.
    fn is_focusable(&self) -> bool;
}

/// The place of a widget's upper left corner on the grid.
#[derive(Debug, PartialEq, Eq, Clone, Copy)]
pub struct Position {
    top: i32,
    left: i32,
}

impl View for Position {
    type V = (int, int);

    /// The row and the column.
    closed spec fn view(&self) -> (int, int) {
        (self.top as int, self.left as int)
    }
}

impl Position {
    /// The place at row `top` and column `left`.
    pub fn new(top: i32, left: i32) -> (position: Position)
        ensures
            position@ == (top as int, left as int),
    {
        Position { top, left }
    }

    /// The row.
    pub fn top(&self) -> (top: i32)
        ensures
            top == self@.0,
    {
        self.top
    }

    /// The column.
    pub fn left(&self) -> (left: i32)
        ensures
            left == self@.1,
    {
        self.left
    }
}

/// A widget of any of the kinds there are.
#[derive(Debug)]
pub enum Widget {
    InputBox(InputBox),
    SelectableList(SelectableList),
    SystemBar(SystemBar),
}

/// The mathematical content of a [`Widget`].
pub enum WidgetView {
    InputBox(InputBoxView),
    SelectableList(SelectableListView),
    SystemBar(SystemBarView),
}

impl View for Widget {
    type V = WidgetView;

    open spec fn view(&self) -> WidgetView {
        match self {
            Widget::InputBox(w) => WidgetView::InputBox(w@),
            Widget::SelectableList(w) => WidgetView::SelectableList(w@),
            Widget::SystemBar(w) => WidgetView::SystemBar(w@),
        }
    }
}

impl WidgetView {
    /// The commands that draw the widget at `top`, `left`.
    pub open spec fn rendering(self, top: int, left: int) -> Seq<DrawView> {
        match self {
            WidgetView::InputBox(w) => w.rendering(top, left),
            WidgetView::SelectableList(w) => w.rendering(top, left),
            WidgetView::SystemBar(w) => w.rendering(top, left),
        }
    }

    /// The commands that place the cursor for the widget at `top`, `left`.
    pub open spec fn focus_rendering(self, top: int, left: int) -> Seq<DrawView> {
        match self {
            WidgetView::InputBox(w) => w.focus_rendering(top, left),
            WidgetView::SelectableList(w) => w.focus_rendering(top, left),
            WidgetView::SystemBar(w) => Seq::empty(),
        }
    }

    /// Whether the widget has the focus. A bar never has.
    pub open spec fn is_focus(self) -> bool {
        match self {
            WidgetView::InputBox(w) => w.is_focus,
            WidgetView::SelectableList(w) => w.is_focus,
            WidgetView::SystemBar(w) => false,
        }
    }

    /// The widget with the focus taken where it had none, and given up where
    /// it had it. A bar stays as it is.
    pub open spec fn toggle_focus(self) -> WidgetView {
        match self {
            WidgetView::InputBox(w) => WidgetView::InputBox(
                InputBoxView { is_focus: !w.is_focus, ..w },
            ),
            WidgetView::SelectableList(w) => WidgetView::SelectableList(
                SelectableListView { is_focus: !w.is_focus, ..w },
            ),
            WidgetView::SystemBar(w) => self,
        }
    }

    /// The widget with one more handler for events of one kind. To a bar
    /// nobody listens.
    pub open spec fn add_event_listener(self, event_type: EventType, handler: EventHandler) -> WidgetView {
        match self {
            WidgetView::InputBox(w) => WidgetView::InputBox(
                InputBoxView {
                    event_listeners: w.event_listeners.insert(
                        event_type,
                        w.event_listeners[event_type].push(handler),
                    ),
                    ..w
                },
            ),
            WidgetView::SelectableList(w) => WidgetView::SelectableList(
                SelectableListView {
                    event_listeners: w.event_listeners.insert(
                        event_type,
                        w.event_listeners[event_type].push(handler),
                    ),
                    ..w
                },
            ),
            WidgetView::SystemBar(w) => self,
        }
    }

    /// What an event does to the widget.
    pub open spec fn trigger(self, event: EventView) -> Reaction<WidgetView> {
        match self {
            WidgetView::InputBox(w) => {
                let r = w.trigger(event);
                Reaction { state: WidgetView::InputBox(r.state), consumed: r.consumed, fired: r.fired }
            },
            WidgetView::SelectableList(w) => {
                let r = w.trigger(event);
                Reaction {
                    state: WidgetView::SelectableList(r.state),
                    consumed: r.consumed,
                    fired: r.fired,
                }
            },
            WidgetView::SystemBar(w) => Reaction { state: self, consumed: false, fired: None },
        }
    }

    /// The kind of the widget.
    pub open spec fn get_component_type(self) -> ComponentType {
        match self {
            WidgetView::InputBox(w) => ComponentType::InputBox,
            WidgetView::SelectableList(w) => ComponentType::SelectableList,
            WidgetView::SystemBar(w) => ComponentType::SystemBar,
        }
    }
}

impl Component for Widget {
    fn render(&self, renderer: &mut Renderer, position: &Position)
        ensures
            final(renderer).drawn() == old(renderer).drawn() + self@.rendering(
                position@.0,
                position@.1,
            ),
    {
        match self {
            Widget::InputBox(w) => w.render(renderer, position),
            Widget::SelectableList(w) => w.render(renderer, position),
            Widget::SystemBar(w) => w.render(renderer, position),
        }
    }

    fn render_focus(&self, renderer: &mut Renderer, position: &Position)
        ensures
            final(renderer).drawn() == old(renderer).drawn() + self@.focus_rendering(
                position@.0,
                position@.1,
            ),
    {
        match self {
            Widget::InputBox(w) => w.render_focus(renderer, position),
            Widget::SelectableList(w) => w.render_focus(renderer, position),
            Widget::SystemBar(w) => {
                w.render_focus(renderer, position);
                assert(renderer.drawn() =~= old(renderer).drawn() + Seq::<DrawView>::empty());
            },
        }
    }

    fn toggle_focus(&mut self)
        ensures
            final(self)@ == old(self)@.toggle_focus(),
    {
        match self {
            Widget::InputBox(w) => w.toggle_focus(),
            Widget::SelectableList(w) => w.toggle_focus(),
            Widget::SystemBar(w) => w.toggle_focus(),
        }
    }

    fn add_event_listener(&mut self, event: EventType, handler: EventHandler)
        ensures
            final(self)@ == old(self)@.add_event_listener(event, handler),
    {
        match self {
            Widget::InputBox(w) => w.add_event_listener(event, handler),
            Widget::SelectableList(w) => w.add_event_listener(event, handler),
            Widget::SystemBar(w) => w.add_event_listener(event, handler),
        }
    }

    fn trigger(&mut self, event: &Event) -> (r: Triggered)
        ensures
            final(self)@ == old(self)@.trigger(event@).state,
            r.answers(old(self)@.trigger(event@)),
    {
        match self {
            Widget::InputBox(w) => w.trigger(event),
            Widget::SelectableList(w) => w.trigger(event),
            Widget::SystemBar(w) => w.trigger(event),
        }
    }

    fn get_component_type(&self) -> (kind: ComponentType)
        ensures
            kind == self@.get_component_type(),
    {
        match self {
            Widget::InputBox(w) => w.get_component_type(),
            Widget::SelectableList(w) => w.get_component_type(),
            Widget::SystemBar(w) => w.get_component_type(),
        }
    }

    fn is_focusable(&self) -> (focusable: bool)
        ensures
            focusable == !(self@ is SystemBar),
    {
        match self {
            Widget::InputBox(w) => w.is_focusable(),
            Widget::SelectableList(w) => w.is_focusable(),
            Widget::SystemBar(w) => w.is_focusable(),
        }
    }
}

} // verus!
