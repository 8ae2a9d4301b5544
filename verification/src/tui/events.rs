//! The vocabulary of events, and the table that says who listens to what.

use std::collections::HashMap;
use vstd::prelude::*;

verus! {

/// The kinds of event.
#[derive(Debug, PartialEq, PartialOrd, Hash, Eq, Clone, Copy, Structural)]
pub enum EventType {
    Focus,
    KeyPress,
    Submit,
    ValueChange,
    ChangeInputMode,
}

/// The kinds of widget.
#[derive(Debug, PartialEq, Eq, Clone, Copy, Structural)]
pub enum ComponentType {
    InputBox,
    SelectableList,
    SystemBar,
}

/// What the keyboard delivered: a character, or one of the keys that the
/// interface tells apart.
#[derive(Debug, PartialEq, Hash, Eq, Clone, Copy, Structural)]
pub enum Input {
    Character(char),
    KeyBackspace,
    KeyUp,
    KeyDown,
    KeyEnter,
    KeyDC,
    Other,
}

/// What an event carries.
#[derive(Debug, PartialEq, Hash, Eq, Clone)]
pub enum EventData {
    Char(char),
    String(String),
    Number(i32),
    Bool(bool),
    Key(Input),
}

/// An event: its kind and what it carries.
#[derive(Debug, PartialEq, Hash, Eq, Clone)]
pub struct Event {
    pub event_type: EventType,
    pub event_data: EventData,
}

/// The mathematical content of an [`EventData`].
pub enum EventDataView {
    Char(char),
    String(Seq<char>),
    Number(i32),
    Bool(bool),
    Key(Input),
}

/// The mathematical content of an [`Event`].
pub struct EventView {
    pub event_type: EventType,
    pub event_data: EventDataView,
}

impl View for EventData {
    type V = EventDataView;

    open spec fn view(&self) -> EventDataView {
        match self {
            EventData::Char(c) => EventDataView::Char(*c),
            EventData::String(s) => EventDataView::String(s@),
            EventData::Number(n) => EventDataView::Number(*n),
            EventData::Bool(b) => EventDataView::Bool(*b),
            EventData::Key(k) => EventDataView::Key(*k),
        }
    }
}

impl View for Event {
    type V = EventView;

    open spec fn view(&self) -> EventView {
        EventView { event_type: self.event_type, event_data: self.event_data@ }
    }
}

impl Event {
    /// An event of a kind, with what it carries.
    pub fn new(event_type: EventType, event_value: EventData) -> (event: Event)
        ensures
            event.event_type == event_type,
            event.event_data == event_value,
    {
        Event { event_type, event_data: event_value }
    }
}

/// What a listener does when its event arrives. The widgets it works on are
/// named by their places among the mounted widgets.
#[derive(Debug, PartialEq, Eq, Clone, Copy, Structural)]
pub enum EventHandler {
    /// Put the submitted text to the server as a command, show the reply in
    /// the list at `result`, and log the command in the list at `history`.
    Execute { history: usize, result: usize },
    /// Show in the list at `result` the reply recorded for the entry selected.
    Recall { result: usize },
}

/// An event that a widget fired, with the handlers to invoke for it, in
/// the order in which they were registered.
#[derive(Debug)]
pub struct Dispatch {
    pub event: Event,
    pub handlers: Vec<EventHandler>,
}

/// The mathematical content of a [`Dispatch`].
pub struct DispatchView {
    pub event: EventView,
    pub handlers: Seq<EventHandler>,
}

impl View for Dispatch {
    type V = DispatchView;

    open spec fn view(&self) -> DispatchView {
        DispatchView { event: self.event@, handlers: self.handlers@ }
    }
}

/// What a widget answers to an event: whether it was meant for the widget,
/// and the event that the widget fired in turn, if any.
#[derive(Debug)]
pub struct Triggered {
    pub consumed: bool,
    pub fired: Option<Dispatch>,
}

/// What an event does to a widget in state `S`: the state after it, whether
/// the event was meant for the widget, and the event fired in turn, if any.
pub struct Reaction<S> {
    pub state: S,
    pub consumed: bool,
    pub fired: Option<DispatchView>,
}

impl Triggered {
    /// Whether this answer is the one that `reaction` holds.
    pub open spec fn answers<S>(self, reaction: Reaction<S>) -> bool {
        &&& self.consumed == reaction.consumed
        &&& match self.fired {
            Some(dispatch) => reaction.fired == Some(dispatch@),
            None => reaction.fired is None,
        }
    }
}

/// Who listens to what: for each kind of event the handlers registered for
/// it, oldest first. Handlers are added and never removed.
#[derive(Debug)]
pub struct EventListeners {
    /// The handlers of each kind of event, under the number of the kind. A
    /// kind for which nobody was registered has no entry.
    table: HashMap<u8, Vec<EventHandler>>,
}

/// The number under which the table keeps a kind of event.
pub open spec fn code(event_type: EventType) -> u8 {
    match event_type {
        EventType::Focus => 0,
        EventType::KeyPress => 1,
        EventType::Submit => 2,
        EventType::ValueChange => 3,
        EventType::ChangeInputMode => 4,
    }
}

fn key(event_type: EventType) -> (k: u8)
    ensures
        k == code(event_type),
{
    match event_type {
        EventType::Focus => 0,
        EventType::KeyPress => 1,
        EventType::Submit => 2,
        EventType::ValueChange => 3,
        EventType::ChangeInputMode => 4,
    }
}

fn copy_of(handlers: &Vec<EventHandler>) -> (copy: Vec<EventHandler>)
    ensures
        copy@ == handlers@,
{
    let mut copy: Vec<EventHandler> = Vec::new();
    let mut i: usize = 0;
    while i < handlers.len()
        invariant
            i <= handlers.len(),
            copy@ == handlers@.subrange(0, i as int),
        decreases handlers.len() - i,
    {
        copy.push(handlers[i]);
        assert(copy@ =~= handlers@.subrange(0, i + 1));
        i = i + 1;
    }
    assert(copy@ =~= handlers@);
    copy
}

impl View for EventListeners {
    type V = Map<EventType, Seq<EventHandler>>;

    closed spec fn view(&self) -> Map<EventType, Seq<EventHandler>> {
        Map::total(
            |event_type: EventType|
                if self.table@.contains_key(code(event_type)) {
                    self.table@[code(event_type)]@
                } else {
                    Seq::empty()
                },
        )
    }
}

/// The table in which nobody listens.
pub open spec fn nobody() -> Map<EventType, Seq<EventHandler>> {
    Map::total(|event_type: EventType| Seq::<EventHandler>::empty())
}

/// What firing `event` amounts to under a table: the event, for every
/// handler of its kind.
pub open spec fn fired(table: Map<EventType, Seq<EventHandler>>, event: EventView) -> DispatchView {
    DispatchView { event, handlers: table[event.event_type] }
}

impl EventListeners {
    /// A table in which nobody listens.
    pub fn new() -> (table: EventListeners)
        ensures
            table@ == nobody(),
    {
        EventListeners { table: HashMap::new() }
    }

    /// Registers `handler` for `event_type`, behind those already registered.
    pub fn add(&mut self, event_type: EventType, handler: EventHandler)
        ensures
            final(self)@ == old(self)@.insert(event_type, old(self)@[event_type].push(handler)),
    {
        let k: u8 = key(event_type);
        let mut event_handlers = match self.table.remove(&k) {
            Some(registered) => registered,
            None => Vec::new(),
        };
        event_handlers.push(handler);
        self.table.insert(k, event_handlers);
        // two kinds have two numbers, so no other kind's handlers were touched
        assert(self@ =~= old(self)@.insert(event_type, old(self)@[event_type].push(handler)));
    }

    /// The handlers registered for `event_type`, oldest first.
    pub fn handlers(&self, event_type: EventType) -> (handlers: Vec<EventHandler>)
        ensures
            handlers@ == self@[event_type],
    {
        match self.table.get(&key(event_type)) {
            Some(registered) => copy_of(registered),
            None => Vec::new(),
        }
    }

    /// Fires `event`: every handler registered for its kind is to be invoked
    /// with it once, oldest first.
    pub fn dispatch(&self, event: Event) -> (dispatch: Dispatch)
        ensures
            dispatch@ == fired(self@, event@),
    {
        let handlers = self.handlers(event.event_type);
        Dispatch { event, handlers }
    }
}

} // verus!
