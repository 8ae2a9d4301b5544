//! The application: the mounted widgets, the focus among them, the log of
//! commands, and what an event does to all of it.

use crate::client::data::{Data, DataView};
use crate::client::errors::{ErrorView, RedashError};
use crate::tui::events::{
    Event, EventData, EventDataView, EventHandler, EventType, EventView, Input,
};
use crate::tui::input_box::InputBox;
use crate::tui::renderer::{clip, clipped, DrawView, Renderer};
use crate::tui::selectable_list::{SelectableList, SelectableListView};
use crate::tui::{Component, Position, Widget, WidgetView};
use vstd::prelude::*;

verus! {

/// A command that the server answered, with the answer.
#[derive(Debug, PartialEq, Eq)]
pub struct CommandEntry {
    pub command: String,
    pub response: Data,
}

/// The mathematical content of a [`CommandEntry`].
pub struct CommandEntryView {
    pub command: Seq<char>,
    pub response: DataView,
}

impl View for CommandEntry {
    type V = CommandEntryView;

    open spec fn view(&self) -> CommandEntryView {
        CommandEntryView { command: self.command@, response: self.response@ }
    }
}

/// A command to put to the server, with the places of the two lists that
/// wait for the answer: the one that logs the commands, and the one that
/// shows the answer.
#[derive(Debug, PartialEq, Eq)]
pub struct Request {
    pub command: String,
    pub history: usize,
    pub result: usize,
}

/// The mathematical content of a [`Request`].
pub struct RequestView {
    pub command: Seq<char>,
    pub history: usize,
    pub result: usize,
}

impl View for Request {
    type V = RequestView;

    open spec fn view(&self) -> RequestView {
        RequestView { command: self.command@, history: self.history, result: self.result }
    }
}

/// The contents of a sequence of requests.
pub open spec fn request_views(requests: Seq<Request>) -> Seq<RequestView> {
    Seq::new(requests.len(), |i: int| requests[i]@)
}

/// The application.
#[derive(Debug)]
pub struct App {
    history_list: Vec<CommandEntry>,
    components: Vec<(Widget, Position)>,
    current_focus: usize,
}

/// The mathematical content of an [`App`]: the log of answered commands, the
/// widgets in the order in which they were mounted, each with its place, and
/// the index of the widget that has the focus.
pub struct AppView {
    pub history_list: Seq<CommandEntryView>,
    pub components: Seq<(WidgetView, (int, int))>,
    pub current_focus: usize,
}

/// An application after an event, and the commands that the event asks to
/// put to the server, in order.
pub struct Outcome {
    pub state: AppView,
    pub requests: Seq<RequestView>,
}

/// What a turn of the main loop comes to.
#[derive(Debug, PartialEq, Eq)]
pub enum Turn {
    /// The loop ends.
    Quit,
    /// The loop goes on, once these commands have been put to the server and
    /// the answers handed back.
    Continue(Vec<Request>),
}

/// The key that ends the session.
pub open spec fn quits(input: Option<Input>) -> bool {
    input == Some(Input::KeyDC)
}

/// The lines that show a value: one for each element of an array, one for
/// any other value.
pub open spec fn expansion(data: DataView) -> Seq<Seq<char>> {
    match data {
        DataView::Array(elements) => Seq::new(elements.len(), |i: int| elements[i].text()),
        _ => seq![data.text()],
    }
}

/// A list that shows `lines` and nothing else, from the top.
pub open spec fn showing(list: SelectableListView, lines: Seq<Seq<char>>) -> SelectableListView {
    SelectableListView { items: lines, value: 0, viewport_top: 0, ..list }
}

/// The index `k` places behind `base`, or the largest index there is.
pub open spec fn behind(base: nat, k: nat) -> usize {
    if base + k <= usize::MAX {
        (base + k) as usize
    } else {
        usize::MAX
    }
}

/// A fifth of `width`, rounded down.
pub open spec fn fifth(width: int) -> int {
    width / 5
}

/// Four fifths of `width`, rounded down.
pub open spec fn four_fifths(width: int) -> int {
    (4 * width) / 5
}

impl AppView {
    /// The application without widgets.
    pub open spec fn empty() -> AppView {
        AppView { history_list: Seq::empty(), components: Seq::empty(), current_focus: 0 }
    }

    /// The application with the widget at `i` replaced.
    pub open spec fn with_widget(self, i: int, widget: WidgetView) -> AppView {
        AppView { components: self.components.update(i, (widget, self.components[i].1)), ..self }
    }

    /// Whether a list is mounted at `i`.
    pub open spec fn is_list(self, i: int) -> bool {
        0 <= i < self.components.len() && self.components[i].0 is SelectableList
    }

    /// The list mounted at `i`.
    pub open spec fn list(self, i: int) -> SelectableListView {
        self.components[i].0->SelectableList_0
    }

    /// Whether an answer can be delivered to the lists at `history` and
    /// `result`: they are two lists, and neither is the widget at `source`,
    /// which is busy firing the event.
    pub open spec fn targets(self, source: int, history: int, result: int) -> bool {
        &&& self.is_list(history)
        &&& self.is_list(result)
        &&& history != result
        &&& history != source
        &&& result != source
    }

    /// The application with one more widget mounted. The first widget
    /// mounted takes the focus.
    pub open spec fn add_component(self, widget: WidgetView, position: (int, int)) -> AppView {
        if self.components.len() == 0 {
            AppView { components: seq![(widget.toggle_focus(), position)], ..self }
        } else {
            AppView { components: self.components.push((widget, position)), ..self }
        }
    }

    /// The index of the widget that has the focus.
    pub open spec fn focused(self) -> int {
        if self.current_focus < self.components.len() {
            self.current_focus as int
        } else {
            0
        }
    }

    /// The index of the widget that the focus passes to: the next one, and
    /// the first one after the last.
    pub open spec fn following(self) -> int {
        if self.focused() + 1 < self.components.len() {
            self.focused() + 1
        } else {
            0
        }
    }

    /// The application with the focus passed on: the widget that had it
    /// gives it up, the next takes it. Without widgets nothing changes.
    pub open spec fn focus_next(self) -> AppView {
        if self.components.len() == 0 {
            self
        } else {
            let left = self.with_widget(
                self.focused(),
                self.components[self.focused()].0.toggle_focus(),
            );
            let entered = left.with_widget(
                self.following(),
                left.components[self.following()].0.toggle_focus(),
            );
            AppView { current_focus: self.following() as usize, ..entered }
        }
    }

    /// The application after the list at `result` has been told to show the
    /// answer logged as entry `value`. Nothing happens where there is no such
    /// list, no such entry, or where the list is the one that asks.
    pub open spec fn recall(self, source: int, result: int, value: int) -> AppView {
        if self.is_list(result) && result != source && 0 <= value < self.history_list.len() {
            self.with_widget(
                result,
                WidgetView::SelectableList(
                    showing(self.list(result), expansion(self.history_list[value].response)),
                ),
            )
        } else {
            self
        }
    }

    /// What one handler does with the event that the widget at `source`
    /// fired. A submitted text becomes a request to the server; a changed
    /// selection brings the logged answer back into view.
    pub open spec fn invoke(self, source: int, handler: EventHandler, event: EventView) -> Outcome {
        match handler {
            EventHandler::Execute { history, result } => match event.event_data {
                EventDataView::String(command) => if self.targets(
                    source,
                    history as int,
                    result as int,
                ) {
                    Outcome { state: self, requests: seq![RequestView { command, history, result }] }
                } else {
                    Outcome { state: self, requests: Seq::empty() }
                },
                _ => Outcome { state: self, requests: Seq::empty() },
            },
            EventHandler::Recall { result } => match event.event_data {
                EventDataView::Number(value) => Outcome {
                    state: self.recall(source, result as int, value as int),
                    requests: Seq::empty(),
                },
                _ => Outcome { state: self, requests: Seq::empty() },
            },
        }
    }

    /// What the first `n` of `handlers` do, one after the other.
    pub open spec fn invoke_all(
        self,
        source: int,
        handlers: Seq<EventHandler>,
        event: EventView,
        n: nat,
    ) -> Outcome
        decreases n,
    {
        if n == 0 || n > handlers.len() {
            Outcome { state: self, requests: Seq::empty() }
        } else {
            let before = self.invoke_all(source, handlers, event, (n - 1) as nat);
            let last = before.state.invoke(source, handlers[n - 1], event);
            Outcome { state: last.state, requests: before.requests + last.requests }
        }
    }

    /// What an event does when it is handed to the widget at `i`: the widget
    /// reacts, and the handlers of the event that it fires in turn are
    /// invoked, all of them, before anything else happens.
    pub open spec fn deliver(self, i: int, event: EventView) -> Outcome {
        let reaction = self.components[i].0.trigger(event);
        let reacted = self.with_widget(i, reaction.state);
        match reaction.fired {
            Some(dispatch) => reacted.invoke_all(
                i,
                dispatch.handlers,
                dispatch.event,
                dispatch.handlers.len(),
            ),
            None => Outcome { state: reacted, requests: Seq::empty() },
        }
    }

    /// What an event does when it is handed to the first `n` widgets, in the
    /// order in which they were mounted.
    pub open spec fn broadcast(self, event: EventView, n: nat) -> Outcome
        decreases n,
    {
        if n == 0 || n > self.components.len() {
            Outcome { state: self, requests: Seq::empty() }
        } else {
            let before = self.broadcast(event, (n - 1) as nat);
            let last = before.state.deliver(n - 1, event);
            Outcome { state: last.state, requests: before.requests + last.requests }
        }
    }

    /// What an event does: every widget gets it, whether it has the focus or
    /// not.
    pub open spec fn trigger_event(self, event: EventView) -> Outcome {
        self.broadcast(event, self.components.len())
    }

    /// What the keyboard does. The tabulator passes the focus on. The keys
    /// that widgets know, and every other character, go to all widgets as a
    /// key press. Anything else is dropped.
    pub open spec fn handle_input(self, input: Input) -> Outcome {
        match input {
            Input::Character(c) => if c == '\t' {
                Outcome { state: self.focus_next(), requests: Seq::empty() }
            } else {
                self.trigger_event(
                    EventView { event_type: EventType::KeyPress, event_data: EventDataView::Char(c) },
                )
            },
            Input::KeyBackspace | Input::KeyUp | Input::KeyDown | Input::KeyEnter => self.trigger_event(
                EventView { event_type: EventType::KeyPress, event_data: EventDataView::Key(input) },
            ),
            _ => Outcome { state: self, requests: Seq::empty() },
        }
    }

    /// What a turn of the main loop does with what the keyboard delivered,
    /// if anything, unless that is the key that ends the session.
    pub open spec fn step(self, input: Option<Input>) -> Outcome {
        match input {
            Some(key) => self.handle_input(key),
            None => Outcome { state: self, requests: Seq::empty() },
        }
    }

    /// The application after the server's answer to a request has come.
    ///
    /// A value is shown in the list that waits for it, line by line; the
    /// command and the value are logged; and the list of commands gets the
    /// command as a new item and moves its selection on, without telling
    /// anyone. An error is shown in place of a value, and nothing is logged.
    /// Where the two lists are not there the answer is dropped.
    pub open spec fn complete(self, request: RequestView, response: Result<DataView, ErrorView>) -> AppView {
        let history = request.history as int;
        let result = request.result as int;
        if !self.targets(-1, history, result) {
            self
        } else {
            match response {
                Ok(data) => {
                    let shown = self.with_widget(
                        result,
                        WidgetView::SelectableList(showing(self.list(result), expansion(data))),
                    );
                    let logged = shown.with_widget(
                        history,
                        WidgetView::SelectableList(
                            self.list(history).append_items(request.command).next_item(),
                        ),
                    );
                    AppView {
                        history_list: self.history_list.push(
                            CommandEntryView { command: request.command, response: data },
                        ),
                        ..logged
                    }
                },
                Err(error) => self.with_widget(
                    result,
                    WidgetView::SelectableList(showing(self.list(result), seq![error.message()])),
                ),
            }
        }
    }

    /// The commands that draw the first `n` widgets.
    pub open spec fn bodies(self, n: nat) -> Seq<DrawView>
        decreases n,
    {
        if n == 0 || n > self.components.len() {
            Seq::empty()
        } else {
            self.bodies((n - 1) as nat) + self.components[n - 1].0.rendering(
                self.components[n - 1].1.0,
                self.components[n - 1].1.1,
            )
        }
    }

    /// The commands that place the cursor for the first `n` widgets.
    pub open spec fn cursors(self, n: nat) -> Seq<DrawView>
        decreases n,
    {
        if n == 0 || n > self.components.len() {
            Seq::empty()
        } else {
            self.cursors((n - 1) as nat) + self.components[n - 1].0.focus_rendering(
                self.components[n - 1].1.0,
                self.components[n - 1].1.1,
            )
        }
    }

    /// The commands that draw the screen: every widget, and only then the
    /// cursor, so that no widget's drawing moves it away again.
    pub open spec fn rendering(self) -> Seq<DrawView> {
        self.bodies(self.components.len()) + self.cursors(self.components.len())
    }

    /// The application with the three widgets of the client mounted on a
    /// screen of `screen_height` by `screen_width` cells, behind those that
    /// are there already: the box for commands and below it the list of the
    /// commands given, on the left fifth of the screen, and the list that
    /// shows the answer on the rest. Submitting the box's text runs it as a
    /// command; moving in the list of commands recalls the answer.
    pub open spec fn init(self, screen_height: int, screen_width: int) -> AppView {
        let base = self.components.len();
        let side = clip(fifth(screen_width));
        let input_box = WidgetView::InputBox(InputBox::created("Command"@, side)).add_event_listener(
            EventType::Submit,
            EventHandler::Execute { history: behind(base, 1), result: behind(base, 2) },
        );
        let command_list = WidgetView::SelectableList(
            SelectableList::created("History"@, side, clip(screen_height - 3), false),
        ).add_event_listener(
            EventType::ValueChange,
            EventHandler::Recall { result: behind(base, 2) },
        );
        let result_list = WidgetView::SelectableList(
            SelectableList::created(
                "Result"@,
                clip(four_fifths(screen_width) - 1),
                clip(screen_height),
                true,
            ),
        );
        self.add_component(input_box, (0, 0)).add_component(command_list, (3, 0)).add_component(
            result_list,
            (0, clip(side + 2) as int),
        )
    }
}

impl View for App {
    type V = AppView;

    closed spec fn view(&self) -> AppView {
        AppView {
            history_list: Seq::new(self.history_list.len() as nat, |i: int| self.history_list[i]@),
            components: Seq::new(
                self.components.len() as nat,
                |i: int| (self.components[i].0@, self.components[i].1@),
            ),
            current_focus: self.current_focus,
        }
    }
}

/// What a handler asked for: one request or none.
pub open spec fn asked(request: Option<Request>) -> Seq<RequestView> {
    match request {
        Some(r) => seq![r@],
        None => Seq::empty(),
    }
}

/// Shows `data` in `pane`, and nothing else.
pub fn show_data(pane: &mut SelectableList, data: &Data)
    ensures
        final(pane)@ == showing(old(pane)@, expansion(data@)),
{
    pane.clear();
    match data {
        Data::Array(array) => {
            let mut i: usize = 0;
            assert(pane@.items =~= expansion(data@).subrange(0, 0));
            while i < array.len()
                invariant
                    i <= array.len(),
                    data == Data::Array(*array),
                    expansion(data@).len() == array.len(),
                    pane@ == showing(old(pane)@, expansion(data@).subrange(0, i as int)),
                decreases array.len() - i,
            {
                pane.append_items(array[i].text());
                i = i + 1;
                assert(pane@.items =~= expansion(data@).subrange(0, i as int));
            }
            assert(expansion(data@).subrange(0, i as int) =~= expansion(data@));
        },
        _ => {
            pane.append_items(data.text());
            assert(pane@.items =~= expansion(data@));
        },
    }
}

/// Shows one line of text in `pane`, and nothing else.
pub fn show_text(pane: &mut SelectableList, text: String)
    ensures
        final(pane)@ == showing(old(pane)@, seq![text@]),
{
    pane.clear();
    pane.append_items(text);
    assert(pane@.items =~= seq![text@]);
}

fn offset(base: usize, k: usize) -> (r: usize)
    ensures
        r == behind(base as nat, k as nat),
{
    if k <= usize::MAX - base {
        base + k
    } else {
        usize::MAX
    }
}

fn floor_fifth(v: i64) -> (r: i64)
    requires
        -10000000000 <= v <= 10000000000,
    ensures
        r == v as int / 5,
{
    if v >= 0 {
        v / 5
    } else {
        -((4 - v) / 5)
    }
}

impl App {
    /// An application without widgets.
    pub fn new() -> (app: App)
        ensures
            app@ == AppView::empty(),
    {
        let app = App { history_list: Vec::new(), components: Vec::new(), current_focus: 0 };
        assert(app@.history_list =~= Seq::empty());
        assert(app@.components =~= Seq::empty());
        app
    }

    /// The log of the commands that were answered, oldest first.
    pub fn history_list(&self) -> (history_list: &Vec<CommandEntry>)
        ensures
            history_list.len() == self@.history_list.len(),
            forall|i: int| 0 <= i < history_list.len() ==> history_list[i]@ == self@.history_list[i],
    {
        &self.history_list
    }

    /// The widgets in the order in which they were mounted, with their places.
    pub fn components(&self) -> (components: &Vec<(Widget, Position)>)
        ensures
            components.len() == self@.components.len(),
            forall|i: int|
                0 <= i < components.len() ==> (components[i].0@, components[i].1@)
                    == self@.components[i],
    {
        &self.components
    }

    /// The index of the widget that has the focus.
    pub fn current_focus(&self) -> (current_focus: usize)
        ensures
            current_focus == self@.current_focus,
    {
        self.current_focus
    }

    /// Mounts the widgets of the client for a screen of `screen_height` by
    /// `screen_width` cells, and wires them.
    pub fn init(&mut self, screen_height: i32, screen_width: i32)
        ensures
            final(self)@ == old(self)@.init(screen_height as int, screen_width as int),
    {
        let base: usize = self.components.len();
        let side: i32 = clipped(floor_fifth(screen_width as i64) as i128);
        let rest: i32 = clipped(floor_fifth(4 * (screen_width as i64)) as i128 - 1);
        let mut input_box = Widget::InputBox(InputBox::new("Command", side));
        let mut command_list = Widget::SelectableList(
            SelectableList::new(
                "History",
                side,
                clipped(screen_height as i128 - 3),
                Vec::new(),
                false,
            ),
        );
        let result_list = Widget::SelectableList(
            SelectableList::new("Result", rest, screen_height, Vec::new(), true),
        );
        input_box.add_event_listener(
            EventType::Submit,
            EventHandler::Execute { history: offset(base, 1), result: offset(base, 2) },
        );
        command_list.add_event_listener(
            EventType::ValueChange,
            EventHandler::Recall { result: offset(base, 2) },
        );
        assert(command_list@->SelectableList_0.items =~= Seq::<Seq<char>>::empty());
        assert(result_list@->SelectableList_0.items =~= Seq::<Seq<char>>::empty());
        self.add_component(input_box, Position::new(0, 0));
        self.add_component(command_list, Position::new(3, 0));
        self.add_component(result_list, Position::new(0, clipped(side as i128 + 2)));
    }

    /// Hands what the keyboard delivered to the application, and returns the
    /// commands that it asks to put to the server.
    pub fn handle_input(&mut self, input: Input) -> (requests: Vec<Request>)
        ensures
            final(self)@ == old(self)@.handle_input(input).state,
            request_views(requests@) == old(self)@.handle_input(input).requests,
    {
        match input {
            Input::Character(c) => {
                if c == '\t' {
                    self.focus_next();
                    let requests: Vec<Request> = Vec::new();
                    assert(request_views(requests@) =~= Seq::<RequestView>::empty());
                    requests
                } else {
                    self.trigger_event(&Event::new(EventType::KeyPress, EventData::Char(c)))
                }
            },
            Input::KeyBackspace | Input::KeyUp | Input::KeyDown | Input::KeyEnter => {
                self.trigger_event(&Event::new(EventType::KeyPress, EventData::Key(input)))
            },
            _ => {
                let requests: Vec<Request> = Vec::new();
                assert(request_views(requests@) =~= Seq::<RequestView>::empty());
                requests
            },
        }
    }

    /// One turn of the main loop, after the screen has been drawn and the
    /// keyboard has been waited for: the key that ends the session ends the
    /// loop, and anything else is handled.
    pub fn step(&mut self, input: Option<Input>) -> (turn: Turn)
        ensures
            quits(input) ==> turn is Quit && final(self)@ == old(self)@,
            !quits(input) ==> (turn matches Turn::Continue(requests) && final(self)@ == old(
                self,
            )@.step(input).state && request_views(requests@) == old(self)@.step(input).requests),
    {
        match input {
            Some(Input::KeyDC) => Turn::Quit,
            Some(key) => Turn::Continue(self.handle_input(key)),
            None => {
                let requests: Vec<Request> = Vec::new();
                assert(request_views(requests@) =~= Seq::<RequestView>::empty());
                Turn::Continue(requests)
            },
        }
    }

    /// Mounts a widget at a place.
    pub fn add_component(&mut self, component: Widget, position: Position)
        ensures
            final(self)@ == old(self)@.add_component(component@, position@),
    {
        let is_empty: bool = self.components.len() == 0;
        let mut mounted = component;
        if is_empty {
            // the first widget takes the focus
            mounted.toggle_focus();
        }
        self.components.push((mounted, position));
        assert(self@.components =~= old(self)@.components.push((mounted@, position@)));
        assert(self@.components =~= old(self)@.add_component(component@, position@).components);
        assert(self@.history_list =~= old(self)@.history_list);
    }

    /// Draws the screen.
    pub fn render(&self) -> (renderer: Renderer)
        ensures
            renderer.drawn() == self@.rendering(),
    {
        let mut renderer = Renderer::new();
        let total: usize = self.components.len();
        let mut i: usize = 0;
        while i < total
            invariant
                i <= total == self.components.len(),
                renderer.drawn() == self@.bodies(i as nat),
            decreases total - i,
        {
            self.components[i].0.render(&mut renderer, &self.components[i].1);
            i = i + 1;
        }
        let mut j: usize = 0;
        assert(renderer.drawn() =~= self@.bodies(total as nat) + self@.cursors(0));
        while j < total
            invariant
                j <= total == self.components.len(),
                renderer.drawn() == self@.bodies(total as nat) + self@.cursors(j as nat),
            decreases total - j,
        {
            self.components[j].0.render_focus(&mut renderer, &self.components[j].1);
            j = j + 1;
            assert(renderer.drawn() =~= self@.bodies(total as nat) + self@.cursors(j as nat));
        }
        renderer
    }

    fn is_list(&self, i: usize) -> (r: bool)
        ensures
            r == self@.is_list(i as int),
    {
        if i < self.components.len() {
            match &self.components[i].0 {
                Widget::SelectableList(_) => true,
                _ => false,
            }
        } else {
            false
        }
    }

    fn targets(&self, source: Option<usize>, history: usize, result: usize) -> (r: bool)
        ensures
            r == self@.targets(
                match source {
                    Some(i) => i as int,
                    None => -1,
                },
                history as int,
                result as int,
            ),
    {
        let apart: bool = match source {
            Some(i) => history != i && result != i,
            None => true,
        };
        apart && history != result && self.is_list(history) && self.is_list(result)
    }

    fn recall(&mut self, source: usize, result: usize, value: i32)
        ensures
            final(self)@ == old(self)@.recall(source as int, result as int, value as int),
    {
        if value < 0 || value as usize >= self.history_list.len() || result == source
            || !self.is_list(result) {
            return ;
        }
        let entry = &self.history_list[value as usize];
        match &mut self.components[result].0 {
            Widget::SelectableList(pane) => {
                show_data(pane, &entry.response);
            },
            _ => {},
        }
        assert(self@.components =~= old(self)@.recall(
            source as int,
            result as int,
            value as int,
        ).components);
        assert(self@.history_list =~= old(self)@.history_list);
    }

    fn invoke(&mut self, source: usize, handler: EventHandler, event: &Event) -> (request: Option<
        Request,
    >)
        ensures
            final(self)@ == old(self)@.invoke(source as int, handler, event@).state,
            asked(request) == old(self)@.invoke(source as int, handler, event@).requests,
    {
        match handler {
            EventHandler::Execute { history, result } => match &event.event_data {
                EventData::String(command) => {
                    if self.targets(Some(source), history, result) {
                        Some(Request { command: command.clone(), history, result })
                    } else {
                        None
                    }
                },
                _ => None,
            },
            EventHandler::Recall { result } => match &event.event_data {
                EventData::Number(value) => {
                    self.recall(source, result, *value);
                    None
                },
                _ => None,
            },
        }
    }

    fn deliver(&mut self, i: usize, event: &Event, requests: &mut Vec<Request>)
        requires
            i < old(self)@.components.len(),
        ensures
            final(self)@ == old(self)@.deliver(i as int, event@).state,
            request_views(final(requests)@) == request_views(old(requests)@) + old(self)@.deliver(
                i as int,
                event@,
            ).requests,
    {
        let triggered = self.components[i].0.trigger(event);
        let ghost reacted = old(self)@.with_widget(
            i as int,
            old(self)@.components[i as int].0.trigger(event@).state,
        );
        assert(self@.components =~= reacted.components);
        assert(self@.history_list =~= reacted.history_list);
        match triggered.fired {
            Some(dispatch) => {
                let total: usize = dispatch.handlers.len();
                let mut k: usize = 0;
                assert(request_views(requests@) =~= request_views(old(requests)@)
                    + Seq::<RequestView>::empty());
                while k < total
                    invariant
                        k <= total == dispatch.handlers.len(),
                        self@ == reacted.invoke_all(
                            i as int,
                            dispatch@.handlers,
                            dispatch@.event,
                            k as nat,
                        ).state,
                        request_views(requests@) == request_views(old(requests)@)
                            + reacted.invoke_all(
                            i as int,
                            dispatch@.handlers,
                            dispatch@.event,
                            k as nat,
                        ).requests,
                    decreases total - k,
                {
                    let ghost before = request_views(requests@);
                    match self.invoke(i, dispatch.handlers[k], &dispatch.event) {
                        Some(request) => {
                            requests.push(request);
                            assert(request_views(requests@) =~= before + seq![request@]);
                        },
                        None => {
                            assert(request_views(requests@) =~= before + Seq::<
                                RequestView,
                            >::empty());
                        },
                    }
                    k = k + 1;
                }
            },
            None => {
                assert(request_views(requests@) =~= request_views(old(requests)@)
                    + Seq::<RequestView>::empty());
            },
        }
    }

    /// Hands an event to every widget, in the order in which they were
    /// mounted, and returns the commands that it asks to put to the server.
    pub fn trigger_event(&mut self, event: &Event) -> (requests: Vec<Request>)
        ensures
            final(self)@ == old(self)@.trigger_event(event@).state,
            request_views(requests@) == old(self)@.trigger_event(event@).requests,
    {
        let mut requests: Vec<Request> = Vec::new();
        let total: usize = self.components.len();
        let mut i: usize = 0;
        assert(request_views(requests@) =~= Seq::<RequestView>::empty());
        while i < total
            invariant
                i <= total == old(self)@.components.len(),
                self@.components.len() == total,
                self@ == old(self)@.broadcast(event@, i as nat).state,
                request_views(requests@) == old(self)@.broadcast(event@, i as nat).requests,
            decreases total - i,
        {
            self.deliver(i, event, &mut requests);
            proof {
                lemma_deliver_keeps_frame(
                    old(self)@.broadcast(event@, i as nat).state,
                    i as int,
                    event@,
                );
            }
            i = i + 1;
        }
        requests
    }

    /// Passes the focus on to the next widget, and from the last to the first.
    pub fn focus_next(&mut self)
        ensures
            final(self)@ == old(self)@.focus_next(),
    {
        let total_component: usize = self.components.len();
        if total_component == 0 {
            return ;
        }
        let current: usize = if self.current_focus < total_component {
            self.current_focus
        } else {
            0
        };
        self.components[current].0.toggle_focus();
        let next: usize = if current + 1 < total_component {
            current + 1
        } else {
            0
        };
        self.current_focus = next;
        self.components[next].0.toggle_focus();
        assert(self@.components =~= old(self)@.focus_next().components);
        assert(self@.history_list =~= old(self)@.history_list);
    }

    /// Takes the server's answer to a request.
    pub fn complete(&mut self, request: Request, response: Result<Data, RedashError>)
        ensures
            final(self)@ == old(self)@.complete(
                request@,
                match response {
                    Ok(data) => Ok(data@),
                    Err(error) => Err(error@),
                },
            ),
    {
        if !self.targets(None, request.history, request.result) {
            return ;
        }
        match response {
            Ok(data) => {
                match &mut self.components[request.result].0 {
                    Widget::SelectableList(pane) => {
                        show_data(pane, &data);
                    },
                    _ => {},
                }
                match &mut self.components[request.history].0 {
                    Widget::SelectableList(log) => {
                        log.append_items(request.command.clone());
                        let _ = log.next_item();
                    },
                    _ => {},
                }
                self.history_list.push(CommandEntry { command: request.command, response: data });
                let ghost expected = old(self)@.complete(request@, Ok(data@));
                assert(self@.components =~= expected.components);
                assert(self@.history_list =~= expected.history_list);
            },
            Err(error) => {
                match &mut self.components[request.result].0 {
                    Widget::SelectableList(pane) => {
                        show_text(pane, error.message());
                    },
                    _ => {},
                }
                let ghost expected = old(self)@.complete(request@, Err(error@));
                assert(self@.components =~= expected.components);
                assert(self@.history_list =~= expected.history_list);
            },
        }
    }
}

/// Whether the application is the client as it is wired: the box for
/// commands first, focused and in insert mode, then the list of commands and
/// the list for the answer, and submissions of the box run as commands.
pub open spec fn awaits_command(app: AppView) -> bool {
    &&& app.components.len() == 3
    &&& app.components[0].0 matches WidgetView::InputBox(input_box)
    &&& input_box.is_focus
    &&& input_box.insert_mode
    &&& input_box.event_listeners[EventType::Submit] == seq![
        EventHandler::Execute { history: 1, result: 2 },
    ]
    &&& app.components[1].0 matches WidgetView::SelectableList(commands)
    &&& !commands.is_focus
    &&& app.components[2].0 matches WidgetView::SelectableList(answer)
    &&& !answer.is_focus
}

/// The client as it starts awaits a command as soon as `i` has taken its box
/// into insert mode.
pub proof fn lemma_started_client_awaits_command(screen_height: int, screen_width: int)
    ensures
        awaits_command(
            AppView::empty().init(screen_height, screen_width).handle_input(
                Input::Character('i'),
            ).state,
        ),
{
    let started = AppView::empty().init(screen_height, screen_width);
    let event = EventView { event_type: EventType::KeyPress, event_data: EventDataView::Char('i') };
    reveal_with_fuel(AppView::broadcast, 4);
    reveal_with_fuel(AppView::invoke_all, 2);
    let first = started.deliver(0, event);
    let second = first.state.deliver(1, event);
    let third = second.state.deliver(2, event);
    assert(second.state.components =~= first.state.components);
    assert(third.state.components =~= first.state.components);
}

/// From the Enter key to the answer on the screen: the text of the box is
/// asked to be run as one command; and once the server has answered with a
/// value, the value is logged with the command as one more entry, the list
/// for the answer shows the value and nothing else, and the list of commands
/// has the command as its newest item.
pub proof fn lemma_command_round_trip(app: AppView, data: DataView)
    requires
        awaits_command(app),
    ensures
        ({
            let command = app.components[0].0->InputBox_0.value;
            let asked = app.handle_input(Input::Character('\n'));
            let request = RequestView { command, history: 1, result: 2 };
            let answered = asked.state.complete(request, Ok(data));
            &&& asked.requests == seq![request]
            &&& asked.state.history_list == app.history_list
            &&& answered.history_list == app.history_list.push(
                CommandEntryView { command, response: data },
            )
            &&& answered.list(2).items == expansion(data)
            &&& answered.list(1).items == app.list(1).items.push(command)
        }),
{
    let event = EventView {
        event_type: EventType::KeyPress,
        event_data: EventDataView::Char('\n'),
    };
    reveal_with_fuel(AppView::broadcast, 4);
    reveal_with_fuel(AppView::invoke_all, 2);
    let first = app.deliver(0, event);
    let input_box = app.components[0].0->InputBox_0;
    let reaction = app.components[0].0.trigger(event);
    assert(reaction.fired == Some(input_box.submitted()));
    let reacted = app.with_widget(0, reaction.state);
    assert(reacted.targets(0, 1, 2));
    let second = first.state.deliver(1, event);
    let third = second.state.deliver(2, event);
    assert(second.state.components =~= first.state.components);
    assert(third.state.components =~= first.state.components);
    assert(first.requests + second.requests + third.requests =~= first.requests);
    assert(Seq::<RequestView>::empty() + first.requests =~= first.requests);
}

/// Whether `after` has the widgets of `before` in their places, the same
/// log and the same focus: whether it differs in nothing but what its
/// widgets hold.
pub open spec fn same_frame(before: AppView, after: AppView) -> bool {
    &&& after.components.len() == before.components.len()
    &&& forall|i: int|
        0 <= i < before.components.len() ==> (#[trigger] after.components[i]).1
            == before.components[i].1
    &&& after.history_list == before.history_list
    &&& after.current_focus == before.current_focus
}

/// No handler mounts, unmounts or moves a widget, logs a command or passes
/// the focus on.
pub proof fn lemma_invoke_all_keeps_frame(
    app: AppView,
    source: int,
    handlers: Seq<EventHandler>,
    event: EventView,
    n: nat,
)
    ensures
        same_frame(app, app.invoke_all(source, handlers, event, n).state),
    decreases n,
{
    if n > 0 && n <= handlers.len() {
        lemma_invoke_all_keeps_frame(app, source, handlers, event, (n - 1) as nat);
    }
}

/// Nor does an event that is handed to a widget.
pub proof fn lemma_deliver_keeps_frame(app: AppView, i: int, event: EventView)
    requires
        0 <= i < app.components.len(),
    ensures
        same_frame(app, app.deliver(i, event).state),
{
    let reaction = app.components[i].0.trigger(event);
    let reacted = app.with_widget(i, reaction.state);
    if let Some(dispatch) = reaction.fired {
        lemma_invoke_all_keeps_frame(
            reacted,
            i,
            dispatch.handlers,
            dispatch.event,
            dispatch.handlers.len(),
        );
    }
}

/// Nor does an event that is handed to the first `n` widgets.
pub proof fn lemma_broadcast_keeps_frame(app: AppView, event: EventView, n: nat)
    ensures
        same_frame(app, app.broadcast(event, n).state),
    decreases n,
{
    if n > 0 && n <= app.components.len() {
        lemma_broadcast_keeps_frame(app, event, (n - 1) as nat);
        lemma_deliver_keeps_frame(app.broadcast(event, (n - 1) as nat).state, n - 1, event);
    }
}

/// A place is given to a widget when it is mounted and stays its place; and
/// the log of commands only grows, by the commands that the server answered
/// with a value: whatever the keyboard delivers changes neither, and an
/// answer leaves the places alone and adds at most its own entry to the log.
pub proof fn lemma_places_stay_and_log_grows(
    app: AppView,
    input: Input,
    request: RequestView,
    response: Result<DataView, ErrorView>,
)
    ensures
        app.handle_input(input).state.components.len() == app.components.len(),
        forall|i: int|
            0 <= i < app.components.len() ==> (#[trigger] app.handle_input(
                input,
            ).state.components[i]).1 == app.components[i].1,
        app.handle_input(input).state.history_list == app.history_list,
        app.complete(request, response).components.len() == app.components.len(),
        forall|i: int|
            0 <= i < app.components.len() ==> (#[trigger] app.complete(
                request,
                response,
            ).components[i]).1 == app.components[i].1,
        app.complete(request, response).history_list == app.history_list || (response matches Ok(
            data,
        ) && app.complete(request, response).history_list == app.history_list.push(
            CommandEntryView { command: request.command, response: data },
        )),
{
    let key = EventView { event_type: EventType::KeyPress, event_data: EventDataView::Key(input) };
    lemma_broadcast_keeps_frame(app, key, app.components.len());
    if let Input::Character(c) = input {
        let typed = EventView { event_type: EventType::KeyPress, event_data: EventDataView::Char(c) };
        lemma_broadcast_keeps_frame(app, typed, app.components.len());
    }
}

} // verus!
