//! A framed list of lines with a selection and a window that follows it.

use crate::tui::events::{
    fired, nobody, ComponentType, Dispatch, DispatchView, Event, EventData, EventDataView,
    EventHandler, EventListeners, EventType, EventView, Input, Reaction, Triggered,
};
use crate::tui::renderer::{
    box_ops, clear_ops, clip, clipped, span, spanned, string_ops, Draw, DrawView, RenderBox,
    Renderer, TextStyle,
};
use crate::tui::{Component, Position};
use vstd::prelude::*;
use vstd::string::StringExecFns;

verus! {

/// A list of lines of which as many are shown as fit the frame. One line is
/// selected. A list can be interactive: the keys move the selection line by
/// line, and every move is told to the listeners. Or it is disabled: a pane
/// to read, which the keys page through in silence.
#[derive(Debug)]
pub struct SelectableList {
    label: String,
    width: i32,
    height: i32,
    viewport_top: i32,
    value: i32,
    items: Vec<String>,
    is_focus: bool,
    is_disabled: bool,
    event_listeners: EventListeners,
}

/// The mathematical content of a [`SelectableList`].
pub struct SelectableListView {
    pub label: Seq<char>,
    pub width: i32,
    pub height: i32,
    pub viewport_top: i32,
    pub value: i32,
    pub items: Seq<Seq<char>>,
    pub is_focus: bool,
    pub is_disabled: bool,
    pub event_listeners: Map<EventType, Seq<EventHandler>>,
}

/// `v`, or the bound that it is beyond.
pub open spec fn clamp(v: int, low: int, high: int) -> int {
    if v < low {
        low
    } else if v > high {
        high
    } else {
        v
    }
}

impl SelectableListView {
    /// The number of lines inside the frame.
    pub open spec fn visible_rows(self) -> int {
        self.height - 2
    }

    /// The last line that can be selected: the last item, the first line
    /// where there is no item.
    pub open spec fn last(self) -> int {
        clamp(self.items.len() - 1, 0, i32::MAX as int)
    }

    /// The furthest that the window can be scrolled: so far that the last
    /// item is its last line.
    pub open spec fn max_scroll(self) -> int {
        clamp(self.items.len() - self.visible_rows(), 0, i32::MAX as int)
    }

    /// What holds of every list: the selection is at an item, and the window
    /// is not scrolled beyond the items.
    pub open spec fn bounded(self) -> bool {
        &&& 0 <= self.value <= self.last()
        &&& 0 <= self.viewport_top <= self.max_scroll()
    }

    /// Whether the selection is inside the window.
    pub open spec fn selection_visible(self) -> bool {
        self.viewport_top <= self.value < self.viewport_top + self.visible_rows()
    }

    /// Whether `other` is this list but for its selection and its window.
    pub open spec fn moved_to(self, other: SelectableListView) -> bool {
        other == (SelectableListView {
            value: other.value,
            viewport_top: other.viewport_top,
            ..self
        })
    }

    /// How far one key moves: one line in an interactive list, a page in a
    /// disabled one, that is one line less than the window holds.
    pub open spec fn step(self) -> int {
        if self.is_disabled {
            clamp(self.visible_rows() - 1, 0, i32::MAX as int)
        } else {
            1
        }
    }

    /// The list with its window scrolled to `scroll_top`, as far as the
    /// items allow.
    pub open spec fn set_scroll(self, scroll_top: int) -> SelectableListView {
        SelectableListView {
            viewport_top: clamp(scroll_top, 0, self.max_scroll()) as i32,
            ..self
        }
    }

    /// The list with one more item at its end.
    pub open spec fn append_items(self, item: Seq<char>) -> SelectableListView {
        SelectableListView { items: self.items.push(item), ..self }
    }

    /// The list without items, its selection and window back at the top.
    pub open spec fn clear(self) -> SelectableListView {
        SelectableListView { items: Seq::empty(), value: 0, viewport_top: 0, ..self }
    }

    /// The list after a move down: the selection a step further, but not
    /// beyond the last item; and where that takes it below the window, the
    /// window a step further too.
    pub open spec fn next_item(self) -> SelectableListView {
        let value = clamp(self.value + self.step(), 0, self.last());
        let moved = SelectableListView { value: value as i32, ..self };
        if value >= self.viewport_top + self.visible_rows() {
            moved.set_scroll(self.viewport_top + self.step())
        } else {
            moved
        }
    }

    /// The list after a move up: the selection a step back, but not before
    /// the first item; and where that takes it above the window, the window
    /// a step back too.
    pub open spec fn prev_item(self) -> SelectableListView {
        let value = clamp(self.value - self.step(), 0, self.last());
        let moved = SelectableListView { value: value as i32, ..self };
        if value < self.viewport_top {
            moved.set_scroll(self.viewport_top - self.step())
        } else {
            moved
        }
    }

    /// The list after `n` moves down.
    pub open spec fn moved_down(self, n: nat) -> SelectableListView
        decreases n,
    {
        if n == 0 {
            self
        } else {
            self.moved_down((n - 1) as nat).next_item()
        }
    }

    /// The event that tells the listeners which line is selected.
    pub open spec fn value_changed(self) -> DispatchView {
        fired(
            self.event_listeners,
            EventView {
                event_type: EventType::ValueChange,
                event_data: EventDataView::Number(self.value),
            },
        )
    }

    /// What a list that has just moved fires: an interactive list tells its
    /// selection, a disabled one nothing.
    pub open spec fn told(self) -> Option<DispatchView> {
        if self.is_disabled {
            None
        } else {
            Some(self.value_changed())
        }
    }

    /// What an event does to the list. A list without the focus ignores it;
    /// one that has it moves on the arrow keys.
    pub open spec fn trigger(self, event: EventView) -> Reaction<SelectableListView> {
        if !self.is_focus {
            Reaction { state: self, consumed: false, fired: None }
        } else if event.event_type == EventType::KeyPress {
            match event.event_data {
                EventDataView::Key(Input::KeyUp) => Reaction {
                    state: self.prev_item(),
                    consumed: true,
                    fired: self.prev_item().told(),
                },
                EventDataView::Key(Input::KeyDown) => Reaction {
                    state: self.next_item(),
                    consumed: true,
                    fired: self.next_item().told(),
                },
                _ => Reaction { state: self, consumed: false, fired: None },
            }
        } else if event.event_type == EventType::Focus {
            Reaction { state: self, consumed: true, fired: None }
        } else {
            Reaction { state: self, consumed: false, fired: None }
        }
    }

    /// Whether there are more items than lines to show them.
    pub open spec fn is_overflow(self) -> bool {
        self.height >= 2 && self.items.len() > self.height - 2
    }

    /// The first item shown.
    pub open spec fn first_shown(self) -> int {
        if self.is_overflow() {
            self.viewport_top as int
        } else {
            0
        }
    }

    /// The number of items shown: those that the window holds, and all of
    /// them where all fit.
    pub open spec fn count_shown(self) -> nat {
        if self.is_overflow() {
            clamp(self.items.len() - self.viewport_top, 0, self.visible_rows()) as nat
        } else {
            self.items.len()
        }
    }

    /// The style of the `i`-th line shown: bold for the selected line of an
    /// interactive list.
    pub open spec fn style(self, i: int) -> TextStyle {
        if !self.is_disabled && i + self.viewport_top == self.value {
            TextStyle::Bold
        } else {
            TextStyle::Normal
        }
    }

    /// The commands that draw the first `n` lines shown.
    pub open spec fn rows(self, top: int, left: int, n: nat) -> Seq<DrawView>
        decreases n,
    {
        if n == 0 {
            Seq::empty()
        } else {
            self.rows(top, left, (n - 1) as nat) + string_ops(
                self.items[self.first_shown() + n - 1],
                self.style(n - 1),
                false,
                RenderBox {
                    top: span(top + n),
                    left: span(left + 1),
                    width: span(self.width - 3),
                    height: 0,
                },
            )
        }
    }

    /// The command that asks for the scroll bar, where there are more items
    /// than lines: it runs down the right border, and its thumb stands at
    /// the window's offset out of the furthest offset there is.
    pub open spec fn scrollbar(self, top: int, left: int) -> Seq<DrawView> {
        if self.is_overflow() {
            seq![
                DrawView::Scrollbar {
                    area: RenderBox {
                        top: span(top + 1),
                        left: span(left + self.width - 1),
                        width: 0,
                        height: span(self.height - 3),
                    },
                    offset: self.viewport_top,
                    range: clip(self.items.len() - self.height + 2),
                },
            ]
        } else {
            Seq::empty()
        }
    }

    /// The commands that draw the frame, the label on it, and a blank inside.
    pub open spec fn frame(self, top: int, left: int) -> Seq<DrawView> {
        box_ops(
            RenderBox {
                top: span(top),
                left: span(left),
                width: span(self.width as int),
                height: span(self.height as int),
            },
        ) + string_ops(
            self.label,
            TextStyle::Normal,
            self.is_focus,
            RenderBox {
                top: span(top),
                left: (span(left) + 2) as usize,
                width: span(self.width - 2),
                height: 0,
            },
        ) + clear_ops(
            RenderBox {
                top: span(top + 1),
                left: span(left + 1),
                width: span(self.width - 2),
                height: span(self.height - 2),
            },
        )
    }

    /// The commands that draw the list at `top`, `left`: the frame, the
    /// scroll bar where it is needed, and the items in the window.
    pub open spec fn rendering(self, top: int, left: int) -> Seq<DrawView> {
        self.frame(top, left) + self.scrollbar(top, left) + self.rows(
            top,
            left,
            self.count_shown(),
        )
    }

    /// The commands that hide the cursor and park it at the selected line,
    /// for a list that has the focus; none for one that has not.
    pub open spec fn focus_rendering(self, top: int, left: int) -> Seq<DrawView> {
        if self.is_focus {
            seq![
                DrawView::Cursor(false),
                DrawView::Move {
                    row: clip(top + 1 + self.value - self.viewport_top),
                    column: clip(left + 1),
                },
            ]
        } else {
            Seq::empty()
        }
    }
}

/// A move down keeps the selection at an item and the window within the
/// items.
pub proof fn lemma_next_item_bounded(list: SelectableListView)
    requires
        list.bounded(),
    ensures
        list.next_item().bounded(),
        list.moved_to(list.next_item()),
{
}

/// A move up keeps the selection at an item and the window within the items.
pub proof fn lemma_prev_item_bounded(list: SelectableListView)
    requires
        list.bounded(),
    ensures
        list.prev_item().bounded(),
        list.moved_to(list.prev_item()),
{
}

/// However often a list of `N` items is moved down, the selection does not
/// pass the last item, and the window stays between 0 and `N` less the
/// lines shown, or at 0 where all items fit.
pub proof fn lemma_moved_down_bounded(list: SelectableListView, n: nat)
    requires
        list.bounded(),
        list.items.len() >= 1,
    ensures
        list.moved_to(list.moved_down(n)),
        0 <= list.moved_down(n).value <= list.items.len() - 1,
        0 <= list.moved_down(n).viewport_top,
        list.moved_down(n).viewport_top <= if list.items.len() >= list.visible_rows() {
            list.items.len() - list.visible_rows()
        } else {
            0
        },
        list.moved_down(n).bounded(),
    decreases n,
{
    if n > 0 {
        lemma_moved_down_bounded(list, (n - 1) as nat);
        lemma_next_item_bounded(list.moved_down((n - 1) as nat));
    }
}

/// A move down of a list whose selection is in its window leaves the
/// selection in the window, where the window has a line at all.
pub proof fn lemma_next_item_visible(list: SelectableListView)
    requires
        list.bounded(),
        list.selection_visible(),
        list.items.len() <= i32::MAX,
    ensures
        list.next_item().selection_visible(),
{
}

/// A move up of a list whose selection is in its window leaves the selection
/// in the window.
pub proof fn lemma_prev_item_visible(list: SelectableListView)
    requires
        list.bounded(),
        list.selection_visible(),
        list.items.len() <= i32::MAX,
    ensures
        list.prev_item().selection_visible(),
{
}

impl View for SelectableList {
    type V = SelectableListView;

    closed spec fn view(&self) -> SelectableListView {
        SelectableListView {
            label: self.label@,
            width: self.width,
            height: self.height,
            viewport_top: self.viewport_top,
            value: self.value,
            items: Seq::new(self.items.len() as nat, |i: int| self.items[i]@),
            is_focus: self.is_focus,
            is_disabled: self.is_disabled,
            event_listeners: self.event_listeners@,
        }
    }
}

fn clamped(v: i128, low: i128, high: i128) -> (r: i128)
    ensures
        r == clamp(v as int, low as int, high as int),
{
    if v < low {
        low
    } else if v > high {
        high
    } else {
        v
    }
}

impl SelectableList {
    #[verifier::type_invariant]
    spec fn within(self) -> bool {
        self@.bounded()
    }

    /// An empty list as it is made: in a frame of `width` by `height`
    /// cells, without the focus, and nobody listens to it.
    pub open spec fn created(label: Seq<char>, width: i32, height: i32, is_disabled: bool) -> SelectableListView {
        SelectableListView {
            label,
            width,
            height,
            viewport_top: 0,
            value: 0,
            items: Seq::empty(),
            is_focus: false,
            is_disabled,
            event_listeners: nobody(),
        }
    }

    /// A list of `items`, its first line selected.
    pub fn new(label: &str, width: i32, height: i32, items: Vec<String>, is_disabled: bool) -> (list:
        SelectableList)
        ensures
            list@ == (SelectableListView {
                items: Seq::new(items.len() as nat, |i: int| items[i]@),
                ..Self::created(label@, width, height, is_disabled)
            }),
            list@.bounded(),
    {
        SelectableList {
            label: String::from_str(label),
            width,
            height,
            viewport_top: 0,
            value: 0,
            items,
            is_focus: false,
            is_disabled,
            event_listeners: EventListeners::new(),
        }
    }

    fn is_overflow(&self) -> (r: bool)
        ensures
            r == self@.is_overflow(),
    {
        self.height >= 2 && self.items.len() as i128 > self.height as i128 - 2
    }

    fn last(&self) -> (r: i128)
        ensures
            r == self@.last(),
    {
        clamped(self.items.len() as i128 - 1, 0, 2147483647)
    }

    fn max_scroll(&self) -> (r: i128)
        ensures
            r == self@.max_scroll(),
    {
        clamped(self.items.len() as i128 - (self.height as i128 - 2), 0, 2147483647)
    }

    fn step(&self) -> (r: i128)
        ensures
            r == self@.step(),
    {
        if self.is_disabled {
            clamped(self.height as i128 - 3, 0, 2147483647)
        } else {
            1
        }
    }

    /// The items, first to last.
    pub fn items(&self) -> (items: &Vec<String>)
        ensures
            items.len() == self@.items.len(),
            forall|i: int| 0 <= i < items.len() ==> items[i]@ == self@.items[i],
    {
        &self.items
    }

    /// The line selected.
    pub fn value(&self) -> (value: i32)
        ensures
            value == self@.value,
            self@.bounded(),
    {
        proof {
            use_type_invariant(self);
        }
        self.value
    }

    /// The first line of the window.
    pub fn viewport_top(&self) -> (viewport_top: i32)
        ensures
            viewport_top == self@.viewport_top,
            self@.bounded(),
    {
        proof {
            use_type_invariant(self);
        }
        self.viewport_top
    }

    /// Whether the list has the focus.
    pub fn is_focus(&self) -> (is_focus: bool)
        ensures
            is_focus == self@.is_focus,
    {
        self.is_focus
    }

    /// Adds an item at the end.
    pub fn append_items(&mut self, item: String)
        ensures
            final(self)@ == old(self)@.append_items(item@),
            final(self)@.bounded(),
    {
        proof {
            use_type_invariant(&*self);
        }
        // the list is taken apart and put together again around the change,
        // so that what holds of every list holds at every step
        let mut list = SelectableList::new("", 0, 0, Vec::new(), false);
        core::mem::swap(self, &mut list);
        let SelectableList {
            label,
            width,
            height,
            viewport_top,
            value,
            mut items,
            is_focus,
            is_disabled,
            event_listeners,
        } = list;
        items.push(item);
        *self = SelectableList {
            label,
            width,
            height,
            viewport_top,
            value,
            items,
            is_focus,
            is_disabled,
            event_listeners,
        };
        assert(self@.items =~= old(self)@.items.push(item@));
    }

    /// Removes the items, and takes selection and window back to the top.
    pub fn clear(&mut self)
        ensures
            final(self)@ == old(self)@.clear(),
            final(self)@.bounded(),
    {
        proof {
            use_type_invariant(&*self);
        }
        self.value = 0;
        self.viewport_top = 0;
        self.items = Vec::new();
        assert(self@.items =~= Seq::<Seq<char>>::empty());
    }

    /// Scrolls the window to `scroll_top`, or as near to it as the items allow.
    pub fn set_scroll(&mut self, scroll_top: i32)
        ensures
            final(self)@ == old(self)@.set_scroll(scroll_top as int),
            final(self)@.bounded(),
    {
        proof {
            use_type_invariant(&*self);
        }
        self.viewport_top = clamped(scroll_top as i128, 0, self.max_scroll()) as i32;
    }

    /// Moves the selection down, and the window with it where it has to
    /// follow. An interactive list fires the event that tells its selection.
    pub fn next_item(&mut self) -> (told: Option<Dispatch>)
        ensures
            final(self)@ == old(self)@.next_item(),
            final(self)@.bounded(),
            match told {
                Some(dispatch) => final(self)@.told() == Some(dispatch@),
                None => final(self)@.told() is None,
            },
    {
        proof {
            use_type_invariant(&*self);
        }
        let delta: i128 = self.step();
        let value: i128 = clamped(self.value as i128 + delta, 0, self.last());
        let scroll: i128 = clamped(self.viewport_top as i128 + delta, 0, self.max_scroll());
        let follows: bool = value >= self.viewport_top as i128 + (self.height as i128 - 2);
        self.value = value as i32;
        if follows {
            self.viewport_top = scroll as i32;
        }
        if !self.is_disabled {
            Some(self.value_changed())
        } else {
            None
        }
    }

    /// Moves the selection up, and the window with it where it has to
    /// follow. An interactive list fires the event that tells its selection.
    pub fn prev_item(&mut self) -> (told: Option<Dispatch>)
        ensures
            final(self)@ == old(self)@.prev_item(),
            final(self)@.bounded(),
            match told {
                Some(dispatch) => final(self)@.told() == Some(dispatch@),
                None => final(self)@.told() is None,
            },
    {
        proof {
            use_type_invariant(&*self);
        }
        let delta: i128 = self.step();
        let value: i128 = clamped(self.value as i128 - delta, 0, self.last());
        let scroll: i128 = clamped(self.viewport_top as i128 - delta, 0, self.max_scroll());
        let follows: bool = value < self.viewport_top as i128;
        self.value = value as i32;
        if follows {
            self.viewport_top = scroll as i32;
        }
        if !self.is_disabled {
            Some(self.value_changed())
        } else {
            None
        }
    }

    fn value_changed(&self) -> (dispatch: Dispatch)
        ensures
            dispatch@ == self@.value_changed(),
    {
        self.event_listeners.dispatch(
            Event::new(EventType::ValueChange, EventData::Number(self.value)),
        )
    }
}

impl Component for SelectableList {
    fn render(&self, renderer: &mut Renderer, position: &Position)
        ensures
            final(renderer).drawn() == old(renderer).drawn() + self@.rendering(
                position@.0,
                position@.1,
            ),
    {
        proof {
            use_type_invariant(self);
        }
        let top: i128 = position.top() as i128;
        let left: i128 = position.left() as i128;
        let width: i128 = self.width as i128;
        let height: i128 = self.height as i128;
        renderer.draw_box(
            &RenderBox {
                top: spanned(top),
                left: spanned(left),
                width: spanned(width),
                height: spanned(height),
            },
        );
        renderer.draw_string(
            self.label.as_str(),
            TextStyle::Normal,
            self.is_focus,
            &RenderBox {
                top: spanned(top),
                left: spanned(left) + 2,
                width: spanned(width - 2),
                height: 0,
            },
        );
        renderer.clear_rect(
            &RenderBox {
                top: spanned(top + 1),
                left: spanned(left + 1),
                width: spanned(width - 2),
                height: spanned(height - 2),
            },
        );
        let len: usize = self.items.len();
        let overflow: bool = self.is_overflow();
        let start: usize = if overflow {
            self.viewport_top as usize
        } else {
            0
        };
        let count: usize = if overflow {
            clamped(len as i128 - self.viewport_top as i128, 0, height - 2) as usize
        } else {
            len
        };
        if overflow {
            renderer.draw_vscrollbar(
                &RenderBox {
                    top: spanned(top + 1),
                    left: spanned(left + width - 1),
                    width: 0,
                    height: spanned(height - 3),
                },
                self.viewport_top,
                clipped(len as i128 - height + 2),
            );
        }
        let ghost before = old(renderer).drawn() + self@.frame(position@.0, position@.1)
            + self@.scrollbar(position@.0, position@.1);
        assert(renderer.drawn() =~= before + self@.rows(position@.0, position@.1, 0));
        let mut index: usize = 0;
        while index < count
            invariant
                index <= count == self@.count_shown(),
                start == self@.first_shown(),
                start + count <= self.items.len(),
                top == position@.0,
                left == position@.1,
                width == self.width,
                renderer.drawn() == before + self@.rows(position@.0, position@.1, index as nat),
            decreases count - index,
        {
            let style = if !self.is_disabled && index as i128 + self.viewport_top as i128
                == self.value as i128 {
                TextStyle::Bold
            } else {
                TextStyle::Normal
            };
            renderer.draw_string(
                self.items[start + index].as_str(),
                style,
                false,
                &RenderBox {
                    top: spanned(top + 1 + index as i128),
                    left: spanned(left + 1),
                    width: spanned(width - 3),
                    height: 0,
                },
            );
            index = index + 1;
            assert(renderer.drawn() =~= before + self@.rows(
                position@.0,
                position@.1,
                index as nat,
            ));
        }
        assert(renderer.drawn() =~= old(renderer).drawn() + self@.rendering(
            position@.0,
            position@.1,
        ));
    }

    fn render_focus(&self, renderer: &mut Renderer, position: &Position)
        ensures
            final(renderer).drawn() == old(renderer).drawn() + self@.focus_rendering(
                position@.0,
                position@.1,
            ),
    {
        if !self.is_focus {
            assert(renderer.drawn() =~= old(renderer).drawn() + Seq::<DrawView>::empty());
            return ;
        }
        renderer.put(Draw::Cursor(false));
        renderer.put(
            Draw::Move {
                row: clipped(
                    position.top() as i128 + 1 + self.value as i128 - self.viewport_top as i128,
                ),
                column: clipped(position.left() as i128 + 1),
            },
        );
        assert(renderer.drawn() =~= old(renderer).drawn() + self@.focus_rendering(
            position@.0,
            position@.1,
        ));
    }

    fn trigger(&mut self, event: &Event) -> (r: Triggered)
        ensures
            final(self)@ == old(self)@.trigger(event@).state,
            final(self)@.bounded(),
            r.answers(old(self)@.trigger(event@)),
    {
        proof {
            use_type_invariant(&*self);
        }
        if !self.is_focus {
            return Triggered { consumed: false, fired: None };
        }
        match event.event_type {
            EventType::KeyPress => match &event.event_data {
                EventData::Key(Input::KeyUp) => {
                    let fired = self.prev_item();
                    Triggered { consumed: true, fired }
                },
                EventData::Key(Input::KeyDown) => {
                    let fired = self.next_item();
                    Triggered { consumed: true, fired }
                },
                _ => Triggered { consumed: false, fired: None },
            },
            EventType::Focus => {
                self.is_focus = true;
                Triggered { consumed: true, fired: None }
            },
            _ => Triggered { consumed: false, fired: None },
        }
    }

    fn add_event_listener(&mut self, event_type: EventType, handler: EventHandler)
        ensures
            final(self)@ == (SelectableListView {
                event_listeners: old(self)@.event_listeners.insert(
                    event_type,
                    old(self)@.event_listeners[event_type].push(handler),
                ),
                ..old(self)@
            }),
            final(self)@.bounded(),
    {
        proof {
            use_type_invariant(&*self);
        }
        // the list is taken apart and put together again around the change,
        // so that what holds of every list holds at every step
        let mut list = SelectableList::new("", 0, 0, Vec::new(), false);
        core::mem::swap(self, &mut list);
        let SelectableList {
            label,
            width,
            height,
            viewport_top,
            value,
            items,
            is_focus,
            is_disabled,
            mut event_listeners,
        } = list;
        event_listeners.add(event_type, handler);
        *self = SelectableList {
            label,
            width,
            height,
            viewport_top,
            value,
            items,
            is_focus,
            is_disabled,
            event_listeners,
        };
        assert(self@.items =~= old(self)@.items);
    }

    fn toggle_focus(&mut self)
        ensures
            final(self)@ == (SelectableListView { is_focus: !old(self)@.is_focus, ..old(self)@ }),
            final(self)@.bounded(),
    {
        proof {
            use_type_invariant(&*self);
        }
        self.is_focus = !self.is_focus
    }

    fn get_component_type(&self) -> (kind: ComponentType)
        ensures
            kind == ComponentType::SelectableList,
    {
        ComponentType::SelectableList
    }

    fn is_focusable(&self) -> (focusable: bool)
        ensures
            focusable,
    {
        true
    }
}

} // verus!
