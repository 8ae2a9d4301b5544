use redash::tui::events::{
    ComponentType, Dispatch, Event, EventData, EventHandler, EventListeners, EventType, Input,
};
use redash::tui::input_box::InputBox;
use redash::tui::selectable_list::SelectableList;
use redash::tui::system_bar::SystemBar;
use redash::tui::{Component, Position, Widget};

fn key(c: char) -> Event {
    Event::new(EventType::KeyPress, EventData::Char(c))
}

fn code(input: Input) -> Event {
    Event::new(EventType::KeyPress, EventData::Key(input))
}

fn run_handler() -> EventHandler {
    EventHandler::Execute { history: 1, result: 2 }
}

fn focused_box() -> InputBox {
    let mut input_box = InputBox::new("Command", 20);
    input_box.add_event_listener(EventType::Submit, run_handler());
    input_box.toggle_focus();
    input_box
}

fn submits(input_box: &mut InputBox, keys: &str) -> Vec<Dispatch> {
    let mut fired = Vec::new();
    for c in keys.chars() {
        if let Some(dispatch) = input_box.trigger(&key(c)).fired {
            if dispatch.event.event_type == EventType::Submit {
                fired.push(dispatch);
            }
        }
    }
    fired
}

fn list_of(n: usize, height: i32, is_disabled: bool) -> SelectableList {
    let mut list = SelectableList::new("History", 20, height, Vec::new(), is_disabled);
    for i in 0..n {
        list.append_items(format!("item {i}"));
    }
    list.toggle_focus();
    list
}

#[test]
fn position_keeps_its_row_and_column() {
    let position = Position::new(3, -4);
    assert_eq!(position.top(), 3);
    assert_eq!(position.left(), -4);
}

#[test]
fn event_keeps_its_kind_and_its_data() {
    let event = Event::new(EventType::Submit, EventData::String(String::from("PING")));
    assert_eq!(event.event_type, EventType::Submit);
    assert_eq!(event.event_data, EventData::String(String::from("PING")));
}

#[test]
fn handlers_are_invoked_in_the_order_of_their_registration() {
    let mut table = EventListeners::new();
    let first = EventHandler::Recall { result: 1 };
    let second = EventHandler::Execute { history: 0, result: 1 };
    let third = EventHandler::Recall { result: 2 };
    table.add(EventType::Submit, first);
    table.add(EventType::ValueChange, third);
    table.add(EventType::Submit, second);
    table.add(EventType::Submit, first);
    assert_eq!(table.handlers(EventType::Submit), vec![first, second, first]);
    assert_eq!(table.handlers(EventType::ValueChange), vec![third]);
    assert_eq!(table.handlers(EventType::Focus), Vec::new());
    let dispatch = table.dispatch(Event::new(EventType::Submit, EventData::Bool(true)));
    assert_eq!(dispatch.handlers, vec![first, second, first]);
    assert_eq!(dispatch.event, Event::new(EventType::Submit, EventData::Bool(true)));
}

#[test]
fn input_box_starts_empty_and_in_normal_mode() {
    let input_box = InputBox::new("Command", 20);
    assert_eq!(input_box.value(), "");
    assert!(!input_box.is_focus());
    assert!(!input_box.insert_mode());
    assert!(input_box.is_focusable());
    assert_eq!(input_box.get_component_type(), ComponentType::InputBox);
}

#[test]
fn input_box_submits_its_text_once_and_empties() {
    let mut input_box = focused_box();
    let fired = submits(&mut input_box, "iabc\n");
    assert_eq!(fired.len(), 1);
    assert_eq!(fired[0].event, Event::new(EventType::Submit, EventData::String(String::from("abc"))));
    assert_eq!(fired[0].handlers, vec![run_handler()]);
    assert_eq!(input_box.value(), "");
    assert!(input_box.insert_mode());
}

#[test]
fn input_box_in_normal_mode_submits_nothing() {
    let mut input_box = focused_box();
    let fired = submits(&mut input_box, "bc\n");
    assert_eq!(fired.len(), 0);
    assert_eq!(input_box.value(), "");
    assert!(!input_box.insert_mode());
}

#[test]
fn a_is_a_mode_key_before_it_is_a_letter() {
    let mut input_box = focused_box();
    let fired = submits(&mut input_box, "abc\n");
    assert_eq!(fired.len(), 1);
    assert_eq!(fired[0].event, Event::new(EventType::Submit, EventData::String(String::from("bc"))));
    assert_eq!(input_box.value(), "");
}

#[test]
fn enter_in_normal_mode_is_taken_and_does_nothing() {
    let mut input_box = focused_box();
    let triggered = input_box.trigger(&key('\n'));
    assert!(triggered.consumed);
    assert!(triggered.fired.is_none());
    assert_eq!(input_box.value(), "");
}

#[test]
fn i_and_a_enter_the_insert_mode_and_say_so() {
    for c in ['i', 'a'] {
        let mut input_box = focused_box();
        input_box.add_event_listener(EventType::ChangeInputMode, EventHandler::Recall { result: 9 });
        let triggered = input_box.trigger(&key(c));
        assert!(triggered.consumed);
        let dispatch = triggered.fired.unwrap();
        assert_eq!(dispatch.event, Event::new(EventType::ChangeInputMode, EventData::Bool(true)));
        assert_eq!(dispatch.handlers, vec![EventHandler::Recall { result: 9 }]);
        assert!(input_box.insert_mode());
        assert_eq!(input_box.value(), "");
    }
}

#[test]
fn escape_leaves_the_insert_mode_and_says_so() {
    let mut input_box = focused_box();
    input_box.trigger(&key('i'));
    input_box.trigger(&key('x'));
    let triggered = input_box.trigger(&key('\u{1b}'));
    assert!(triggered.consumed);
    assert_eq!(
        triggered.fired.unwrap().event,
        Event::new(EventType::ChangeInputMode, EventData::Bool(false))
    );
    assert!(!input_box.insert_mode());
    assert_eq!(input_box.value(), "x");
}

#[test]
fn characters_are_appended_in_insert_mode_only() {
    let mut input_box = focused_box();
    let ignored = input_box.trigger(&key('x'));
    assert!(!ignored.consumed);
    assert_eq!(input_box.value(), "");
    input_box.trigger(&key('i'));
    assert!(input_box.trigger(&key('i')).consumed);
    assert!(input_box.trigger(&key(' ')).consumed);
    assert!(input_box.trigger(&key('\u{e9}')).consumed);
    assert_eq!(input_box.value(), "i \u{e9}");
}

#[test]
fn control_characters_are_not_for_the_box() {
    let mut input_box = focused_box();
    input_box.trigger(&key('i'));
    assert!(!input_box.trigger(&key('\u{7}')).consumed);
    assert!(!input_box.trigger(&key('\u{7f}')).consumed);
    assert_eq!(input_box.value(), "");
}

#[test]
fn carriage_return_is_swallowed() {
    let mut input_box = focused_box();
    input_box.trigger(&key('i'));
    input_box.trigger(&key('x'));
    let triggered = input_box.trigger(&key('\r'));
    assert!(triggered.consumed);
    assert!(triggered.fired.is_none());
    assert_eq!(input_box.value(), "x");
    assert!(input_box.insert_mode());
}

#[test]
fn backspace_drops_the_last_character_in_either_mode() {
    let mut input_box = focused_box();
    for c in "iab\u{e9}".chars() {
        input_box.trigger(&key(c));
    }
    assert!(input_box.trigger(&code(Input::KeyBackspace)).consumed);
    assert_eq!(input_box.value(), "ab");
    input_box.trigger(&key('\u{1b}'));
    assert!(input_box.trigger(&code(Input::KeyBackspace)).consumed);
    assert_eq!(input_box.value(), "a");
    input_box.trigger(&code(Input::KeyBackspace));
    assert!(input_box.trigger(&code(Input::KeyBackspace)).consumed);
    assert_eq!(input_box.value(), "");
}

#[test]
fn input_box_without_the_focus_ignores_everything() {
    let mut input_box = InputBox::new("Command", 20);
    for event in [key('i'), key('a'), key('\n'), code(Input::KeyBackspace), key('\u{1b}')] {
        let triggered = input_box.trigger(&event);
        assert!(!triggered.consumed);
        assert!(triggered.fired.is_none());
    }
    assert!(!input_box.insert_mode());
    assert_eq!(input_box.value(), "");
}

#[test]
fn input_box_does_not_know_other_keys_and_events() {
    let mut input_box = focused_box();
    input_box.trigger(&key('i'));
    assert!(!input_box.trigger(&code(Input::KeyUp)).consumed);
    assert!(!input_box.trigger(&code(Input::KeyEnter)).consumed);
    assert!(!input_box.trigger(&Event::new(EventType::Focus, EventData::Bool(true))).consumed);
    assert!(!input_box.trigger(&Event::new(EventType::Submit, EventData::Char('x'))).consumed);
    assert_eq!(input_box.value(), "");
}

#[test]
fn focus_and_clear_do_what_they_say() {
    let mut input_box = InputBox::new("Command", 20);
    input_box.focus();
    assert!(input_box.is_focus());
    input_box.trigger(&key('i'));
    input_box.trigger(&key('x'));
    input_box.clear();
    assert_eq!(input_box.value(), "");
    assert!(input_box.insert_mode());
    input_box.toggle_focus();
    assert!(!input_box.is_focus());
}

#[test]
fn list_starts_at_the_top() {
    let list = SelectableList::new("L", 10, 5, vec![String::from("a"), String::from("b")], false);
    assert_eq!(list.items(), &vec![String::from("a"), String::from("b")]);
    assert_eq!(list.value(), 0);
    assert_eq!(list.viewport_top(), 0);
    assert!(!list.is_focus());
    assert_eq!(list.get_component_type(), ComponentType::SelectableList);
    assert!(list.is_focusable());
}

#[test]
fn moving_down_never_passes_the_last_item() {
    for n in 1..12usize {
        for height in [0, 2, 3, 5, 8, 20] {
            for is_disabled in [false, true] {
                let mut list = list_of(n, height, is_disabled);
                let visible = height as i64 - 2;
                let furthest = std::cmp::max(0, n as i64 - visible);
                for _ in 0..30 {
                    list.next_item();
                    assert!(list.value() as i64 <= n as i64 - 1);
                    assert!(list.value() >= 0);
                    assert!(list.viewport_top() >= 0);
                    assert!(list.viewport_top() as i64 <= furthest);
                }
                if !is_disabled || height > 3 {
                    assert_eq!(list.value() as usize, n - 1);
                }
            }
        }
    }
}

#[test]
fn interactive_list_moves_by_one_and_tells() {
    let mut list = list_of(10, 5, false);
    list.add_event_listener(EventType::ValueChange, EventHandler::Recall { result: 2 });
    let told = list.next_item().unwrap();
    assert_eq!(told.event, Event::new(EventType::ValueChange, EventData::Number(1)));
    assert_eq!(told.handlers, vec![EventHandler::Recall { result: 2 }]);
    assert_eq!((list.value(), list.viewport_top()), (1, 0));
    list.next_item();
    assert_eq!((list.value(), list.viewport_top()), (2, 0));
    list.next_item();
    assert_eq!((list.value(), list.viewport_top()), (3, 1));
    list.next_item();
    assert_eq!((list.value(), list.viewport_top()), (4, 2));
    let back = list.prev_item().unwrap();
    assert_eq!(back.event, Event::new(EventType::ValueChange, EventData::Number(3)));
    assert_eq!((list.value(), list.viewport_top()), (3, 2));
    list.prev_item();
    assert_eq!((list.value(), list.viewport_top()), (2, 2));
    list.prev_item();
    assert_eq!((list.value(), list.viewport_top()), (1, 1));
    list.prev_item();
    list.prev_item();
    assert_eq!((list.value(), list.viewport_top()), (0, 0));
}

#[test]
fn interactive_list_stops_at_both_ends() {
    let mut list = list_of(6, 5, false);
    for _ in 0..9 {
        list.next_item();
    }
    assert_eq!((list.value(), list.viewport_top()), (5, 3));
    for _ in 0..9 {
        list.prev_item();
    }
    assert_eq!((list.value(), list.viewport_top()), (0, 0));
}

#[test]
fn disabled_list_pages_in_silence() {
    let mut list = list_of(20, 7, true);
    list.add_event_listener(EventType::ValueChange, EventHandler::Recall { result: 2 });
    assert!(list.next_item().is_none());
    assert_eq!((list.value(), list.viewport_top()), (4, 0));
    assert!(list.next_item().is_none());
    assert_eq!((list.value(), list.viewport_top()), (8, 4));
    list.next_item();
    assert_eq!((list.value(), list.viewport_top()), (12, 8));
    list.next_item();
    assert_eq!((list.value(), list.viewport_top()), (16, 12));
    list.next_item();
    assert_eq!((list.value(), list.viewport_top()), (19, 15));
    list.next_item();
    assert_eq!((list.value(), list.viewport_top()), (19, 15));
    assert!(list.prev_item().is_none());
    assert_eq!((list.value(), list.viewport_top()), (15, 15));
    list.prev_item();
    assert_eq!((list.value(), list.viewport_top()), (11, 11));
}

#[test]
fn empty_list_stays_at_its_first_line() {
    let mut list = list_of(0, 5, false);
    list.next_item();
    assert_eq!((list.value(), list.viewport_top()), (0, 0));
    list.prev_item();
    assert_eq!((list.value(), list.viewport_top()), (0, 0));
}

#[test]
fn scrolling_stays_within_the_items() {
    let mut list = list_of(10, 5, false);
    list.set_scroll(4);
    assert_eq!(list.viewport_top(), 4);
    list.set_scroll(100);
    assert_eq!(list.viewport_top(), 7);
    list.set_scroll(-3);
    assert_eq!(list.viewport_top(), 0);
    let mut short = list_of(2, 5, false);
    short.set_scroll(1);
    assert_eq!(short.viewport_top(), 0);
}

#[test]
fn clearing_takes_the_list_back_to_the_top() {
    let mut list = list_of(10, 5, false);
    for _ in 0..6 {
        list.next_item();
    }
    list.clear();
    assert_eq!(list.items().len(), 0);
    assert_eq!((list.value(), list.viewport_top()), (0, 0));
    list.append_items(String::from("again"));
    assert_eq!(list.items(), &vec![String::from("again")]);
}

#[test]
fn list_moves_on_the_arrow_keys_while_it_has_the_focus() {
    let mut list = list_of(4, 6, false);
    assert!(list.trigger(&code(Input::KeyDown)).consumed);
    assert!(list.trigger(&code(Input::KeyDown)).consumed);
    assert_eq!(list.value(), 2);
    let up = list.trigger(&code(Input::KeyUp));
    assert!(up.consumed);
    assert_eq!(up.fired.unwrap().event, Event::new(EventType::ValueChange, EventData::Number(1)));
    assert_eq!(list.value(), 1);
    assert!(!list.trigger(&code(Input::KeyEnter)).consumed);
    assert!(!list.trigger(&key('j')).consumed);
    assert!(list.trigger(&Event::new(EventType::Focus, EventData::Bool(true))).consumed);
    list.toggle_focus();
    assert!(!list.trigger(&code(Input::KeyDown)).consumed);
    assert!(!list.trigger(&Event::new(EventType::Focus, EventData::Bool(true))).consumed);
    assert_eq!(list.value(), 1);
}

#[test]
fn system_bar_is_passive() {
    let mut bar = SystemBar::new("status", 10);
    assert!(!bar.is_focusable());
    assert_eq!(bar.get_component_type(), ComponentType::SystemBar);
    bar.toggle_focus();
    bar.add_event_listener(EventType::KeyPress, run_handler());
    let triggered = bar.trigger(&key('i'));
    assert!(!triggered.consumed);
    assert!(triggered.fired.is_none());
}

#[test]
fn a_widget_does_what_the_widget_inside_does() {
    let mut widget = Widget::InputBox(InputBox::new("Command", 20));
    assert_eq!(widget.get_component_type(), ComponentType::InputBox);
    assert!(widget.is_focusable());
    widget.toggle_focus();
    widget.add_event_listener(EventType::Submit, run_handler());
    widget.trigger(&key('i'));
    widget.trigger(&key('x'));
    let fired = widget.trigger(&key('\n')).fired.unwrap();
    assert_eq!(fired.event, Event::new(EventType::Submit, EventData::String(String::from("x"))));
    assert_eq!(fired.handlers, vec![run_handler()]);
    let bar = Widget::SystemBar(SystemBar::new("s", 3));
    assert!(!bar.is_focusable());
    assert_eq!(bar.get_component_type(), ComponentType::SystemBar);
}
