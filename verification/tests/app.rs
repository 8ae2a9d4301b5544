use redash::client::data::Data;
use redash::client::errors::RedashError;
use redash::client::stream::reply;
use redash::client::Client;
use redash::tui::events::{Event, EventData, EventHandler, EventType, Input};
use redash::tui::input_box::InputBox;
use redash::tui::renderer::{Draw, Renderer};
use redash::tui::selectable_list::SelectableList;
use redash::tui::system_bar::SystemBar;
use redash::tui::app::{show_data, show_text};
use redash::tui::{App, CommandEntry, Component, Position, Request, Turn, Widget};

fn started() -> App {
    let mut app = App::new();
    app.init(24, 80);
    app
}

fn input_box(app: &App, i: usize) -> &InputBox {
    match &app.components()[i].0 {
        Widget::InputBox(input_box) => input_box,
        _ => panic!("no input box at {i}"),
    }
}

fn list(app: &App, i: usize) -> &SelectableList {
    match &app.components()[i].0 {
        Widget::SelectableList(list) => list,
        _ => panic!("no list at {i}"),
    }
}

fn lines(app: &App, i: usize) -> Vec<&str> {
    list(app, i).items().iter().map(|s| s.as_str()).collect()
}

fn typed(app: &mut App, keys: &str) -> Vec<Request> {
    let mut requests = Vec::new();
    for c in keys.chars() {
        requests.extend(app.handle_input(Input::Character(c)));
    }
    requests
}

/// Submits `command` and answers it with what `wire` decodes to.
fn asked(app: &mut App, command: &str, wire: &[u8]) {
    let mut requests = typed(app, command);
    requests.extend(app.handle_input(Input::Character('\n')));
    assert_eq!(requests.len(), 1);
    let request = requests.pop().unwrap();
    assert_eq!(request.command, command);
    let mut client = Client::new("127.0.0.1", 6379);
    client.connect();
    assert_eq!(client.send_command(&request.command).unwrap(), format!("{command}\r\n").into_bytes());
    let response = reply(wire.to_vec()).unwrap();
    app.complete(request, response);
}

#[test]
fn a_new_application_is_empty() {
    let app = App::new();
    assert_eq!(app.components().len(), 0);
    assert_eq!(app.history_list().len(), 0);
    assert_eq!(app.current_focus(), 0);
    assert_eq!(app.render().commands().len(), 0);
}

#[test]
fn the_client_mounts_a_box_and_two_lists() {
    let app = started();
    assert_eq!(app.components().len(), 3);
    assert_eq!(app.components()[0].1, Position::new(0, 0));
    assert_eq!(app.components()[1].1, Position::new(3, 0));
    assert_eq!(app.components()[2].1, Position::new(0, 18));
    assert!(input_box(&app, 0).is_focus());
    assert!(!list(&app, 1).is_focus());
    assert!(!list(&app, 2).is_focus());
    assert_eq!(app.current_focus(), 0);

    let mut expected = Renderer::new();
    let mut command = InputBox::new("Command", 16);
    command.toggle_focus();
    let history = SelectableList::new("History", 16, 21, Vec::new(), false);
    let result = SelectableList::new("Result", 63, 24, Vec::new(), true);
    command.render(&mut expected, &Position::new(0, 0));
    history.render(&mut expected, &Position::new(3, 0));
    result.render(&mut expected, &Position::new(0, 18));
    command.render_focus(&mut expected, &Position::new(0, 0));
    assert_eq!(app.render().commands(), expected.commands());
}

#[test]
fn the_layout_rounds_down() {
    let mut app = App::new();
    app.init(10, 99);
    assert_eq!(app.components()[2].1, Position::new(0, 21));
    let mut narrow = App::new();
    narrow.init(0, -1);
    assert_eq!(narrow.components()[2].1, Position::new(0, 1));
}

#[test]
fn the_first_widget_mounted_takes_the_focus() {
    let mut app = App::new();
    app.add_component(Widget::SelectableList(SelectableList::new("a", 5, 5, Vec::new(), false)), Position::new(0, 0));
    app.add_component(Widget::InputBox(InputBox::new("b", 5)), Position::new(5, 0));
    assert!(list(&app, 0).is_focus());
    assert!(!input_box(&app, 1).is_focus());
}

#[test]
fn tab_passes_the_focus_round() {
    let mut app = started();
    assert!(app.handle_input(Input::Character('\t')).is_empty());
    assert_eq!(app.current_focus(), 1);
    assert!(!input_box(&app, 0).is_focus());
    assert!(list(&app, 1).is_focus());
    app.handle_input(Input::Character('\t'));
    assert_eq!(app.current_focus(), 2);
    assert!(list(&app, 2).is_focus());
    app.focus_next();
    assert_eq!(app.current_focus(), 0);
    assert!(input_box(&app, 0).is_focus());
    assert!(!list(&app, 1).is_focus());
    assert!(!list(&app, 2).is_focus());
}

#[test]
fn tab_on_nothing_does_nothing() {
    let mut app = App::new();
    app.focus_next();
    assert_eq!(app.current_focus(), 0);
    assert_eq!(app.components().len(), 0);
}

#[test]
fn the_focus_passes_over_a_bar_too() {
    let mut app = App::new();
    app.add_component(Widget::InputBox(InputBox::new("b", 5)), Position::new(0, 0));
    app.add_component(Widget::SystemBar(SystemBar::new("s", 5)), Position::new(3, 0));
    app.focus_next();
    assert_eq!(app.current_focus(), 1);
    assert!(!input_box(&app, 0).is_focus());
    app.focus_next();
    assert_eq!(app.current_focus(), 0);
    assert!(input_box(&app, 0).is_focus());
}

#[test]
fn keys_reach_the_focused_widget_only() {
    let mut app = started();
    typed(&mut app, "iGET");
    assert_eq!(input_box(&app, 0).value(), "GET");
    app.handle_input(Input::KeyBackspace);
    assert_eq!(input_box(&app, 0).value(), "GE");
    app.handle_input(Input::KeyDown);
    assert_eq!(list(&app, 1).value(), 0);
    assert!(app.handle_input(Input::Other).is_empty());
    assert!(app.handle_input(Input::KeyDC).is_empty());
    assert_eq!(input_box(&app, 0).value(), "GE");
}

#[test]
fn submitting_asks_for_the_command_to_be_run() {
    let mut app = started();
    let mut requests = typed(&mut app, "iPING");
    assert!(requests.is_empty());
    requests.extend(app.handle_input(Input::Character('\n')));
    assert_eq!(requests, vec![Request { command: String::from("PING"), history: 1, result: 2 }]);
    assert_eq!(input_box(&app, 0).value(), "");
    assert_eq!(app.history_list().len(), 0);
}

#[test]
fn ping_is_answered_with_pong() {
    let mut app = started();
    typed(&mut app, "i");
    asked(&mut app, "PING", b"+PONG\r\n");
    assert_eq!(
        app.history_list(),
        &vec![CommandEntry {
            command: String::from("PING"),
            response: Data::String(String::from("PONG")),
        }]
    );
    assert_eq!(lines(&app, 2), vec!["PONG"]);
    assert_eq!(lines(&app, 1), vec!["PING"]);
    assert_eq!(list(&app, 1).value(), 0);
}

#[test]
fn an_array_is_shown_one_element_to_the_line() {
    let mut app = started();
    typed(&mut app, "i");
    asked(&mut app, "LRANGE k 0 -1", b"*2\r\n:1\r\n:2\r\n");
    assert_eq!(lines(&app, 2), vec!["1", "2"]);
    assert_eq!(app.history_list().len(), 1);
    assert_eq!(
        app.history_list()[0].response,
        Data::Array(vec![Box::new(Data::Integer(1)), Box::new(Data::Integer(2))])
    );
    assert_eq!(app.history_list()[0].command, "LRANGE k 0 -1");
}

#[test]
fn an_error_replaces_what_the_result_list_showed() {
    let mut app = started();
    typed(&mut app, "i");
    asked(&mut app, "PING", b"+PONG\r\n");
    asked(&mut app, "NOPE", b"-ERR unknown command\r\n");
    assert_eq!(lines(&app, 2), vec!["ERR unknown command"]);
    assert_eq!(lines(&app, 1), vec!["PING"]);
    assert_eq!(app.history_list().len(), 1);
    asked(&mut app, "ODD", b"!");
    assert_eq!(lines(&app, 2), vec!["invalid_server_data_type - Server response: !"]);
}

#[test]
fn a_command_without_connection_shows_why() {
    let mut app = started();
    typed(&mut app, "iPING");
    let request = app.handle_input(Input::Character('\n')).pop().unwrap();
    let client = Client::new("127.0.0.1", 6379);
    let refused = client.send_command(&request.command).unwrap_err();
    app.complete(request, Err(refused));
    assert_eq!(lines(&app, 2), vec!["no_connection"]);
    assert_eq!(app.history_list().len(), 0);
}

#[test]
fn moving_in_the_history_recalls_the_answer() {
    let mut app = started();
    typed(&mut app, "i");
    asked(&mut app, "PING", b"+PONG\r\n");
    asked(&mut app, "LLEN k", b":2\r\n");
    asked(&mut app, "LRANGE k 0 -1", b"*2\r\n$1\r\na\r\n$1\r\nb\r\n");
    assert_eq!(lines(&app, 1), vec!["PING", "LLEN k", "LRANGE k 0 -1"]);
    assert_eq!(list(&app, 1).value(), 2);
    assert_eq!(lines(&app, 2), vec!["a", "b"]);
    app.handle_input(Input::Character('\t'));
    assert!(app.handle_input(Input::KeyUp).is_empty());
    assert_eq!(list(&app, 1).value(), 1);
    assert_eq!(lines(&app, 2), vec!["2"]);
    app.handle_input(Input::KeyUp);
    assert_eq!(lines(&app, 2), vec!["PONG"]);
    app.handle_input(Input::KeyDown);
    app.handle_input(Input::KeyDown);
    assert_eq!(lines(&app, 2), vec!["a", "b"]);
    assert_eq!(app.history_list().len(), 3);
}

#[test]
fn moving_in_an_empty_history_recalls_nothing() {
    let mut app = started();
    app.handle_input(Input::Character('\t'));
    assert!(app.handle_input(Input::KeyDown).is_empty());
    assert!(app.handle_input(Input::KeyUp).is_empty());
    assert_eq!(lines(&app, 2), Vec::<&str>::new());
}

#[test]
fn the_result_list_pages_once_it_has_the_focus() {
    let mut app = started();
    typed(&mut app, "i");
    let mut wire = Vec::from("*40\r\n");
    for i in 0..40 {
        wire.extend(format!(":{i}\r\n").into_bytes());
    }
    asked(&mut app, "LRANGE big 0 -1", &wire);
    assert_eq!(lines(&app, 2).len(), 40);
    app.handle_input(Input::Character('\t'));
    app.handle_input(Input::Character('\t'));
    app.handle_input(Input::KeyDown);
    assert_eq!((list(&app, 2).value(), list(&app, 2).viewport_top()), (21, 0));
    app.handle_input(Input::KeyDown);
    assert_eq!((list(&app, 2).value(), list(&app, 2).viewport_top()), (39, 18));
}

#[test]
fn an_answer_for_lists_that_are_not_there_is_dropped() {
    let mut app = started();
    let stray = Request { command: String::from("PING"), history: 0, result: 2 };
    app.complete(stray, Ok(Data::Integer(1)));
    assert_eq!(app.history_list().len(), 0);
    assert_eq!(lines(&app, 2), Vec::<&str>::new());
    let same = Request { command: String::from("PING"), history: 2, result: 2 };
    app.complete(same, Ok(Data::Integer(1)));
    let beyond = Request { command: String::from("PING"), history: 1, result: 7 };
    app.complete(beyond, Ok(Data::Integer(1)));
    assert_eq!(app.history_list().len(), 0);
    assert_eq!(lines(&app, 1), Vec::<&str>::new());
}

#[test]
fn every_widget_gets_every_event_in_mount_order() {
    let mut app = App::new();
    let mut first = InputBox::new("one", 10);
    first.add_event_listener(EventType::Submit, EventHandler::Execute { history: 2, result: 3 });
    let mut second = InputBox::new("two", 10);
    second.add_event_listener(EventType::Submit, EventHandler::Execute { history: 3, result: 2 });
    second.add_event_listener(EventType::Submit, EventHandler::Execute { history: 2, result: 3 });
    second.toggle_focus();
    app.add_component(Widget::InputBox(first), Position::new(0, 0));
    app.add_component(Widget::InputBox(second), Position::new(3, 0));
    app.add_component(Widget::SelectableList(SelectableList::new("l", 9, 9, Vec::new(), false)), Position::new(6, 0));
    app.add_component(Widget::SelectableList(SelectableList::new("r", 9, 9, Vec::new(), true)), Position::new(6, 9));
    for c in "ix".chars() {
        app.trigger_event(&Event::new(EventType::KeyPress, EventData::Char(c)));
    }
    assert_eq!(input_box(&app, 0).value(), "x");
    assert_eq!(input_box(&app, 1).value(), "x");
    let requests = app.trigger_event(&Event::new(EventType::KeyPress, EventData::Char('\n')));
    assert_eq!(
        requests,
        vec![
            Request { command: String::from("x"), history: 2, result: 3 },
            Request { command: String::from("x"), history: 3, result: 2 },
            Request { command: String::from("x"), history: 2, result: 3 },
        ]
    );
}

#[test]
fn a_handler_does_not_reach_the_widget_that_fires() {
    let mut app = App::new();
    let mut list = SelectableList::new("l", 9, 9, vec![String::from("a"), String::from("b")], false);
    list.add_event_listener(EventType::ValueChange, EventHandler::Recall { result: 0 });
    app.add_component(Widget::SelectableList(list), Position::new(0, 0));
    app.complete(
        Request { command: String::from("x"), history: 0, result: 0 },
        Ok(Data::Integer(1)),
    );
    app.handle_input(Input::KeyDown);
    assert_eq!(lines(&app, 0), vec!["a", "b"]);
}

#[test]
fn the_main_loop_ends_on_the_delete_key() {
    let mut app = started();
    assert_eq!(app.step(Some(Input::KeyDC)), Turn::Quit);
    assert_eq!(app.step(None), Turn::Continue(Vec::new()));
    assert_eq!(app.step(Some(Input::Character('i'))), Turn::Continue(Vec::new()));
    app.step(Some(Input::Character('x')));
    assert_eq!(
        app.step(Some(Input::Character('\n'))),
        Turn::Continue(vec![Request { command: String::from("x"), history: 1, result: 2 }])
    );
}

#[test]
fn the_cursor_is_placed_after_everything_is_drawn() {
    let mut app = started();
    typed(&mut app, "iab");
    let frame = app.render();
    let commands = frame.commands();
    let n = commands.len();
    assert_eq!(commands[n - 2], Draw::Cursor(true));
    assert_eq!(commands[n - 1], Draw::Move { row: 1, column: 3 });
}

#[test]
fn an_unanswered_request_changes_nothing() {
    let mut app = started();
    typed(&mut app, "iPING\n");
    assert_eq!(lines(&app, 1), Vec::<&str>::new());
    assert_eq!(lines(&app, 2), Vec::<&str>::new());
    let error = RedashError::IOError(String::from("connection reset"));
    app.complete(Request { command: String::from("PING"), history: 1, result: 2 }, Err(error));
    assert_eq!(lines(&app, 2), vec!["connection reset"]);
}

#[test]
fn a_list_shows_a_value_line_by_line() {
    let mut pane = SelectableList::new("Result", 20, 4, vec![String::from("old"); 9], true);
    pane.toggle_focus();
    pane.next_item();
    pane.next_item();
    let value = Data::Array(vec![
        Box::new(Data::String(String::from("a"))),
        Box::new(Data::Array(vec![Box::new(Data::Integer(1)), Box::new(Data::Integer(2))])),
        Box::new(Data::Null),
    ]);
    show_data(&mut pane, &value);
    assert_eq!(pane.items(), &vec![String::from("a"), String::from("1\n2\n"), String::from("null")]);
    assert_eq!((pane.value(), pane.viewport_top()), (0, 0));
    assert!(pane.is_focus());
    show_data(&mut pane, &Data::Integer(5));
    assert_eq!(pane.items(), &vec![String::from("5")]);
    show_data(&mut pane, &Data::Array(Vec::new()));
    assert_eq!(pane.items().len(), 0);
    show_text(&mut pane, String::from("no_connection"));
    assert_eq!(pane.items(), &vec![String::from("no_connection")]);
}
