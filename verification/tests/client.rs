use redash::client::data::Data;
use redash::client::errors::RedashError;
use redash::client::stream::reply;
use redash::client::Client;
use redash::errors::OperationError;
use redash::text::decimal_text;

#[test]
fn a_client_knows_where_its_server_is() {
    let client = Client::new("127.0.0.1", 6379);
    assert_eq!(client.url(), "127.0.0.1:6379");
    assert!(!client.is_connected());
    assert_eq!(Client::new("localhost", 0).url(), "localhost:0");
    assert_eq!(Client::new("h", 65535).url(), "h:65535");
}

#[test]
fn a_command_before_the_connection_is_refused() {
    let client = Client::new("127.0.0.1", 6379);
    assert_eq!(
        client.send_command("PING"),
        Err(RedashError::OperationError(String::from("no_connection")))
    );
}

#[test]
fn a_command_is_framed_as_a_line() {
    let mut client = Client::new("127.0.0.1", 6379);
    client.connect();
    assert!(client.is_connected());
    assert_eq!(client.send_command("PING"), Ok(Vec::from("PING\r\n")));
    assert_eq!(client.send_command("SET k caf\u{e9}"), Ok(Vec::from("SET k caf\u{e9}\r\n")));
    assert_eq!(client.send_command(""), Ok(Vec::from("\r\n")));
}

#[test]
fn a_reply_is_awaited_until_it_is_whole() {
    assert_eq!(reply(Vec::from("")), None);
    assert_eq!(reply(Vec::from("+PO")), None);
    assert_eq!(reply(Vec::from("+PONG\r")), None);
    assert_eq!(reply(Vec::from("+PONG\r\n")), Some(Ok(Data::String(String::from("PONG")))));
    assert_eq!(reply(Vec::from("*2\r\n:1\r\n")), None);
    assert_eq!(
        reply(Vec::from("*2\r\n:1\r\n:2\r\n")),
        Some(Ok(Data::Array(vec![Box::new(Data::Integer(1)), Box::new(Data::Integer(2))])))
    );
}

#[test]
fn a_reply_that_fails_is_whole_too() {
    assert_eq!(
        reply(Vec::from("-ERR no\r\n")),
        Some(Err(RedashError::DataError(String::from("ERR no"))))
    );
    assert_eq!(
        reply(Vec::from("?")),
        Some(Err(RedashError::ServerError(String::from("invalid_server_data_type"), b'?')))
    );
}

#[test]
fn errors_have_their_text() {
    assert_eq!(RedashError::DataError(String::from("ERR x")).message(), "ERR x");
    assert_eq!(RedashError::IOError(String::from("broken pipe")).message(), "broken pipe");
    assert_eq!(RedashError::UnknownError(String::from("invalid integer")).message(), "invalid integer");
    assert_eq!(RedashError::OperationError(String::from("no_connection")).message(), "no_connection");
    assert_eq!(
        RedashError::ServerError(String::from("invalid_server_data_type"), b'#').message(),
        "invalid_server_data_type - Server response: #"
    );
    assert_eq!(
        RedashError::ServerError(String::from("e"), 0xe9).message(),
        "e - Server response: \u{e9}"
    );
}

#[test]
fn an_operation_error_names_its_cause() {
    assert_eq!(OperationError(String::from("no route")).message(), "There is an error: no route");
}

#[test]
fn integers_are_written_in_decimal() {
    assert_eq!(decimal_text(0), "0");
    assert_eq!(decimal_text(7), "7");
    assert_eq!(decimal_text(10), "10");
    assert_eq!(decimal_text(-1), "-1");
    assert_eq!(decimal_text(1234567890), "1234567890");
    assert_eq!(decimal_text(i64::MIN), "-9223372036854775808");
}
