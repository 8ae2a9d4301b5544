use redash::client::data::Data;
use redash::client::errors::RedashError;
use redash::client::parser::{integer_of, text_of, Parser};

fn decode(bytes: &[u8]) -> (Result<Data, RedashError>, usize) {
    let mut parser = Parser::new(bytes.to_vec());
    let result = parser.next();
    (result, parser.consumed())
}

fn text(s: &str) -> Data {
    Data::String(String::from(s))
}

#[test]
fn test_read_char() {
    let source = Vec::from("abc");
    let mut parser = Parser::new(source);
    let ch = parser.char().unwrap();
    assert_eq!(ch, b'a');
}

#[test]
fn char_moves_on_by_one_byte() {
    let mut parser = Parser::new(Vec::from("abc"));
    assert_eq!(parser.char().unwrap(), b'a');
    assert_eq!(parser.char().unwrap(), b'b');
    assert_eq!(parser.type_indicator().unwrap(), b'c');
    assert_eq!(parser.consumed(), 3);
    assert_eq!(
        parser.char(),
        Err(RedashError::IOError(String::from("failed to fill whole buffer")))
    );
    assert_eq!(parser.consumed(), 3);
}

#[test]
fn line_stops_at_carriage_return_and_drops_one_more_byte() {
    let mut parser = Parser::new(Vec::from("ab\rXcd\r\n"));
    assert_eq!(parser.line().unwrap(), Vec::from("ab"));
    assert_eq!(parser.consumed(), 4);
    assert_eq!(parser.line().unwrap(), Vec::from("cd"));
    assert_eq!(parser.consumed(), 8);
}

#[test]
fn line_without_its_end_is_truncated() {
    let mut parser = Parser::new(Vec::from("ab\r"));
    assert_eq!(
        parser.line(),
        Err(RedashError::IOError(String::from("failed to fill whole buffer")))
    );
    assert_eq!(parser.consumed(), 3);
}

#[test]
fn simple_string_decodes_to_its_text() {
    assert_eq!(decode(b"+PONG\r\n"), (Ok(text("PONG")), 7));
    assert_eq!(decode(b"+\r\n"), (Ok(text("")), 3));
}

#[test]
fn simple_string_keeps_text_beyond_ascii() {
    assert_eq!(decode("+h\u{e9}llo \u{2603}\r\n".as_bytes()), (Ok(text("h\u{e9}llo \u{2603}")), 13));
}

#[test]
fn integer_decodes_to_its_value() {
    assert_eq!(decode(b":0\r\n"), (Ok(Data::Integer(0)), 4));
    assert_eq!(decode(b":1000\r\n"), (Ok(Data::Integer(1000)), 7));
    assert_eq!(decode(b":-42\r\n"), (Ok(Data::Integer(-42)), 6));
    assert_eq!(decode(b":+7\r\n"), (Ok(Data::Integer(7)), 5));
    assert_eq!(decode(b":007\r\n"), (Ok(Data::Integer(7)), 6));
}

#[test]
fn integer_reaches_both_ends_of_its_range() {
    assert_eq!(decode(b":9223372036854775807\r\n").0, Ok(Data::Integer(i64::MAX)));
    assert_eq!(decode(b":-9223372036854775808\r\n").0, Ok(Data::Integer(i64::MIN)));
}

#[test]
fn integer_beyond_its_range_is_malformed() {
    let malformed: Result<Data, RedashError> =
        Err(RedashError::UnknownError(String::from("invalid integer")));
    assert_eq!(decode(b":9223372036854775808\r\n").0, malformed.clone());
    assert_eq!(decode(b":-9223372036854775809\r\n").0, malformed.clone());
    assert_eq!(decode(b":99999999999999999999999999\r\n").0, malformed);
}

#[test]
fn white_space_round_an_integer_is_malformed() {
    let malformed: Result<Data, RedashError> =
        Err(RedashError::UnknownError(String::from("invalid integer")));
    assert_eq!(decode(b": 12 \r\n"), (malformed.clone(), 7));
    assert_eq!(decode(b":\t-3\n\r\n"), (malformed.clone(), 7));
    assert_eq!(decode(":\u{2003}12\u{a0}\r\n".as_bytes()), (malformed.clone(), 10));
    assert_eq!(decode(":\u{3000}\u{85}+5\u{2028}\r\n".as_bytes()).0, malformed.clone());
    assert_eq!(decode(b": 7\r\n").0, malformed.clone());
    assert_eq!(decode(b":7 \r\n").0, malformed);
}

#[test]
fn a_padded_length_or_count_is_malformed() {
    let malformed: Result<Data, RedashError> =
        Err(RedashError::UnknownError(String::from("invalid integer")));
    assert_eq!(decode(b"$ 5\r\nhello\r\n"), (malformed.clone(), 5));
    assert_eq!(decode(b"*2 \r\n:1\r\n:2\r\n"), (malformed.clone(), 5));
    assert_eq!(decode(b"$1.5\r\nx\r\n").0, malformed);
}

#[test]
fn only_ascii_digits_are_digits() {
    let malformed: Result<Data, RedashError> =
        Err(RedashError::UnknownError(String::from("invalid integer")));
    assert_eq!(decode(":\u{661}\u{662}\r\n".as_bytes()).0, malformed.clone());
    assert_eq!(decode(":\u{200b}12\r\n".as_bytes()).0, malformed.clone());
    assert_eq!(decode(":  \r\n".as_bytes()).0, malformed);
}

#[test]
fn malformed_integer_fails_after_its_line() {
    let malformed: Result<Data, RedashError> =
        Err(RedashError::UnknownError(String::from("invalid integer")));
    assert_eq!(decode(b":abc\r\n+x\r\n"), (malformed.clone(), 6));
    assert_eq!(decode(b":\r\n").0, malformed.clone());
    assert_eq!(decode(b":-\r\n").0, malformed.clone());
    assert_eq!(decode(b":+\r\n").0, malformed.clone());
    assert_eq!(decode(b":1 2\r\n").0, malformed.clone());
    assert_eq!(decode(b":--1\r\n").0, malformed.clone());
    assert_eq!(decode(b":12a\r\n").0, malformed);
}

#[test]
fn integer_of_reads_the_text_of_a_line() {
    assert_eq!(integer_of(&Vec::from("123")), Ok(123));
    assert_eq!(integer_of(&Vec::from("-5")), Ok(-5));
    assert_eq!(integer_of(&Vec::from("+5")), Ok(5));
    assert_eq!(
        integer_of(&Vec::from("  -5")),
        Err(RedashError::UnknownError(String::from("invalid integer")))
    );
    assert_eq!(
        integer_of(&Vec::from("1.5")),
        Err(RedashError::UnknownError(String::from("invalid integer")))
    );
    assert_eq!(
        integer_of(&vec![0x31, 0xff]),
        Err(RedashError::UnknownError(String::from("invalid utf-8 sequence")))
    );
    assert_eq!(
        integer_of(&Vec::from("")),
        Err(RedashError::UnknownError(String::from("invalid integer")))
    );
}

#[test]
fn text_of_reads_utf8_and_nothing_else() {
    assert_eq!(text_of(&Vec::from("caf\u{e9}")), Ok(String::from("caf\u{e9}")));
    assert_eq!(
        text_of(&vec![0x63, 0xc3]),
        Err(RedashError::UnknownError(String::from("invalid utf-8 sequence")))
    );
}

#[test]
fn bulk_string_takes_the_declared_bytes_and_two_more() {
    assert_eq!(decode(b"$5\r\nhello\r\n"), (Ok(text("hello")), 11));
    assert_eq!(decode(b"$0\r\n\r\n"), (Ok(text("")), 6));
}

#[test]
fn bulk_string_may_hold_line_ends() {
    assert_eq!(decode(b"$7\r\na\r\nb\r\nc\r\n+rest\r\n"), (Ok(text("a\r\nb\r\nc")), 13));
}

#[test]
fn bulk_string_drops_its_two_last_bytes_unread() {
    assert_eq!(decode(b"$3\r\nabcXY:1\r\n"), (Ok(text("abc")), 9));
}

#[test]
fn bulk_string_of_length_minus_one_is_null() {
    assert_eq!(decode(b"$-1\r\n"), (Ok(Data::Null), 5));
}

#[test]
fn bulk_string_that_ends_early_is_truncated() {
    let truncated: Result<Data, RedashError> =
        Err(RedashError::IOError(String::from("failed to fill whole buffer")));
    assert_eq!(decode(b"$5\r\nhel"), (truncated.clone(), 7));
    assert_eq!(decode(b"$5\r\nhello\r"), (truncated, 10));
}

#[test]
fn bulk_string_that_is_not_utf8_fails_after_its_payload() {
    assert_eq!(
        decode(b"$2\r\n\xff\xfe\r\n:1\r\n"),
        (Err(RedashError::UnknownError(String::from("invalid utf-8 sequence"))), 8)
    );
}

#[test]
fn negative_length_is_refused() {
    let refused = RedashError::UnknownError(String::from("invalid length"));
    assert_eq!(decode(b"$-2\r\n"), (Err(RedashError::UnknownError(String::from("invalid length"))), 5));
    assert_eq!(decode(b"*-7\r\n"), (Err(refused), 5));
}

#[test]
fn array_of_count_zero_is_empty_and_not_null() {
    assert_eq!(decode(b"*0\r\n"), (Ok(Data::Array(Vec::new())), 4));
}

#[test]
fn array_of_count_minus_one_is_null() {
    assert_eq!(decode(b"*-1\r\n"), (Ok(Data::Null), 5));
}

#[test]
fn array_holds_its_elements_in_order() {
    assert_eq!(
        decode(b"*2\r\n:1\r\n:2\r\n"),
        (Ok(Data::Array(vec![Box::new(Data::Integer(1)), Box::new(Data::Integer(2))])), 12)
    );
    assert_eq!(
        decode(b"*3\r\n+a\r\n$1\r\nb\r\n$-1\r\n"),
        (
            Ok(Data::Array(vec![Box::new(text("a")), Box::new(text("b")), Box::new(Data::Null)])),
            20
        )
    );
}

#[test]
fn arrays_nest() {
    let expected = Data::Array(vec![
        Box::new(Data::Array(vec![
            Box::new(Data::Array(vec![Box::new(Data::Array(Vec::new()))])),
            Box::new(Data::Integer(1)),
        ])),
        Box::new(text("x")),
    ]);
    assert_eq!(decode(b"*2\r\n*2\r\n*1\r\n*0\r\n:1\r\n+x\r\n"), (Ok(expected), 24));
}

#[test]
fn array_fails_as_a_whole_with_its_first_failing_element() {
    assert_eq!(
        decode(b"*3\r\n:1\r\n#oops\r\n:3\r\n"),
        (Err(RedashError::ServerError(String::from("invalid_server_data_type"), b'#')), 9)
    );
    assert_eq!(
        decode(b"*2\r\n:1\r\n"),
        (Err(RedashError::IOError(String::from("failed to fill whole buffer"))), 8)
    );
}

#[test]
fn unknown_tag_fails_with_the_byte_and_takes_nothing_more() {
    assert_eq!(
        decode(b"#5\r\nhello\r\n"),
        (Err(RedashError::ServerError(String::from("invalid_server_data_type"), b'#')), 1)
    );
}

#[test]
fn error_line_comes_back_as_an_error() {
    assert_eq!(
        decode(b"-ERR unknown command\r\n"),
        (Err(RedashError::DataError(String::from("ERR unknown command"))), 22)
    );
    let mut parser = Parser::new(Vec::from("WRONGTYPE\r\n"));
    assert_eq!(parser.data_error(), Err(RedashError::DataError(String::from("WRONGTYPE"))));
}

#[test]
fn error_line_that_is_not_utf8_is_a_protocol_error() {
    assert_eq!(
        decode(b"-\xff\r\n").0,
        Err(RedashError::UnknownError(String::from("invalid utf-8 sequence")))
    );
}

#[test]
fn empty_input_is_truncated() {
    assert_eq!(
        decode(b""),
        (Err(RedashError::IOError(String::from("failed to fill whole buffer"))), 0)
    );
}

#[test]
fn values_are_decoded_one_at_a_time() {
    let mut parser = Parser::new(Vec::from("+a\r\n:2\r\n$1\r\nc\r\n"));
    assert_eq!(parser.next(), Ok(text("a")));
    assert_eq!(parser.consumed(), 4);
    assert_eq!(parser.next(), Ok(Data::Integer(2)));
    assert_eq!(parser.next(), Ok(text("c")));
    assert_eq!(parser.consumed(), 15);
}

#[test]
fn the_parts_of_a_value_can_be_read_by_themselves() {
    let mut parser = Parser::new(Vec::from("12\r\nab\r\n2\r\nxy\r\n1\r\n:5\r\n"));
    assert_eq!(parser.data_integer(), Ok(Data::Integer(12)));
    assert_eq!(parser.data_simple_string(), Ok(text("ab")));
    assert_eq!(parser.data_bulk_string(), Ok(text("xy")));
    assert_eq!(parser.data_array(), Ok(Data::Array(vec![Box::new(Data::Integer(5))])));
}

#[test]
fn values_show_as_their_literal_text() {
    assert_eq!(text("PONG").text(), "PONG");
    assert_eq!(Data::Integer(-120).text(), "-120");
    assert_eq!(Data::Integer(0).text(), "0");
    assert_eq!(Data::Integer(i64::MIN).text(), "-9223372036854775808");
    assert_eq!(Data::Integer(i64::MAX).text(), "9223372036854775807");
    assert_eq!(Data::Null.text(), "null");
}

#[test]
fn arrays_show_one_element_to_the_line() {
    let array = Data::Array(vec![Box::new(Data::Integer(1)), Box::new(text("two")), Box::new(Data::Null)]);
    assert_eq!(array.text(), "1\ntwo\nnull\n");
    let nested = Data::Array(vec![Box::new(array), Box::new(Data::Integer(3))]);
    assert_eq!(nested.text(), "1\ntwo\nnull\n\n3\n");
    assert_eq!(Data::Array(Vec::new()).text(), "");
}

#[test]
fn a_copy_of_a_value_is_the_same_value() {
    let value = Data::Array(vec![
        Box::new(Data::Array(vec![Box::new(text("a")), Box::new(Data::Null)])),
        Box::new(Data::Integer(-7)),
    ]);
    assert_eq!(value.duplicate(), value);
    assert_eq!(value.clone(), value);
    assert_eq!(Data::Null.clone(), Data::Null);
}
