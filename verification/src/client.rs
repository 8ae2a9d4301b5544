//! The connection to the server: framing of commands and decoding of replies.

pub mod data;
pub mod encoding;
pub mod errors;
pub mod parser;
pub mod stream;
pub mod wire;

use crate::client::errors::{ErrorView, RedashError};
use crate::text::{ascii, decimal, push_char, push_natural};
use vstd::prelude::*;
use vstd::string::{StrSliceExecFns, StringExecFns, StringSliceAdditionalSpecFns};

verus! {

/// One end of a connection to a server: where the server is, and whether the
/// byte stream to it has been opened. The stream itself belongs to whoever
/// does the reading and writing.
#[derive(Debug)]
pub struct Client {
    url: String,
    connected: bool,
}

/// The address of a server: host and port with a colon between them.
pub open spec fn address(host: Seq<char>, port: u16) -> Seq<char> {
    host + seq![':'] + ascii(decimal(port as int))
}

/// A command as it goes over the wire: its text, and the end of the line.
pub open spec fn framed(command: Seq<u8>) -> Seq<u8> {
    command + seq![13u8, 10u8]
}

/// The commands refused for want of a connection.
pub open spec fn no_connection() -> ErrorView {
    ErrorView::OperationError("no_connection"@)
}

impl Client {
    /// The address of the server.
    pub closed spec fn url_spec(self) -> Seq<char> {
        self.url@
    }

    /// Whether the byte stream has been opened.
    pub closed spec fn connected(self) -> bool {
        self.connected
    }

    /// An end that is not connected yet.
    pub fn new(host: &str, port: u16) -> (client: Client)
        ensures
            client.url_spec() == address(host@, port),
            !client.connected(),
    {
        let mut url = String::from_str(host);
        push_char(&mut url, ':');
        push_natural(&mut url, port as u64);
        assert(url@ =~= address(host@, port));
        Client { url, connected: false }
    }

    /// The address of the server.
    pub fn url(&self) -> (url: &String)
        ensures
            url@ == self.url_spec(),
    {
        &self.url
    }

    /// Whether the byte stream has been opened.
    pub fn is_connected(&self) -> (connected: bool)
        ensures
            connected == self.connected(),
    {
        self.connected
    }

    /// Records that the byte stream to the server has been opened.
    pub fn connect(&mut self)
        ensures
            final(self).connected(),
            final(self).url_spec() == old(self).url_spec(),
    {
        self.connected = true;
    }

    /// The bytes to write for `command`. Before the connection is there the
    /// command is refused, and nothing is to be written.
    pub fn send_command(&self, command: &str) -> (frame: Result<Vec<u8>, RedashError>)
        ensures
            self.connected() ==> (frame matches Ok(bytes) && bytes@ == framed(
                command.spec_bytes(),
            )),
            !self.connected() ==> (frame matches Err(error) && error@ == no_connection()),
    {
        if !self.connected {
            return Err(RedashError::OperationError(String::from_str("no_connection")));
        }
        let mut bytes = command.as_bytes_vec();
        bytes.push(13);
        bytes.push(10);
        assert(bytes@ =~= framed(command.spec_bytes()));
        Ok(bytes)
    }
}

} // verus!
