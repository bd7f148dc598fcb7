//! The messages that the client exchanges with the document server.

use vstd::prelude::*;

verus! {

/// The size of the buffer that one reply is read into, in bytes.
pub const MESSAGE_SIZE: usize = 1024;

/// The part of `buffer` that holds a reply of `size` bytes: its first `size`
/// bytes, or all of it where it holds fewer.
pub open spec fn received(buffer: Seq<u8>, size: usize) -> Seq<u8> {
    if size <= buffer.len() {
        buffer.subrange(0, size as int)
    } else {
        buffer
    }
}

/// Cuts the buffer that a reply was read into down to the bytes that were
/// read. One read is one reply: nothing marks where a reply ends.
pub fn reply_bytes(buffer: &[u8], size: usize) -> (bytes: &[u8])
    ensures
        bytes@ == received(buffer@, size),
{
    if size <= buffer.len() {
        vstd::slice::slice_subrange(buffer, 0, size)
    } else {
        buffer
    }
}

/// A place in the text: a column and a line, counted from 0.
#[derive(Clone, Copy, PartialEq, Eq, Debug, Structural)]
pub struct Position {
    pub x: usize,
    pub y: usize,
}

/// A request of the client.
#[derive(Clone, PartialEq, Eq, Debug)]
pub enum ServerAction {
    OpenFile { file_path: String },
    Save,
    CloseConnection,
    UpdateClientViewSize { width: u16, height: u16 },
    MoveCursorUp,
    MoveCursorDown,
    MoveCursorLeft,
    MoveCursorRight,
    MoveCursorLineStart,
    MoveCursorLineEnd,
    MoveCursorPageUp,
    MoveCursorPageDown,
    MoveCursorDocumentStart,
    MoveCursorDocumentEnd,
    InsertChar(char),
    InsertNewline,
    InsertTab,
    Backspace,
    Delete,
    GoTo { line_number: usize },
    ScrollClientViewUp { amount: usize },
    ScrollClientViewDown { amount: usize },
    ScrollClientViewLeft { amount: usize },
    ScrollClientViewRight { amount: usize },
    RequestClientViewText,
    RequestClientCursorPosition,
}

/// A reply of the server.
#[derive(Clone, PartialEq, Eq, Debug)]
pub enum ServerResponse {
    ConnectionSucceeded,
    Acknowledge,
    FileOpened { file_name: Option<String>, document_length: usize },
    DisplayView {
        content: String,
        line_numbers: String,
        client_cursor_position: Option<Position>,
        document_cursor_position: Position,
        modified: bool,
    },
    CursorPosition { client_cursor_position: Option<Position>, document_cursor_position: Position },
    Failed(String),
}

} // verus!
