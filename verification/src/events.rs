//! Input events and their translation into client actions.

use crate::application::{ClientAction, Mode};
use crate::protocol::ServerResponse;
use crate::ui::{name_text, Interface, UserInterface};
use vstd::prelude::*;

verus! {

/// How many lines or columns one scroll key moves the view.
pub const VIEW_SCROLL_AMOUNT: usize = 1;

/// The modifier keys held with a key. Only a single modifier, or none, is
/// ever bound; every other combination is `Other`.
#[derive(Clone, Copy, PartialEq, Eq, Debug, Structural)]
pub enum Modifiers {
    Plain,
    Shift,
    Control,
    Alt,
    Other,
}

impl Modifiers {
    /// The modifiers that the bit set `bits` stands for: bit 0 is shift, bit
    /// 1 is control and bit 2 is alt.
    pub open spec fn of_bits(bits: u8) -> Modifiers {
        if bits == 0 {
            Modifiers::Plain
        } else if bits == 1 {
            Modifiers::Shift
        } else if bits == 2 {
            Modifiers::Control
        } else if bits == 4 {
            Modifiers::Alt
        } else {
            Modifiers::Other
        }
    }

    pub fn from_bits(bits: u8) -> (modifiers: Modifiers)
        ensures
            modifiers == Self::of_bits(bits),
    {
        if bits == 0 {
            Modifiers::Plain
        } else if bits == 1 {
            Modifiers::Shift
        } else if bits == 2 {
            Modifiers::Control
        } else if bits == 4 {
            Modifiers::Alt
        } else {
            Modifiers::Other
        }
    }
}

/// The key that was pressed. `Other` stands for every key that no mode binds.
#[derive(Clone, Copy, PartialEq, Eq, Debug, Structural)]
pub enum KeyCode {
    Backspace,
    Enter,
    Left,
    Right,
    Up,
    Down,
    Home,
    End,
    PageUp,
    PageDown,
    Tab,
    Delete,
    Esc,
    Char(char),
    Other,
}

#[derive(Clone, Copy, PartialEq, Eq, Debug, Structural)]
pub struct KeyEvent {
    pub modifiers: Modifiers,
    pub code: KeyCode,
}

/// One event of the terminal.
#[derive(Clone, Copy, PartialEq, Eq, Debug, Structural)]
pub enum Event {
    Key(KeyEvent),
    Resize(u16, u16),
    Other,
}

/// One row of a key table: the key, with its modifiers, and the action it is
/// bound to.
#[derive(Clone, Copy, PartialEq, Eq, Debug, Structural)]
pub struct Binding {
    pub modifiers: Modifiers,
    pub code: KeyCode,
    pub action: ClientAction,
}

pub open spec fn row(modifiers: Modifiers, code: KeyCode, action: ClientAction) -> Binding {
    Binding { modifiers, code, action }
}

/// The key table of insert mode, with the rows for typed characters written
/// out for the character `c`.
pub open spec fn insert_bindings(c: char) -> Seq<Binding> {
    seq![
        row(Modifiers::Control, KeyCode::Right, ClientAction::MoveCursorWordEnd),
        row(Modifiers::Control, KeyCode::Left, ClientAction::MoveCursorWordStart),
        row(Modifiers::Control, KeyCode::Home, ClientAction::MoveCursorDocumentStart),
        row(Modifiers::Control, KeyCode::End, ClientAction::MoveCursorDocumentEnd),
        row(Modifiers::Control, KeyCode::Char('q'), ClientAction::Quit),
        row(Modifiers::Control, KeyCode::Char('s'), ClientAction::Save),
        row(Modifiers::Control, KeyCode::Char('g'), ClientAction::SetModeGoto),
        row(Modifiers::Control, KeyCode::Char('f'), ClientAction::SetModeFindReplace),
        row(Modifiers::Control, KeyCode::Char('l'), ClientAction::DisplayLineNumbers),
        row(Modifiers::Control, KeyCode::Char('k'), ClientAction::DisplayStatusBar),
        row(Modifiers::Control, KeyCode::Char('o'), ClientAction::SetModeCommand),
        row(Modifiers::Shift, KeyCode::Char(c), ClientAction::InsertChar(c)),
        row(Modifiers::Alt, KeyCode::Down, ClientAction::ScrollViewDown(VIEW_SCROLL_AMOUNT)),
        row(Modifiers::Alt, KeyCode::Left, ClientAction::ScrollViewLeft(VIEW_SCROLL_AMOUNT)),
        row(Modifiers::Alt, KeyCode::Right, ClientAction::ScrollViewRight(VIEW_SCROLL_AMOUNT)),
        row(Modifiers::Alt, KeyCode::Up, ClientAction::ScrollViewUp(VIEW_SCROLL_AMOUNT)),
        row(Modifiers::Plain, KeyCode::Tab, ClientAction::InsertTab),
        row(Modifiers::Plain, KeyCode::Enter, ClientAction::InsertNewline),
        row(Modifiers::Plain, KeyCode::Delete, ClientAction::Delete),
        row(Modifiers::Plain, KeyCode::Backspace, ClientAction::Backspace),
        row(Modifiers::Plain, KeyCode::Up, ClientAction::MoveCursorUp),
        row(Modifiers::Plain, KeyCode::Down, ClientAction::MoveCursorDown),
        row(Modifiers::Plain, KeyCode::Left, ClientAction::MoveCursorLeft),
        row(Modifiers::Plain, KeyCode::Right, ClientAction::MoveCursorRight),
        row(Modifiers::Plain, KeyCode::PageUp, ClientAction::MoveCursorPageUp),
        row(Modifiers::Plain, KeyCode::PageDown, ClientAction::MoveCursorPageDown),
        row(Modifiers::Plain, KeyCode::Home, ClientAction::MoveCursorLineStart),
        row(Modifiers::Plain, KeyCode::End, ClientAction::MoveCursorLineEnd),
        row(Modifiers::Plain, KeyCode::Char(c), ClientAction::InsertChar(c)),
    ]
}

/// The key table of warning mode.
pub open spec fn warning_bindings() -> Seq<Binding> {
    seq![
        row(Modifiers::Control, KeyCode::Char('q'), ClientAction::QuitIgnoringChanges),
        row(Modifiers::Plain, KeyCode::Esc, ClientAction::WarningModeExit),
    ]
}

/// The key table of goto mode.
pub open spec fn goto_bindings(c: char) -> Seq<Binding> {
    seq![
        row(Modifiers::Plain, KeyCode::Esc, ClientAction::GotoModeExit),
        row(Modifiers::Plain, KeyCode::Enter, ClientAction::GotoModeAccept),
        row(Modifiers::Plain, KeyCode::Backspace, ClientAction::GotoModeBackspace),
        row(Modifiers::Plain, KeyCode::Delete, ClientAction::GotoModeDelete),
        row(Modifiers::Plain, KeyCode::Right, ClientAction::GotoModeMoveCursorRight),
        row(Modifiers::Plain, KeyCode::Left, ClientAction::GotoModeMoveCursorLeft),
        row(Modifiers::Plain, KeyCode::Home, ClientAction::GotoModeMoveCursorLineStart),
        row(Modifiers::Plain, KeyCode::End, ClientAction::GotoModeMoveCursorLineEnd),
        row(Modifiers::Plain, KeyCode::Char(c), ClientAction::GotoModeInsertChar(c)),
    ]
}

/// The key table of find-and-replace mode.
pub open spec fn find_replace_bindings(c: char) -> Seq<Binding> {
    seq![
        row(Modifiers::Shift, KeyCode::Char(c), ClientAction::FindReplaceModeInsertChar(c)),
        row(Modifiers::Plain, KeyCode::Esc, ClientAction::FindReplaceModeExit),
        row(Modifiers::Plain, KeyCode::Tab, ClientAction::FindReplaceModeSwitchUtilBarFocus),
        row(Modifiers::Plain, KeyCode::Up, ClientAction::FindReplaceModePreviousInstance),
        row(Modifiers::Plain, KeyCode::Down, ClientAction::FindReplaceModeNextInstance),
        row(Modifiers::Plain, KeyCode::Backspace, ClientAction::FindReplaceModeBackspace),
        row(Modifiers::Plain, KeyCode::Delete, ClientAction::FindReplaceModeDelete),
        row(Modifiers::Plain, KeyCode::Right, ClientAction::FindReplaceModeMoveCursorRight),
        row(Modifiers::Plain, KeyCode::Left, ClientAction::FindReplaceModeMoveCursorLeft),
        row(Modifiers::Plain, KeyCode::Home, ClientAction::FindReplaceModeMoveCursorLineStart),
        row(Modifiers::Plain, KeyCode::End, ClientAction::FindReplaceModeMoveCursorLineEnd),
        row(Modifiers::Plain, KeyCode::Enter, ClientAction::FindReplaceModeAccept),
        row(Modifiers::Plain, KeyCode::Char(c), ClientAction::FindReplaceModeInsertChar(c)),
    ]
}

/// The key table of command mode.
pub open spec fn command_bindings(c: char) -> Seq<Binding> {
    seq![
        row(Modifiers::Shift, KeyCode::Char(c), ClientAction::CommandModeInsertChar(c)),
        row(Modifiers::Plain, KeyCode::Esc, ClientAction::CommandModeExit),
        row(Modifiers::Plain, KeyCode::Char(c), ClientAction::CommandModeInsertChar(c)),
        row(Modifiers::Plain, KeyCode::Enter, ClientAction::CommandModeAccept),
        row(Modifiers::Plain, KeyCode::Backspace, ClientAction::CommandModeBackspace),
        row(Modifiers::Plain, KeyCode::Delete, ClientAction::CommandModeDelete),
        row(Modifiers::Plain, KeyCode::Right, ClientAction::CommandModeMoveCursorRight),
        row(Modifiers::Plain, KeyCode::Left, ClientAction::CommandModeMoveCursorLeft),
        row(Modifiers::Plain, KeyCode::Home, ClientAction::CommandModeMoveCursorLineStart),
        row(Modifiers::Plain, KeyCode::End, ClientAction::CommandModeMoveCursorLineEnd),
    ]
}

/// The key table of `mode`. A table has one row for each bound key; the key
/// of a typed character is bound for every character, and its rows stand
/// here for the character `c`. Save-as mode binds no key.
pub open spec fn bindings(mode: Mode, c: char) -> Seq<Binding> {
    match mode {
        Mode::Insert => insert_bindings(c),
        Mode::Warning(_) => warning_bindings(),
        Mode::Goto => goto_bindings(c),
        Mode::FindReplace => find_replace_bindings(c),
        Mode::Command => command_bindings(c),
        Mode::SaveAs => Seq::empty(),
    }
}

/// The character that `code` types, or a blank where it types none.
pub open spec fn typed_char(code: KeyCode) -> char {
    match code {
        KeyCode::Char(c) => c,
        _ => ' ',
    }
}

/// Row `i` of the table of `mode` is a row for `key`.
pub open spec fn binds(mode: Mode, i: int, key: KeyEvent) -> bool {
    let table = bindings(mode, typed_char(key.code));
    &&& 0 <= i < table.len()
    &&& table[i].modifiers == key.modifiers
    &&& table[i].code == key.code
}

/// The table of `mode` has a row for `key`.
pub open spec fn listed(mode: Mode, key: KeyEvent) -> bool {
    exists|i: int| binds(mode, i, key)
}

/// The action of `event` in `mode`: a resize whatever the mode, the action of
/// the key's row where the table of the mode has one, and no action otherwise.
pub open spec fn translation(event: Event, mode: Mode) -> ClientAction {
    match event {
        Event::Resize(width, height) => ClientAction::Resize(width, height),
        Event::Key(key) => if listed(mode, key) {
            let i = choose|i: int| binds(mode, i, key);
            bindings(mode, typed_char(key.code))[i].action
        } else {
            ClientAction::NoOp
        },
        Event::Other => ClientAction::NoOp,
    }
}

/// Rows `i` and `j` of the table of `mode` are both rows for `key` only where
/// they are the same row: no key is bound twice in one mode.
pub proof fn lemma_key_is_bound_once(mode: Mode, key: KeyEvent, i: int, j: int)
    requires
        binds(mode, i, key),
        binds(mode, j, key),
    ensures
        i == j,
{
}

/// A key that the table of `mode` does not list does nothing, and a listed
/// key does what its row says.
pub proof fn lemma_translation_follows_table(mode: Mode, key: KeyEvent)
    ensures
        !listed(mode, key) ==> translation(Event::Key(key), mode) == ClientAction::NoOp,
        forall|i: int|
            binds(mode, i, key) ==> translation(Event::Key(key), mode) == bindings(
                mode,
                typed_char(key.code),
            )[i].action,
{
    assert forall|i: int| binds(mode, i, key) implies translation(Event::Key(key), mode)
        == bindings(mode, typed_char(key.code))[i].action by {
        let chosen = choose|i: int| binds(mode, i, key);
        lemma_key_is_bound_once(mode, key, i, chosen);
    }
}

fn bind(modifiers: Modifiers, code: KeyCode, action: ClientAction) -> (binding: Binding)
    ensures
        binding == row(modifiers, code, action),
{
    Binding { modifiers, code, action }
}

/// The key table of insert mode.
fn insert_table(c: char) -> (table: Vec<Binding>)
    ensures
        table@ == insert_bindings(c),
{
    vec![
        bind(Modifiers::Control, KeyCode::Right, ClientAction::MoveCursorWordEnd),
        bind(Modifiers::Control, KeyCode::Left, ClientAction::MoveCursorWordStart),
        bind(Modifiers::Control, KeyCode::Home, ClientAction::MoveCursorDocumentStart),
        bind(Modifiers::Control, KeyCode::End, ClientAction::MoveCursorDocumentEnd),
        bind(Modifiers::Control, KeyCode::Char('q'), ClientAction::Quit),
        bind(Modifiers::Control, KeyCode::Char('s'), ClientAction::Save),
        bind(Modifiers::Control, KeyCode::Char('g'), ClientAction::SetModeGoto),
        bind(Modifiers::Control, KeyCode::Char('f'), ClientAction::SetModeFindReplace),
        bind(Modifiers::Control, KeyCode::Char('l'), ClientAction::DisplayLineNumbers),
        bind(Modifiers::Control, KeyCode::Char('k'), ClientAction::DisplayStatusBar),
        bind(Modifiers::Control, KeyCode::Char('o'), ClientAction::SetModeCommand),
        bind(Modifiers::Shift, KeyCode::Char(c), ClientAction::InsertChar(c)),
        bind(Modifiers::Alt, KeyCode::Down, ClientAction::ScrollViewDown(VIEW_SCROLL_AMOUNT)),
        bind(Modifiers::Alt, KeyCode::Left, ClientAction::ScrollViewLeft(VIEW_SCROLL_AMOUNT)),
        bind(Modifiers::Alt, KeyCode::Right, ClientAction::ScrollViewRight(VIEW_SCROLL_AMOUNT)),
        bind(Modifiers::Alt, KeyCode::Up, ClientAction::ScrollViewUp(VIEW_SCROLL_AMOUNT)),
        bind(Modifiers::Plain, KeyCode::Tab, ClientAction::InsertTab),
        bind(Modifiers::Plain, KeyCode::Enter, ClientAction::InsertNewline),
        bind(Modifiers::Plain, KeyCode::Delete, ClientAction::Delete),
        bind(Modifiers::Plain, KeyCode::Backspace, ClientAction::Backspace),
        bind(Modifiers::Plain, KeyCode::Up, ClientAction::MoveCursorUp),
        bind(Modifiers::Plain, KeyCode::Down, ClientAction::MoveCursorDown),
        bind(Modifiers::Plain, KeyCode::Left, ClientAction::MoveCursorLeft),
        bind(Modifiers::Plain, KeyCode::Right, ClientAction::MoveCursorRight),
        bind(Modifiers::Plain, KeyCode::PageUp, ClientAction::MoveCursorPageUp),
        bind(Modifiers::Plain, KeyCode::PageDown, ClientAction::MoveCursorPageDown),
        bind(Modifiers::Plain, KeyCode::Home, ClientAction::MoveCursorLineStart),
        bind(Modifiers::Plain, KeyCode::End, ClientAction::MoveCursorLineEnd),
        bind(Modifiers::Plain, KeyCode::Char(c), ClientAction::InsertChar(c)),
    ]
}

/// The key table of warning mode.
fn warning_table() -> (table: Vec<Binding>)
    ensures
        table@ == warning_bindings(),
{
    vec![
        bind(Modifiers::Control, KeyCode::Char('q'), ClientAction::QuitIgnoringChanges),
        bind(Modifiers::Plain, KeyCode::Esc, ClientAction::WarningModeExit),
    ]
}

/// The key table of goto mode.
fn goto_table(c: char) -> (table: Vec<Binding>)
    ensures
        table@ == goto_bindings(c),
{
    vec![
        bind(Modifiers::Plain, KeyCode::Esc, ClientAction::GotoModeExit),
        bind(Modifiers::Plain, KeyCode::Enter, ClientAction::GotoModeAccept),
        bind(Modifiers::Plain, KeyCode::Backspace, ClientAction::GotoModeBackspace),
        bind(Modifiers::Plain, KeyCode::Delete, ClientAction::GotoModeDelete),
        bind(Modifiers::Plain, KeyCode::Right, ClientAction::GotoModeMoveCursorRight),
        bind(Modifiers::Plain, KeyCode::Left, ClientAction::GotoModeMoveCursorLeft),
        bind(Modifiers::Plain, KeyCode::Home, ClientAction::GotoModeMoveCursorLineStart),
        bind(Modifiers::Plain, KeyCode::End, ClientAction::GotoModeMoveCursorLineEnd),
        bind(Modifiers::Plain, KeyCode::Char(c), ClientAction::GotoModeInsertChar(c)),
    ]
}

/// The key table of find-and-replace mode.
fn find_replace_table(c: char) -> (table: Vec<Binding>)
    ensures
        table@ == find_replace_bindings(c),
{
    vec![
        bind(Modifiers::Shift, KeyCode::Char(c), ClientAction::FindReplaceModeInsertChar(c)),
        bind(Modifiers::Plain, KeyCode::Esc, ClientAction::FindReplaceModeExit),
        bind(Modifiers::Plain, KeyCode::Tab, ClientAction::FindReplaceModeSwitchUtilBarFocus),
        bind(Modifiers::Plain, KeyCode::Up, ClientAction::FindReplaceModePreviousInstance),
        bind(Modifiers::Plain, KeyCode::Down, ClientAction::FindReplaceModeNextInstance),
        bind(Modifiers::Plain, KeyCode::Backspace, ClientAction::FindReplaceModeBackspace),
        bind(Modifiers::Plain, KeyCode::Delete, ClientAction::FindReplaceModeDelete),
        bind(Modifiers::Plain, KeyCode::Right, ClientAction::FindReplaceModeMoveCursorRight),
        bind(Modifiers::Plain, KeyCode::Left, ClientAction::FindReplaceModeMoveCursorLeft),
        bind(Modifiers::Plain, KeyCode::Home, ClientAction::FindReplaceModeMoveCursorLineStart),
        bind(Modifiers::Plain, KeyCode::End, ClientAction::FindReplaceModeMoveCursorLineEnd),
        bind(Modifiers::Plain, KeyCode::Enter, ClientAction::FindReplaceModeAccept),
        bind(Modifiers::Plain, KeyCode::Char(c), ClientAction::FindReplaceModeInsertChar(c)),
    ]
}

/// The key table of command mode.
fn command_table(c: char) -> (table: Vec<Binding>)
    ensures
        table@ == command_bindings(c),
{
    vec![
        bind(Modifiers::Shift, KeyCode::Char(c), ClientAction::CommandModeInsertChar(c)),
        bind(Modifiers::Plain, KeyCode::Esc, ClientAction::CommandModeExit),
        bind(Modifiers::Plain, KeyCode::Char(c), ClientAction::CommandModeInsertChar(c)),
        bind(Modifiers::Plain, KeyCode::Enter, ClientAction::CommandModeAccept),
        bind(Modifiers::Plain, KeyCode::Backspace, ClientAction::CommandModeBackspace),
        bind(Modifiers::Plain, KeyCode::Delete, ClientAction::CommandModeDelete),
        bind(Modifiers::Plain, KeyCode::Right, ClientAction::CommandModeMoveCursorRight),
        bind(Modifiers::Plain, KeyCode::Left, ClientAction::CommandModeMoveCursorLeft),
        bind(Modifiers::Plain, KeyCode::Home, ClientAction::CommandModeMoveCursorLineStart),
        bind(Modifiers::Plain, KeyCode::End, ClientAction::CommandModeMoveCursorLineEnd),
    ]
}

/// The key table of `mode`, with the rows for typed characters written out
/// for the character `c`.
pub fn key_table(mode: Mode, c: char) -> (table: Vec<Binding>)
    ensures
        table@ == bindings(mode, c),
{
    match mode {
        Mode::Insert => insert_table(c),
        Mode::Warning(_) => warning_table(),
        Mode::Goto => goto_table(c),
        Mode::FindReplace => find_replace_table(c),
        Mode::Command => command_table(c),
        Mode::SaveAs => Vec::new(),
    }
}

/// Translates one terminal event into the client action that it stands for in
/// `mode`. A resize is reported whatever the mode. A key is looked up in the
/// table of the mode, from its first row on; a key without a row does nothing.
pub fn handle_event(event: Event, mode: Mode) -> (action: ClientAction)
    ensures
        action == translation(event, mode),
        event matches Event::Key(key) ==> (!listed(mode, key) ==> action == ClientAction::NoOp),
{
    match event {
        Event::Key(key) => {
            let c = match key.code {
                KeyCode::Char(c) => c,
                _ => ' ',
            };
            let table = key_table(mode, c);
            let mut i: usize = 0;
            while i < table.len()
                invariant
                    i <= table.len(),
                    event == Event::Key(key),
                    table@ == bindings(mode, typed_char(key.code)),
                    forall|j: int| 0 <= j < i ==> !binds(mode, j, key),
                decreases table.len() - i,
            {
                if table[i].modifiers == key.modifiers && table[i].code == key.code {
                    proof {
                        assert(binds(mode, i as int, key));
                        lemma_translation_follows_table(mode, key);
                    }
                    return table[i].action;
                }
                i = i + 1;
            }
            ClientAction::NoOp
        },
        Event::Resize(width, height) => ClientAction::Resize(width, height),
        Event::Other => ClientAction::NoOp,
    }
}

/// The interface after `response`. A reply that opens a file gives the file's
/// name and the document's length; one that displays a view gives the text
/// and the line numbers in view, both cursor positions and the modified flag;
/// one that reports the cursor gives both cursor positions. Every other
/// reply, a failure among them, leaves the interface as it is.
pub open spec fn reconciled(ui: Interface, response: ServerResponse) -> Interface {
    match response {
        ServerResponse::FileOpened { file_name, document_length } => Interface {
            document_file_name: name_text(file_name),
            document_length,
            ..ui
        },
        ServerResponse::DisplayView {
            content,
            line_numbers,
            client_cursor_position,
            document_cursor_position,
            modified,
        } => Interface {
            text_in_view: content@,
            line_numbers_in_view: line_numbers@,
            client_cursor_position,
            document_cursor_position: Some(document_cursor_position),
            document_modified: modified,
            ..ui
        },
        ServerResponse::CursorPosition {
            client_cursor_position,
            document_cursor_position,
        } => Interface {
            client_cursor_position,
            document_cursor_position: Some(document_cursor_position),
            ..ui
        },
        ServerResponse::ConnectionSucceeded
        | ServerResponse::Acknowledge
        | ServerResponse::Failed(_) => ui,
    }
}

/// Writes what `response` carries into the interface.
pub fn process_server_response(response: ServerResponse, ui: &mut UserInterface)
    ensures
        final(ui)@ == reconciled(old(ui)@, response),
{
    match response {
        ServerResponse::FileOpened { file_name, document_length } => {
            ui.set_file_name(file_name);
            ui.set_document_length(document_length);
        },
        ServerResponse::ConnectionSucceeded => {},
        ServerResponse::Acknowledge => {},
        ServerResponse::DisplayView {
            content,
            line_numbers,
            client_cursor_position,
            document_cursor_position,
            modified,
        } => {
            ui.set_text_in_view(content);
            ui.set_line_numbers_in_view(line_numbers);
            ui.set_client_cursor_position(client_cursor_position);
            ui.set_document_cursor_position(document_cursor_position);
            ui.set_document_modified(modified);
        },
        ServerResponse::Failed(_) => {},
        ServerResponse::CursorPosition { client_cursor_position, document_cursor_position } => {
            ui.set_client_cursor_position(client_cursor_position);
            ui.set_document_cursor_position(document_cursor_position);
        },
    }
}

} // verus!
