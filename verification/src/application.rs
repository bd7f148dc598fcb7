//! The application state: the active mode, the quit flag and the user
//! interface, and the dispatcher that carries out one client action.

use crate::events::{
    binds, handle_event, listed, process_server_response, reconciled, translation, Event,
};
use crate::field::{Edit, Field};
use crate::layout::{Areas, Rect};
use crate::line_number::{goto_target, is_valid_line_number, target_line, valid_line_number};
use crate::protocol::{ServerAction, ServerResponse};
use crate::ui::{Interface, UserInterface};
use vstd::prelude::*;

verus! {

/// The interaction mode. Exactly one is active at a time.
#[derive(Clone, Copy, PartialEq, Eq, Debug, Structural)]
pub enum Mode {
    Insert,
    Warning(WarningKind),
    Command,
    FindReplace,
    Goto,
    SaveAs,
}

/// Why a warning is shown.
#[derive(Clone, Copy, PartialEq, Eq, Debug, Structural)]
pub enum WarningKind {
    FocusedFileIsModified,
    FileSaveFailed,
}

/// What the user asked for with one input event.
#[derive(Clone, Copy, PartialEq, Eq, Debug, Structural)]
pub enum ClientAction {
    Backspace,
    CommandModeAccept,
    CommandModeBackspace,
    CommandModeDelete,
    CommandModeExit,
    CommandModeInsertChar(char),
    CommandModeMoveCursorLeft,
    CommandModeMoveCursorLineEnd,
    CommandModeMoveCursorLineStart,
    CommandModeMoveCursorRight,
    Delete,
    DisplayLineNumbers,
    DisplayStatusBar,
    FindReplaceModeAccept,
    FindReplaceModeBackspace,
    FindReplaceModeDelete,
    FindReplaceModeExit,
    FindReplaceModeInsertChar(char),
    FindReplaceModeMoveCursorLeft,
    FindReplaceModeMoveCursorLineEnd,
    FindReplaceModeMoveCursorLineStart,
    FindReplaceModeMoveCursorRight,
    FindReplaceModeNextInstance,
    FindReplaceModePreviousInstance,
    FindReplaceModeSwitchUtilBarFocus,
    GotoModeAccept,
    GotoModeBackspace,
    GotoModeDelete,
    GotoModeExit,
    GotoModeInsertChar(char),
    GotoModeMoveCursorLeft,
    GotoModeMoveCursorLineEnd,
    GotoModeMoveCursorLineStart,
    GotoModeMoveCursorRight,
    InsertChar(char),
    InsertNewline,
    InsertTab,
    MoveCursorDocumentEnd,
    MoveCursorDocumentStart,
    MoveCursorDown,
    MoveCursorLeft,
    MoveCursorLineEnd,
    MoveCursorLineStart,
    MoveCursorPageDown,
    MoveCursorPageUp,
    MoveCursorRight,
    MoveCursorUp,
    MoveCursorWordEnd,
    MoveCursorWordStart,
    NoOp,
    Quit,
    QuitIgnoringChanges,
    Resize(u16, u16),
    Save,
    ScrollViewDown(usize),
    ScrollViewLeft(usize),
    ScrollViewRight(usize),
    ScrollViewUp(usize),
    SetModeCommand,
    SetModeFindReplace,
    SetModeGoto,
    WarningModeExit,
}

/// What is left to do on the connection once an action has been carried out.
#[derive(Clone, PartialEq, Eq, Debug)]
pub enum Dispatch {
    /// Nothing: the action was a local matter.
    Done,
    /// Send the request, wait for the one reply, and hand the reply to
    /// `Application::process_server_response`.
    Call(ServerAction),
    /// Send the request and wait for no reply.
    Send(ServerAction),
}

/// What the application holds, as plain values.
pub struct State {
    pub should_quit: bool,
    pub mode: Mode,
    pub ui: Interface,
}

/// The way an action takes through the dispatcher.
#[derive(Clone, PartialEq, Eq, Debug)]
pub enum Route {
    /// Nothing is done.
    Ignore,
    /// The request goes to the server, which carries the action out.
    Forward(ServerAction),
    /// The field of the command prompt is edited.
    EditCommand(Edit),
    /// The field of the goto prompt is edited.
    EditGoto(Edit),
    /// The field of find and replace that has the focus is edited.
    EditFindReplace(Edit),
    /// The prompt of the primary field is closed.
    ClosePrompt,
    /// Find and replace is closed.
    CloseFindReplace,
    /// The goto prompt is accepted.
    AcceptGoto,
    /// The focus goes to the other field of find and replace.
    SwitchFocus,
    /// The line numbers are shown or hidden.
    ToggleLineNumbers,
    /// The status bar is shown or hidden.
    ToggleStatusBar,
    /// The terminal has a new width and height.
    Resize(u16, u16),
    /// The user asks to quit.
    Quit,
    /// The user asks to quit whatever the state of the document.
    QuitIgnoringChanges,
    /// The mode becomes the active mode.
    Enter(Mode),
}

/// The route of each action. Moving the cursor by words, stepping through
/// the matches of a search and accepting find and replace are accepted and
/// do nothing.
pub open spec fn route_of(action: ClientAction) -> Route {
    match action {
        ClientAction::Backspace => Route::Forward(ServerAction::Backspace),
        ClientAction::CommandModeAccept => Route::ClosePrompt,
        ClientAction::CommandModeBackspace => Route::EditCommand(Edit::Backspace),
        ClientAction::CommandModeDelete => Route::EditCommand(Edit::Delete),
        ClientAction::CommandModeExit => Route::ClosePrompt,
        ClientAction::CommandModeInsertChar(c) => Route::EditCommand(Edit::Insert(c)),
        ClientAction::CommandModeMoveCursorLeft => Route::EditCommand(Edit::MoveLeft),
        ClientAction::CommandModeMoveCursorLineEnd => Route::EditCommand(Edit::MoveEnd),
        ClientAction::CommandModeMoveCursorLineStart => Route::EditCommand(Edit::MoveHome),
        ClientAction::CommandModeMoveCursorRight => Route::EditCommand(Edit::MoveRight),
        ClientAction::Delete => Route::Forward(ServerAction::Delete),
        ClientAction::DisplayLineNumbers => Route::ToggleLineNumbers,
        ClientAction::DisplayStatusBar => Route::ToggleStatusBar,
        ClientAction::FindReplaceModeAccept => Route::Ignore,
        ClientAction::FindReplaceModeBackspace => Route::EditFindReplace(Edit::Backspace),
        ClientAction::FindReplaceModeDelete => Route::EditFindReplace(Edit::Delete),
        ClientAction::FindReplaceModeExit => Route::CloseFindReplace,
        ClientAction::FindReplaceModeInsertChar(c) => Route::EditFindReplace(Edit::Insert(c)),
        ClientAction::FindReplaceModeMoveCursorLeft => Route::EditFindReplace(Edit::MoveLeft),
        ClientAction::FindReplaceModeMoveCursorLineEnd => Route::EditFindReplace(Edit::MoveEnd),
        ClientAction::FindReplaceModeMoveCursorLineStart => Route::EditFindReplace(Edit::MoveHome),
        ClientAction::FindReplaceModeMoveCursorRight => Route::EditFindReplace(Edit::MoveRight),
        ClientAction::FindReplaceModeNextInstance => Route::Ignore,
        ClientAction::FindReplaceModePreviousInstance => Route::Ignore,
        ClientAction::FindReplaceModeSwitchUtilBarFocus => Route::SwitchFocus,
        ClientAction::GotoModeAccept => Route::AcceptGoto,
        ClientAction::GotoModeBackspace => Route::EditGoto(Edit::Backspace),
        ClientAction::GotoModeDelete => Route::EditGoto(Edit::Delete),
        ClientAction::GotoModeExit => Route::ClosePrompt,
        ClientAction::GotoModeInsertChar(c) => Route::EditGoto(Edit::Insert(c)),
        ClientAction::GotoModeMoveCursorLeft => Route::EditGoto(Edit::MoveLeft),
        ClientAction::GotoModeMoveCursorLineEnd => Route::EditGoto(Edit::MoveEnd),
        ClientAction::GotoModeMoveCursorLineStart => Route::EditGoto(Edit::MoveHome),
        ClientAction::GotoModeMoveCursorRight => Route::EditGoto(Edit::MoveRight),
        ClientAction::InsertChar(c) => Route::Forward(ServerAction::InsertChar(c)),
        ClientAction::InsertNewline => Route::Forward(ServerAction::InsertNewline),
        ClientAction::InsertTab => Route::Forward(ServerAction::InsertTab),
        ClientAction::MoveCursorDocumentEnd => Route::Forward(ServerAction::MoveCursorDocumentEnd),
        ClientAction::MoveCursorDocumentStart => Route::Forward(
            ServerAction::MoveCursorDocumentStart,
        ),
        ClientAction::MoveCursorDown => Route::Forward(ServerAction::MoveCursorDown),
        ClientAction::MoveCursorLeft => Route::Forward(ServerAction::MoveCursorLeft),
        ClientAction::MoveCursorLineEnd => Route::Forward(ServerAction::MoveCursorLineEnd),
        ClientAction::MoveCursorLineStart => Route::Forward(ServerAction::MoveCursorLineStart),
        ClientAction::MoveCursorPageDown => Route::Forward(ServerAction::MoveCursorPageDown),
        ClientAction::MoveCursorPageUp => Route::Forward(ServerAction::MoveCursorPageUp),
        ClientAction::MoveCursorRight => Route::Forward(ServerAction::MoveCursorRight),
        ClientAction::MoveCursorUp => Route::Forward(ServerAction::MoveCursorUp),
        ClientAction::MoveCursorWordEnd => Route::Ignore,
        ClientAction::MoveCursorWordStart => Route::Ignore,
        ClientAction::NoOp => Route::Ignore,
        ClientAction::Quit => Route::Quit,
        ClientAction::QuitIgnoringChanges => Route::QuitIgnoringChanges,
        ClientAction::Resize(width, height) => Route::Resize(width, height),
        ClientAction::Save => Route::Forward(ServerAction::Save),
        ClientAction::ScrollViewDown(amount) => Route::Forward(
            ServerAction::ScrollClientViewDown { amount },
        ),
        ClientAction::ScrollViewLeft(amount) => Route::Forward(
            ServerAction::ScrollClientViewLeft { amount },
        ),
        ClientAction::ScrollViewRight(amount) => Route::Forward(
            ServerAction::ScrollClientViewRight { amount },
        ),
        ClientAction::ScrollViewUp(amount) => Route::Forward(
            ServerAction::ScrollClientViewUp { amount },
        ),
        ClientAction::SetModeCommand => Route::Enter(Mode::Command),
        ClientAction::SetModeFindReplace => Route::Enter(Mode::FindReplace),
        ClientAction::SetModeGoto => Route::Enter(Mode::Goto),
        ClientAction::WarningModeExit => Route::Enter(Mode::Insert),
    }
}

/// Finds the route of `action`.
pub fn route(action: ClientAction) -> (route: Route)
    ensures
        route == route_of(action),
{
    match action {
        ClientAction::Backspace => Route::Forward(ServerAction::Backspace),
        ClientAction::CommandModeAccept => Route::ClosePrompt,
        ClientAction::CommandModeBackspace => Route::EditCommand(Edit::Backspace),
        ClientAction::CommandModeDelete => Route::EditCommand(Edit::Delete),
        ClientAction::CommandModeExit => Route::ClosePrompt,
        ClientAction::CommandModeInsertChar(c) => Route::EditCommand(Edit::Insert(c)),
        ClientAction::CommandModeMoveCursorLeft => Route::EditCommand(Edit::MoveLeft),
        ClientAction::CommandModeMoveCursorLineEnd => Route::EditCommand(Edit::MoveEnd),
        ClientAction::CommandModeMoveCursorLineStart => Route::EditCommand(Edit::MoveHome),
        ClientAction::CommandModeMoveCursorRight => Route::EditCommand(Edit::MoveRight),
        ClientAction::Delete => Route::Forward(ServerAction::Delete),
        ClientAction::DisplayLineNumbers => Route::ToggleLineNumbers,
        ClientAction::DisplayStatusBar => Route::ToggleStatusBar,
        ClientAction::FindReplaceModeAccept => Route::Ignore,
        ClientAction::FindReplaceModeBackspace => Route::EditFindReplace(Edit::Backspace),
        ClientAction::FindReplaceModeDelete => Route::EditFindReplace(Edit::Delete),
        ClientAction::FindReplaceModeExit => Route::CloseFindReplace,
        ClientAction::FindReplaceModeInsertChar(c) => Route::EditFindReplace(Edit::Insert(c)),
        ClientAction::FindReplaceModeMoveCursorLeft => Route::EditFindReplace(Edit::MoveLeft),
        ClientAction::FindReplaceModeMoveCursorLineEnd => Route::EditFindReplace(Edit::MoveEnd),
        ClientAction::FindReplaceModeMoveCursorLineStart => Route::EditFindReplace(Edit::MoveHome),
        ClientAction::FindReplaceModeMoveCursorRight => Route::EditFindReplace(Edit::MoveRight),
        ClientAction::FindReplaceModeNextInstance => Route::Ignore,
        ClientAction::FindReplaceModePreviousInstance => Route::Ignore,
        ClientAction::FindReplaceModeSwitchUtilBarFocus => Route::SwitchFocus,
        ClientAction::GotoModeAccept => Route::AcceptGoto,
        ClientAction::GotoModeBackspace => Route::EditGoto(Edit::Backspace),
        ClientAction::GotoModeDelete => Route::EditGoto(Edit::Delete),
        ClientAction::GotoModeExit => Route::ClosePrompt,
        ClientAction::GotoModeInsertChar(c) => Route::EditGoto(Edit::Insert(c)),
        ClientAction::GotoModeMoveCursorLeft => Route::EditGoto(Edit::MoveLeft),
        ClientAction::GotoModeMoveCursorLineEnd => Route::EditGoto(Edit::MoveEnd),
        ClientAction::GotoModeMoveCursorLineStart => Route::EditGoto(Edit::MoveHome),
        ClientAction::GotoModeMoveCursorRight => Route::EditGoto(Edit::MoveRight),
        ClientAction::InsertChar(c) => Route::Forward(ServerAction::InsertChar(c)),
        ClientAction::InsertNewline => Route::Forward(ServerAction::InsertNewline),
        ClientAction::InsertTab => Route::Forward(ServerAction::InsertTab),
        ClientAction::MoveCursorDocumentEnd => Route::Forward(ServerAction::MoveCursorDocumentEnd),
        ClientAction::MoveCursorDocumentStart => Route::Forward(
            ServerAction::MoveCursorDocumentStart,
        ),
        ClientAction::MoveCursorDown => Route::Forward(ServerAction::MoveCursorDown),
        ClientAction::MoveCursorLeft => Route::Forward(ServerAction::MoveCursorLeft),
        ClientAction::MoveCursorLineEnd => Route::Forward(ServerAction::MoveCursorLineEnd),
        ClientAction::MoveCursorLineStart => Route::Forward(ServerAction::MoveCursorLineStart),
        ClientAction::MoveCursorPageDown => Route::Forward(ServerAction::MoveCursorPageDown),
        ClientAction::MoveCursorPageUp => Route::Forward(ServerAction::MoveCursorPageUp),
        ClientAction::MoveCursorRight => Route::Forward(ServerAction::MoveCursorRight),
        ClientAction::MoveCursorUp => Route::Forward(ServerAction::MoveCursorUp),
        ClientAction::MoveCursorWordEnd => Route::Ignore,
        ClientAction::MoveCursorWordStart => Route::Ignore,
        ClientAction::NoOp => Route::Ignore,
        ClientAction::Quit => Route::Quit,
        ClientAction::QuitIgnoringChanges => Route::QuitIgnoringChanges,
        ClientAction::Resize(width, height) => Route::Resize(width, height),
        ClientAction::Save => Route::Forward(ServerAction::Save),
        ClientAction::ScrollViewDown(amount) => Route::Forward(
            ServerAction::ScrollClientViewDown { amount },
        ),
        ClientAction::ScrollViewLeft(amount) => Route::Forward(
            ServerAction::ScrollClientViewLeft { amount },
        ),
        ClientAction::ScrollViewRight(amount) => Route::Forward(
            ServerAction::ScrollClientViewRight { amount },
        ),
        ClientAction::ScrollViewUp(amount) => Route::Forward(
            ServerAction::ScrollClientViewUp { amount },
        ),
        ClientAction::SetModeCommand => Route::Enter(Mode::Command),
        ClientAction::SetModeFindReplace => Route::Enter(Mode::FindReplace),
        ClientAction::SetModeGoto => Route::Enter(Mode::Goto),
        ClientAction::WarningModeExit => Route::Enter(Mode::Insert),
    }
}

/// The edit changes the text of a field, not only its cursor.
pub open spec fn changes_text(edit: Edit) -> bool {
    edit is Insert || edit is Delete || edit is Backspace
}

/// A field as a prompt leaves it behind: empty, and scrolled back.
pub open spec fn closed(field: Field) -> Field {
    Field { offset: 0, ..field.cleared() }
}

impl Interface {
    /// The interface after `edit` in the primary field: the field is edited
    /// and then scrolled to its cursor.
    pub open spec fn primary_edited(self, edit: Edit) -> Interface {
        Interface { util_bar: self.util_bar.applied(edit).scrolled(), ..self }
    }

    /// The interface after `edit` in the field of the goto prompt: the field
    /// is edited and scrolled and, where the edit changes the text, judged
    /// anew as a line number of the document.
    pub open spec fn line_number_edited(self, edit: Edit) -> Interface {
        let field = self.util_bar.applied(edit).scrolled();
        Interface {
            util_bar: if changes_text(edit) {
                Field {
                    text_is_valid: valid_line_number(field.text, self.document_length),
                    ..field
                }
            } else {
                field
            },
            ..self
        }
    }

    /// The interface after `edit` in the field that has the focus: that
    /// field is edited, and both fields are scrolled to their cursors.
    pub open spec fn focused_edited(self, edit: Edit) -> Interface {
        if self.util_bar_alternate_focused {
            Interface {
                util_bar: self.util_bar.scrolled(),
                util_bar_alternate: self.util_bar_alternate.applied(edit).scrolled(),
                ..self
            }
        } else {
            Interface {
                util_bar: self.util_bar.applied(edit).scrolled(),
                util_bar_alternate: self.util_bar_alternate.scrolled(),
                ..self
            }
        }
    }

    /// The request that tells the server how large the document's area is.
    pub open spec fn view_size_request(self) -> ServerAction {
        ServerAction::UpdateClientViewSize {
            width: self.areas.document.width,
            height: self.areas.document.height,
        }
    }
}

impl State {
    /// The state with the prompt of the primary field closed: the field is
    /// empty and scrolled back, and the mode is insert mode.
    pub open spec fn prompt_closed(self) -> State {
        State {
            mode: Mode::Insert,
            ui: Interface { util_bar: closed(self.ui.util_bar), ..self.ui },
            ..self
        }
    }

    /// The state with find and replace closed: both fields are empty and
    /// scrolled back, the primary field has the focus, and the mode is insert
    /// mode.
    pub open spec fn find_replace_closed(self) -> State {
        State {
            mode: Mode::Insert,
            ui: Interface {
                util_bar: closed(self.ui.util_bar),
                util_bar_alternate: closed(self.ui.util_bar_alternate),
                util_bar_alternate_focused: false,
                ..self.ui
            },
            ..self
        }
    }

    /// The state after the goto prompt is accepted: the prompt is closed
    /// where it holds a line number of the document, and stays otherwise.
    pub open spec fn goto_accepted(self) -> State {
        if goto_target(self.ui.util_bar.text, self.ui.document_length) is Some {
            self.prompt_closed()
        } else {
            self
        }
    }

    /// The state with the focus on the other field of find and replace.
    pub open spec fn focus_switched(self) -> State {
        State {
            ui: Interface {
                util_bar_alternate_focused: !self.ui.util_bar_alternate_focused,
                ..self.ui
            },
            ..self
        }
    }

    /// The state with the line numbers shown where they were hidden, and
    /// hidden where they were shown, laid out in `areas`.
    pub open spec fn line_numbers_toggled(self, areas: Areas) -> State {
        State {
            ui: Interface {
                display_line_numbers: !self.ui.display_line_numbers,
                ..self.ui
            }.laid_out(self.mode, areas),
            ..self
        }
    }

    /// The state with the status bar shown where it was hidden, and hidden
    /// where it was shown, laid out in `areas`.
    pub open spec fn status_bar_toggled(self, areas: Areas) -> State {
        State {
            ui: Interface {
                display_status_bar: !self.ui.display_status_bar,
                ..self.ui
            }.laid_out(self.mode, areas),
            ..self
        }
    }

    /// The state on a terminal of the new width and height, laid out in
    /// `areas`, with both fields scrolled to their cursors.
    pub open spec fn resized(self, width: u16, height: u16, areas: Areas) -> State {
        let ui = Interface {
            terminal_size: Rect { width, height, ..self.ui.terminal_size },
            ..self.ui
        }.laid_out(self.mode, areas);
        State {
            ui: Interface {
                util_bar: ui.util_bar.scrolled(),
                util_bar_alternate: ui.util_bar_alternate.scrolled(),
                ..ui
            },
            ..self
        }
    }

    /// The state after the user asks to quit: a warning where the document
    /// has unsaved changes, and the quit flag raised otherwise.
    pub open spec fn quit_asked(self) -> State {
        if self.ui.document_modified {
            State { mode: Mode::Warning(WarningKind::FocusedFileIsModified), ..self }
        } else {
            State { should_quit: true, ..self }
        }
    }

    pub open spec fn command_edited(self, edit: Edit) -> State {
        State { ui: self.ui.primary_edited(edit), ..self }
    }

    pub open spec fn goto_edited(self, edit: Edit) -> State {
        State { ui: self.ui.line_number_edited(edit), ..self }
    }

    pub open spec fn find_replace_edited(self, edit: Edit) -> State {
        State { ui: self.ui.focused_edited(edit), ..self }
    }

    /// Both fields are well formed.
    pub open spec fn fields_wf(self) -> bool {
        self.ui.util_bar.wf() && self.ui.util_bar_alternate.wf()
    }

    /// The state after an action has gone `route`, where `areas` is what the
    /// layout solver answers on the routes that lay the screen out anew.
    pub open spec fn gone(self, route: Route, areas: Areas) -> State {
        match route {
            Route::Ignore | Route::Forward(_) => self,
            Route::EditCommand(edit) => self.command_edited(edit),
            Route::EditGoto(edit) => self.goto_edited(edit),
            Route::EditFindReplace(edit) => self.find_replace_edited(edit),
            Route::ClosePrompt => self.prompt_closed(),
            Route::CloseFindReplace => self.find_replace_closed(),
            Route::AcceptGoto => self.goto_accepted(),
            Route::SwitchFocus => self.focus_switched(),
            Route::ToggleLineNumbers => self.line_numbers_toggled(areas),
            Route::ToggleStatusBar => self.status_bar_toggled(areas),
            Route::Resize(width, height) => self.resized(width, height, areas),
            Route::Quit => self.quit_asked(),
            Route::QuitIgnoringChanges => State { should_quit: true, ..self },
            Route::Enter(mode) => State { mode, ..self },
        }
    }

    /// What is left to do on the connection once an action has gone `route`:
    /// a forwarded request is sent as it is; an accepted line number is asked
    /// for; a new layout is followed by the size of the document's area in
    /// `areas`; quitting closes the connection, unless a warning is raised in
    /// its place.
    pub open spec fn left_to_do(self, route: Route, areas: Areas) -> Dispatch {
        match route {
            Route::Forward(request) => Dispatch::Call(request),
            Route::AcceptGoto => match goto_target(
                self.ui.util_bar.text,
                self.ui.document_length,
            ) {
                Some(line_number) => Dispatch::Call(ServerAction::GoTo { line_number }),
                None => Dispatch::Done,
            },
            Route::ToggleLineNumbers | Route::ToggleStatusBar | Route::Resize(_, _) => {
                Dispatch::Call(
                    ServerAction::UpdateClientViewSize {
                        width: areas.document.width,
                        height: areas.document.height,
                    },
                )
            },
            Route::Quit => if self.ui.document_modified {
                Dispatch::Done
            } else {
                Dispatch::Send(ServerAction::CloseConnection)
            },
            Route::QuitIgnoringChanges => Dispatch::Send(ServerAction::CloseConnection),
            _ => Dispatch::Done,
        }
    }

    /// The state after `action`, where `areas` is what the layout solver
    /// answers to the actions that lay the screen out anew.
    pub open spec fn after(self, action: ClientAction, areas: Areas) -> State {
        self.gone(route_of(action), areas)
    }

    /// What `action` leaves to do on the connection.
    pub open spec fn effect(self, action: ClientAction, areas: Areas) -> Dispatch {
        self.left_to_do(route_of(action), areas)
    }

    /// An action that goes `route` lays the screen out anew.
    pub open spec fn lays_out(route: Route) -> bool {
        route is ToggleLineNumbers || route is ToggleStatusBar || route is Resize
    }
}

impl State {
    /// A field that no prompt uses is at rest: while no prompt is open, the
    /// primary field is empty with the cursor at its start; and outside find
    /// and replace so is the alternate field, and the primary field has the
    /// focus.
    pub open spec fn prompts_at_rest(self) -> bool {
        &&& self.mode is Insert || self.mode is Warning ==> {
            &&& self.ui.util_bar.text == Seq::<char>::empty()
            &&& self.ui.util_bar.cursor_position == 0
        }
        &&& !(self.mode is FindReplace) ==> {
            &&& self.ui.util_bar_alternate.text == Seq::<char>::empty()
            &&& self.ui.util_bar_alternate.cursor_position == 0
            &&& !self.ui.util_bar_alternate_focused
        }
    }
}

/// The actions that an event can stand for depend on the mode: a prompt is
/// opened from insert mode only, a warning is left or overridden in warning
/// mode only, and the field of a prompt is edited, accepted or left only
/// while that prompt is open.
pub proof fn lemma_actions_belong_to_modes(event: Event, mode: Mode)
    ensures
        route_of(translation(event, mode)) matches Route::Enter(next) ==> if next is Insert {
            mode is Warning
        } else {
            mode is Insert
        },
        translation(event, mode) is QuitIgnoringChanges ==> mode is Warning,
        translation(event, mode) is Quit ==> mode is Insert,
        route_of(translation(event, mode)) is EditCommand ==> mode is Command,
        route_of(translation(event, mode)) is EditGoto ==> mode is Goto,
        route_of(translation(event, mode)) is AcceptGoto ==> mode is Goto,
        route_of(translation(event, mode)) is EditFindReplace ==> mode is FindReplace,
        route_of(translation(event, mode)) is SwitchFocus ==> mode is FindReplace,
        route_of(translation(event, mode)) is CloseFindReplace ==> mode is FindReplace,
        route_of(translation(event, mode)) is ClosePrompt ==> mode is Command || mode is Goto,
{
    if let Event::Key(key) = event {
        if listed(mode, key) {
            let i = choose|i: int| binds(mode, i, key);
            assert(binds(mode, i, key));
        }
    }
}

/// Whatever event arrives, and whatever the layout solver answers, the
/// fields that no prompt uses stay at rest: a prompt that opens finds its
/// fields empty.
pub proof fn lemma_prompts_stay_at_rest(state: State, event: Event, areas: Areas)
    requires
        state.prompts_at_rest(),
    ensures
        state.after(translation(event, state.mode), areas).prompts_at_rest(),
{
    lemma_actions_belong_to_modes(event, state.mode);
}

/// The application: the mode, the quit flag and the user interface.
pub struct Application {
    should_quit: bool,
    mode: Mode,
    ui: UserInterface,
}

impl View for Application {
    type V = State;

    closed spec fn view(&self) -> State {
        State { should_quit: self.should_quit, mode: self.mode, ui: self.ui@ }
    }
}

impl Application {
    /// The application at its start, on a terminal of size `terminal_size`:
    /// in insert mode, not about to quit.
    pub fn new(terminal_size: Rect) -> (app: Self)
        ensures
            app@ == (State {
                should_quit: false,
                mode: Mode::Insert,
                ui: UserInterface::new_spec(terminal_size),
            }),
            app@.prompts_at_rest(),
            app@.fields_wf(),
    {
        Self { should_quit: false, mode: Mode::Insert, ui: UserInterface::new(terminal_size) }
    }

    pub fn mode(&self) -> (mode: Mode)
        ensures
            mode == self@.mode,
    {
        self.mode
    }

    pub fn set_mode(&mut self, mode: Mode)
        ensures
            final(self)@ == (State { mode, ..old(self)@ }),
    {
        self.mode = mode
    }

    pub fn should_quit(&self) -> (should_quit: bool)
        ensures
            should_quit == self@.should_quit,
    {
        self.should_quit
    }

    pub fn set_should_quit(&mut self, should_quit: bool)
        ensures
            final(self)@ == (State { should_quit, ..old(self)@ }),
    {
        self.should_quit = should_quit
    }

    pub fn ui(&self) -> (ui: &UserInterface)
        ensures
            ui@ == self@.ui,
    {
        &self.ui
    }

    pub fn ui_mut(&mut self) -> (ui: &mut UserInterface)
        ensures
            ui@ == old(self)@.ui,
            final(self)@ == (State { ui: final(ui)@, ..old(self)@ }),
    {
        &mut self.ui
    }

    /// Translates `event` in the mode that is active.
    pub fn handle_event(&self, event: Event) -> (action: ClientAction)
        ensures
            action == translation(event, self@.mode),
    {
        handle_event(event, self.mode)
    }

    /// Lays the screen out for the mode that is active.
    pub fn update_layouts(&mut self)
        ensures
            final(self)@ == (State {
                ui: old(self)@.ui.laid_out(old(self)@.mode, final(self)@.ui.areas),
                ..old(self)@
            }),
            final(self)@.ui.areas.in_rows(),
    {
        self.ui.update_layouts(self.mode);
    }

    /// The request that tells the server how large the document's area is.
    pub fn view_size_request(&self) -> (request: ServerAction)
        ensures
            request == self@.ui.view_size_request(),
    {
        let area = self.ui.document_rect();
        ServerAction::UpdateClientViewSize { width: area.width, height: area.height }
    }

    /// Writes what `response` carries into the user interface. Mode and quit
    /// flag stay.
    pub fn process_server_response(&mut self, response: ServerResponse)
        ensures
            final(self)@ == (State { ui: reconciled(old(self)@.ui, response), ..old(self)@ }),
    {
        process_server_response(response, &mut self.ui);
    }
    /// Closes the prompt of the primary field and goes back to insert mode.
    fn close_prompt(&mut self) -> (effect: Dispatch)
        ensures
            final(self)@ == old(self)@.prompt_closed(),
            effect == Dispatch::Done,
            old(self)@.fields_wf() ==> final(self)@.fields_wf(),
    {
        self.ui.util_bar_mut().clear();
        self.ui.util_bar_mut().set_offset(0);
        self.set_mode(Mode::Insert);
        Dispatch::Done
    }

    /// Closes find and replace and goes back to insert mode.
    fn close_find_replace(&mut self) -> (effect: Dispatch)
        ensures
            final(self)@ == old(self)@.find_replace_closed(),
            effect == Dispatch::Done,
            final(self)@.fields_wf(),
    {
        self.ui.util_bar_mut().clear();
        self.ui.util_bar_alternate_mut().clear();
        self.ui.util_bar_mut().set_offset(0);
        self.ui.util_bar_alternate_mut().set_offset(0);
        self.ui.set_util_bar_alternate_focused(false);
        self.set_mode(Mode::Insert);
        Dispatch::Done
    }

    /// Edits the field of the command prompt and scrolls it to its cursor.
    fn edit_command_prompt(&mut self, edit: Edit) -> (effect: Dispatch)
        ensures
            final(self)@ == old(self)@.command_edited(edit),
            effect == Dispatch::Done,
            old(self)@.fields_wf() ==> final(self)@.fields_wf(),
    {
        self.ui.util_bar_mut().apply(edit);
        self.ui.util_bar_mut().scroll();
        Dispatch::Done
    }

    /// Edits the field of the goto prompt, scrolls it to its cursor and,
    /// where the text has changed, judges it anew as a line number of the
    /// document.
    fn edit_goto_prompt(&mut self, edit: Edit) -> (effect: Dispatch)
        ensures
            final(self)@ == old(self)@.goto_edited(edit),
            effect == Dispatch::Done,
            old(self)@.fields_wf() ==> final(self)@.fields_wf(),
    {
        self.ui.util_bar_mut().apply(edit);
        self.ui.util_bar_mut().scroll();
        match edit {
            Edit::Insert(_) | Edit::Delete | Edit::Backspace => {
                let valid = is_valid_line_number(
                    self.ui.util_bar().text(),
                    self.ui.document_length(),
                );
                self.ui.util_bar_mut().set_text_is_valid(valid);
            },
            _ => {},
        }
        Dispatch::Done
    }

    /// Edits the field of find and replace that has the focus, and scrolls
    /// both fields to their cursors.
    fn edit_find_replace(&mut self, edit: Edit) -> (effect: Dispatch)
        ensures
            final(self)@ == old(self)@.find_replace_edited(edit),
            effect == Dispatch::Done,
            old(self)@.fields_wf() ==> final(self)@.fields_wf(),
    {
        self.ui.focused_bar_mut().apply(edit);
        self.ui.util_bar_mut().scroll();
        self.ui.util_bar_alternate_mut().scroll();
        Dispatch::Done
    }

    /// Gives the focus to the other field of find and replace.
    fn switch_focus(&mut self) -> (effect: Dispatch)
        ensures
            final(self)@ == old(self)@.focus_switched(),
            effect == Dispatch::Done,
    {
        let focused = self.ui.util_bar_alternate_focused();
        self.ui.set_util_bar_alternate_focused(!focused);
        Dispatch::Done
    }

    /// Accepts the goto prompt: where it holds a line number of the
    /// document, asks the server for that line and closes the prompt.
    fn accept_goto(&mut self) -> (effect: Dispatch)
        ensures
            final(self)@ == old(self)@.goto_accepted(),
            effect == old(self)@.left_to_do(Route::AcceptGoto, old(self)@.ui.areas),
            old(self)@.fields_wf() ==> final(self)@.fields_wf(),
    {
        match target_line(self.ui.util_bar().text(), self.ui.document_length()) {
            Some(line_number) => {
                self.close_prompt();
                Dispatch::Call(ServerAction::GoTo { line_number })
            },
            None => Dispatch::Done,
        }
    }

    /// Shows or hides the line numbers, lays the screen out anew and tells
    /// the server the size of the document's area.
    fn toggle_line_numbers(&mut self) -> (effect: Dispatch)
        ensures
            final(self)@ == old(self)@.line_numbers_toggled(final(self)@.ui.areas),
            effect == Dispatch::Call(final(self)@.ui.view_size_request()),
            final(self)@.ui.areas.in_rows(),
    {
        let shown = self.ui.display_line_numbers();
        self.ui.set_display_line_numbers(!shown);
        self.ui.update_layouts(self.mode);
        Dispatch::Call(self.view_size_request())
    }

    /// Shows or hides the status bar, lays the screen out anew and tells the
    /// server the size of the document's area.
    fn toggle_status_bar(&mut self) -> (effect: Dispatch)
        ensures
            final(self)@ == old(self)@.status_bar_toggled(final(self)@.ui.areas),
            effect == Dispatch::Call(final(self)@.ui.view_size_request()),
            final(self)@.ui.areas.in_rows(),
    {
        let shown = self.ui.display_status_bar();
        self.ui.set_display_status_bar(!shown);
        self.ui.update_layouts(self.mode);
        Dispatch::Call(self.view_size_request())
    }

    /// Takes the new size of the terminal, lays the screen out anew, scrolls
    /// both fields to their cursors and tells the server the size of the
    /// document's area.
    fn resize(&mut self, width: u16, height: u16) -> (effect: Dispatch)
        ensures
            final(self)@ == old(self)@.resized(width, height, final(self)@.ui.areas),
            effect == Dispatch::Call(final(self)@.ui.view_size_request()),
            final(self)@.ui.areas.in_rows(),
    {
        self.ui.set_terminal_size(width, height);
        self.ui.update_layouts(self.mode);
        self.ui.util_bar_mut().scroll();
        self.ui.util_bar_alternate_mut().scroll();
        Dispatch::Call(self.view_size_request())
    }

    /// Quits, unless the document has unsaved changes: then a warning is
    /// raised and nothing is sent.
    fn quit(&mut self) -> (effect: Dispatch)
        ensures
            final(self)@ == old(self)@.quit_asked(),
            effect == old(self)@.left_to_do(Route::Quit, old(self)@.ui.areas),
    {
        if self.ui.document_modified() {
            self.set_mode(Mode::Warning(WarningKind::FocusedFileIsModified));
            Dispatch::Done
        } else {
            self.quit_ignoring_changes()
        }
    }

    /// Quits, whatever the state of the document: raises the quit flag and
    /// has the connection closed.
    fn quit_ignoring_changes(&mut self) -> (effect: Dispatch)
        ensures
            final(self)@ == (State { should_quit: true, ..old(self)@ }),
            effect == Dispatch::Send(ServerAction::CloseConnection),
    {
        self.set_should_quit(true);
        Dispatch::Send(ServerAction::CloseConnection)
    }

    /// Makes `mode` the active mode.
    fn enter(&mut self, mode: Mode) -> (effect: Dispatch)
        ensures
            final(self)@ == (State { mode, ..old(self)@ }),
            effect == Dispatch::Done,
    {
        self.set_mode(mode);
        Dispatch::Done
    }

    /// Carries out `action`. What only touches the prompts, the mode or the
    /// display is done here and now. What is the server's to do becomes the
    /// one request that the result hands back, to be sent by the caller.
    ///
    /// Quitting with unsaved changes raises a warning in place of quitting.
    /// Accepting the goto prompt asks the server for the line only where the
    /// prompt holds a line number of the document, and then closes the
    /// prompt. Toggling a part of the display, like a resize, lays the screen
    /// out anew and tells the server the new size of the document's area.
    pub fn perform_client_action(&mut self, action: ClientAction) -> (effect: Dispatch)
        ensures
            final(self)@ == old(self)@.after(action, final(self)@.ui.areas),
            effect == old(self)@.effect(action, final(self)@.ui.areas),
            State::lays_out(route_of(action)) ==> final(self)@.ui.areas.in_rows(),
            old(self)@.fields_wf() ==> final(self)@.fields_wf(),
    {
        match route(action) {
            Route::Ignore => Dispatch::Done,
            Route::Forward(request) => Dispatch::Call(request),
            Route::EditCommand(edit) => self.edit_command_prompt(edit),
            Route::EditGoto(edit) => self.edit_goto_prompt(edit),
            Route::EditFindReplace(edit) => self.edit_find_replace(edit),
            Route::ClosePrompt => self.close_prompt(),
            Route::CloseFindReplace => self.close_find_replace(),
            Route::AcceptGoto => self.accept_goto(),
            Route::SwitchFocus => self.switch_focus(),
            Route::ToggleLineNumbers => self.toggle_line_numbers(),
            Route::ToggleStatusBar => self.toggle_status_bar(),
            Route::Resize(width, height) => self.resize(width, height),
            Route::Quit => self.quit(),
            Route::QuitIgnoringChanges => self.quit_ignoring_changes(),
            Route::Enter(mode) => self.enter(mode),
        }
    }
}

} // verus!
