use nlo_text_editor_client::application::{
    route, Application, ClientAction, Dispatch, Mode, Route, WarningKind,
};
use nlo_text_editor_client::events::{
    process_server_response, Event, KeyCode, KeyEvent, Modifiers,
};
use nlo_text_editor_client::field::Edit;
use nlo_text_editor_client::layout::Rect;
use nlo_text_editor_client::protocol::{
    reply_bytes, Position, ServerAction, ServerResponse, MESSAGE_SIZE,
};
use nlo_text_editor_client::ui::UserInterface;

fn terminal() -> Rect {
    Rect { x: 0, y: 0, width: 80, height: 24 }
}

fn app() -> Application {
    let mut app = Application::new(terminal());
    app.update_layouts();
    app
}

fn app_with_document(length: usize) -> Application {
    let mut app = app();
    app.process_server_response(ServerResponse::FileOpened {
        file_name: Some("notes.txt".to_string()),
        document_length: length,
    });
    app
}

fn type_text(app: &mut Application, text: &str) {
    for c in text.chars() {
        let action = match app.mode() {
            Mode::Goto => ClientAction::GotoModeInsertChar(c),
            Mode::FindReplace => ClientAction::FindReplaceModeInsertChar(c),
            _ => ClientAction::CommandModeInsertChar(c),
        };
        assert_eq!(app.perform_client_action(action), Dispatch::Done);
    }
}

fn display_view(modified: bool) -> ServerResponse {
    ServerResponse::DisplayView {
        content: "hello\nworld".to_string(),
        line_numbers: "1\n2".to_string(),
        client_cursor_position: Some(Position { x: 3, y: 1 }),
        document_cursor_position: Position { x: 3, y: 1 },
        modified,
    }
}

#[test]
fn a_new_application_is_in_insert_mode() {
    let app = Application::new(terminal());
    assert_eq!(app.mode(), Mode::Insert);
    assert!(!app.should_quit());
    let ui = app.ui();
    assert_eq!(ui.terminal_size(), terminal());
    assert!(ui.display_line_numbers());
    assert!(ui.display_status_bar());
    assert!(!ui.document_open());
    assert!(!ui.document_modified());
    assert!(!ui.util_bar_alternate_focused());
    assert_eq!(ui.document_length(), 0);
    assert_eq!(ui.file_name(), &None);
    assert_eq!(ui.text_in_view(), "");
    assert_eq!(ui.line_numbers_in_view(), "");
    assert_eq!(ui.client_cursor_position(), None);
    assert_eq!(ui.document_cursor_position(), None);
    assert_eq!(ui.util_bar().text(), "");
    assert_eq!(ui.util_bar_alternate().text(), "");
    assert_eq!(ui.document_rect(), Rect { x: 0, y: 0, width: 0, height: 0 });
}

#[test]
fn message_size_is_one_kibibyte() {
    assert_eq!(MESSAGE_SIZE, 1024);
}

#[test]
fn reply_bytes_are_the_bytes_that_were_read() {
    let mut buffer = [0u8; MESSAGE_SIZE];
    buffer[..11].copy_from_slice(b"Acknowledge");
    assert_eq!(reply_bytes(&buffer, 11), b"Acknowledge");
    assert_eq!(reply_bytes(&buffer, 0), b"");
    assert_eq!(reply_bytes(&buffer, MESSAGE_SIZE).len(), MESSAGE_SIZE);
    assert_eq!(reply_bytes(&buffer, MESSAGE_SIZE + 1).len(), MESSAGE_SIZE);
    assert_eq!(reply_bytes(b"abc", 2), b"ab");
}

#[test]
fn goto_accept_sends_the_line_and_closes_the_prompt() {
    let mut app = app_with_document(10);
    assert_eq!(app.perform_client_action(ClientAction::SetModeGoto), Dispatch::Done);
    assert_eq!(app.mode(), Mode::Goto);
    type_text(&mut app, "5");
    assert_eq!(app.ui().util_bar().text(), "5");
    assert!(app.ui().util_bar().text_is_valid());
    let effect = app.perform_client_action(ClientAction::GotoModeAccept);
    assert_eq!(effect, Dispatch::Call(ServerAction::GoTo { line_number: 4 }));
    assert_eq!(app.ui().util_bar().text(), "");
    assert_eq!(app.ui().util_bar().cursor_position(), 0);
    assert_eq!(app.ui().util_bar().offset(), 0);
    assert_eq!(app.mode(), Mode::Insert);
    assert!(!app.should_quit());
}

#[test]
fn goto_accept_of_an_invalid_text_does_nothing() {
    for text in ["abc", "12", "", "5x"] {
        let mut app = app_with_document(10);
        app.perform_client_action(ClientAction::SetModeGoto);
        type_text(&mut app, text);
        let cursor = app.ui().util_bar().cursor_position();
        assert_eq!(app.perform_client_action(ClientAction::GotoModeAccept), Dispatch::Done);
        assert_eq!(app.mode(), Mode::Goto);
        assert_eq!(app.ui().util_bar().text(), text);
        assert_eq!(app.ui().util_bar().cursor_position(), cursor);
    }
}

#[test]
fn goto_accept_takes_the_line_after_the_last() {
    let mut app = app_with_document(10);
    app.perform_client_action(ClientAction::SetModeGoto);
    type_text(&mut app, "11");
    assert_eq!(
        app.perform_client_action(ClientAction::GotoModeAccept),
        Dispatch::Call(ServerAction::GoTo { line_number: 10 })
    );
    assert_eq!(app.mode(), Mode::Insert);
}

#[test]
fn goto_text_is_judged_on_every_change() {
    let mut app = app_with_document(100);
    app.perform_client_action(ClientAction::SetModeGoto);
    type_text(&mut app, "42");
    assert!(app.ui().util_bar().text_is_valid());
    type_text(&mut app, "0");
    assert_eq!(app.ui().util_bar().text(), "420");
    assert!(!app.ui().util_bar().text_is_valid());
    app.perform_client_action(ClientAction::GotoModeBackspace);
    assert_eq!(app.ui().util_bar().text(), "42");
    assert!(app.ui().util_bar().text_is_valid());
    type_text(&mut app, "x");
    assert!(!app.ui().util_bar().text_is_valid());
    app.perform_client_action(ClientAction::GotoModeMoveCursorLeft);
    assert!(!app.ui().util_bar().text_is_valid());
    app.perform_client_action(ClientAction::GotoModeDelete);
    assert_eq!(app.ui().util_bar().text(), "42");
    assert!(app.ui().util_bar().text_is_valid());
}

#[test]
fn goto_text_validity_examples() {
    for (text, valid) in [("42", true), ("abc", false), ("500", false)] {
        let mut app = app_with_document(100);
        app.perform_client_action(ClientAction::SetModeGoto);
        type_text(&mut app, text);
        assert_eq!(app.ui().util_bar().text_is_valid(), valid);
    }
}

#[test]
fn goto_cursor_moves_leave_the_validity_alone() {
    let mut app = app_with_document(100);
    app.perform_client_action(ClientAction::SetModeGoto);
    type_text(&mut app, "42");
    app.ui_mut().util_bar_mut().set_text_is_valid(false);
    for action in [
        ClientAction::GotoModeMoveCursorLeft,
        ClientAction::GotoModeMoveCursorRight,
        ClientAction::GotoModeMoveCursorLineStart,
        ClientAction::GotoModeMoveCursorLineEnd,
    ] {
        assert_eq!(app.perform_client_action(action), Dispatch::Done);
        assert!(!app.ui().util_bar().text_is_valid());
    }
    assert_eq!(app.ui().util_bar().cursor_position(), 2);
}

#[test]
fn quit_with_unsaved_changes_raises_a_warning() {
    let mut app = app_with_document(10);
    app.process_server_response(display_view(true));
    assert!(app.ui().document_modified());
    assert_eq!(app.perform_client_action(ClientAction::Quit), Dispatch::Done);
    assert_eq!(app.mode(), Mode::Warning(WarningKind::FocusedFileIsModified));
    assert!(!app.should_quit());
    let action = app.handle_event(Event::Key(KeyEvent {
        modifiers: Modifiers::Control,
        code: KeyCode::Char('q'),
    }));
    assert_eq!(action, ClientAction::QuitIgnoringChanges);
    assert_eq!(
        app.perform_client_action(action),
        Dispatch::Send(ServerAction::CloseConnection)
    );
    assert!(app.should_quit());
}

#[test]
fn quit_without_changes_closes_the_connection() {
    let mut app = app_with_document(10);
    app.process_server_response(display_view(false));
    assert_eq!(
        app.perform_client_action(ClientAction::Quit),
        Dispatch::Send(ServerAction::CloseConnection)
    );
    assert!(app.should_quit());
    assert_eq!(app.mode(), Mode::Insert);
}

#[test]
fn warning_exit_returns_to_insert_mode() {
    let mut app = app_with_document(10);
    app.process_server_response(display_view(true));
    app.perform_client_action(ClientAction::Quit);
    assert_eq!(app.perform_client_action(ClientAction::WarningModeExit), Dispatch::Done);
    assert_eq!(app.mode(), Mode::Insert);
    assert!(!app.should_quit());
}

#[test]
fn display_line_numbers_toggles_and_updates_the_view_size() {
    let mut app = app();
    assert_eq!(app.view_size_request(), ServerAction::UpdateClientViewSize { width: 78, height: 22 });
    let effect = app.perform_client_action(ClientAction::DisplayLineNumbers);
    assert!(!app.ui().display_line_numbers());
    assert_eq!(effect, Dispatch::Call(ServerAction::UpdateClientViewSize { width: 80, height: 22 }));
    assert_eq!(app.ui().document_rect(), Rect { x: 0, y: 0, width: 80, height: 22 });
    let effect = app.perform_client_action(ClientAction::DisplayLineNumbers);
    assert!(app.ui().display_line_numbers());
    assert_eq!(effect, Dispatch::Call(ServerAction::UpdateClientViewSize { width: 78, height: 22 }));
    assert!(app.ui().display_status_bar());
    assert_eq!(app.mode(), Mode::Insert);
}

#[test]
fn display_status_bar_toggles_and_updates_the_view_size() {
    let mut app = app();
    let effect = app.perform_client_action(ClientAction::DisplayStatusBar);
    assert!(!app.ui().display_status_bar());
    assert_eq!(effect, Dispatch::Call(ServerAction::UpdateClientViewSize { width: 78, height: 24 }));
    let effect = app.perform_client_action(ClientAction::DisplayStatusBar);
    assert!(app.ui().display_status_bar());
    assert_eq!(effect, Dispatch::Call(ServerAction::UpdateClientViewSize { width: 78, height: 22 }));
    assert!(app.ui().display_line_numbers());
}

#[test]
fn resize_lays_out_and_updates_the_view_size() {
    let mut app = app();
    let effect = app.perform_client_action(ClientAction::Resize(100, 40));
    assert_eq!(app.ui().terminal_size(), Rect { x: 0, y: 0, width: 100, height: 40 });
    assert_eq!(effect, Dispatch::Call(ServerAction::UpdateClientViewSize { width: 98, height: 38 }));
    assert_eq!(app.ui().document_rect(), Rect { x: 2, y: 0, width: 98, height: 38 });
}

#[test]
fn resize_scrolls_the_fields_to_their_cursors() {
    let mut app = app();
    app.perform_client_action(ClientAction::SetModeCommand);
    app.update_layouts();
    assert_eq!(app.ui().util_bar().widget_width(), 70);
    type_text(&mut app, "0123456789abcdefghij");
    assert_eq!(app.ui().util_bar().offset(), 0);
    app.perform_client_action(ClientAction::Resize(25, 24));
    assert_eq!(app.ui().util_bar().widget_width(), 15);
    assert_eq!(app.ui().util_bar().cursor_position(), 20);
    assert_eq!(app.ui().util_bar().offset(), 6);
}

#[test]
fn switching_focus_changes_the_field_that_is_edited() {
    let mut app = app();
    app.perform_client_action(ClientAction::SetModeFindReplace);
    app.update_layouts();
    type_text(&mut app, "needle");
    assert_eq!(app.ui().util_bar().text(), "needle");
    assert_eq!(app.ui().util_bar_alternate().text(), "");
    let effect = app.perform_client_action(ClientAction::FindReplaceModeSwitchUtilBarFocus);
    assert_eq!(effect, Dispatch::Done);
    assert!(app.ui().util_bar_alternate_focused());
    assert_eq!(app.ui().util_bar().text(), "needle");
    assert_eq!(app.ui().util_bar_alternate().text(), "");
    type_text(&mut app, "pin");
    assert_eq!(app.ui().util_bar().text(), "needle");
    assert_eq!(app.ui().util_bar_alternate().text(), "pin");
    app.perform_client_action(ClientAction::FindReplaceModeBackspace);
    assert_eq!(app.ui().util_bar_alternate().text(), "pi");
    app.perform_client_action(ClientAction::FindReplaceModeMoveCursorLineStart);
    assert_eq!(app.ui().util_bar_alternate().cursor_position(), 0);
    assert_eq!(app.ui().util_bar().cursor_position(), 6);
    app.perform_client_action(ClientAction::FindReplaceModeDelete);
    assert_eq!(app.ui().util_bar_alternate().text(), "i");
    app.perform_client_action(ClientAction::FindReplaceModeSwitchUtilBarFocus);
    assert!(!app.ui().util_bar_alternate_focused());
    assert_eq!(app.ui().util_bar().text(), "needle");
    assert_eq!(app.ui().util_bar_alternate().text(), "i");
    app.perform_client_action(ClientAction::FindReplaceModeMoveCursorLeft);
    app.perform_client_action(ClientAction::FindReplaceModeDelete);
    assert_eq!(app.ui().util_bar().text(), "needl");
    assert_eq!(app.ui().util_bar_alternate().text(), "i");
    app.perform_client_action(ClientAction::FindReplaceModeMoveCursorLineEnd);
    app.perform_client_action(ClientAction::FindReplaceModeMoveCursorRight);
    assert_eq!(app.ui().util_bar().cursor_position(), 5);
}

#[test]
fn leaving_find_replace_clears_both_fields_and_the_focus() {
    let mut app = app();
    app.perform_client_action(ClientAction::SetModeFindReplace);
    app.update_layouts();
    type_text(&mut app, "needle");
    app.perform_client_action(ClientAction::FindReplaceModeSwitchUtilBarFocus);
    type_text(&mut app, "pin");
    app.ui_mut().util_bar_mut().set_offset(3);
    app.ui_mut().util_bar_alternate_mut().set_offset(2);
    assert_eq!(app.perform_client_action(ClientAction::FindReplaceModeExit), Dispatch::Done);
    assert_eq!(app.mode(), Mode::Insert);
    assert!(!app.ui().util_bar_alternate_focused());
    for bar in [app.ui().util_bar(), app.ui().util_bar_alternate()] {
        assert_eq!(bar.text(), "");
        assert_eq!(bar.cursor_position(), 0);
        assert_eq!(bar.offset(), 0);
    }
}

#[test]
fn find_replace_actions_without_effect() {
    let mut app = app();
    app.perform_client_action(ClientAction::SetModeFindReplace);
    type_text(&mut app, "needle");
    for action in [
        ClientAction::FindReplaceModeAccept,
        ClientAction::FindReplaceModeNextInstance,
        ClientAction::FindReplaceModePreviousInstance,
        ClientAction::MoveCursorWordStart,
        ClientAction::MoveCursorWordEnd,
        ClientAction::NoOp,
    ] {
        assert_eq!(app.perform_client_action(action), Dispatch::Done);
        assert_eq!(app.mode(), Mode::FindReplace);
        assert_eq!(app.ui().util_bar().text(), "needle");
        assert!(!app.should_quit());
    }
}

#[test]
fn command_prompt_edits_and_closes() {
    let mut app = app();
    assert_eq!(app.perform_client_action(ClientAction::SetModeCommand), Dispatch::Done);
    assert_eq!(app.mode(), Mode::Command);
    type_text(&mut app, "open");
    app.perform_client_action(ClientAction::CommandModeMoveCursorLeft);
    app.perform_client_action(ClientAction::CommandModeBackspace);
    assert_eq!(app.ui().util_bar().text(), "opn");
    app.perform_client_action(ClientAction::CommandModeMoveCursorLineStart);
    app.perform_client_action(ClientAction::CommandModeDelete);
    assert_eq!(app.ui().util_bar().text(), "pn");
    app.perform_client_action(ClientAction::CommandModeMoveCursorLineEnd);
    assert_eq!(app.ui().util_bar().cursor_position(), 2);
    app.perform_client_action(ClientAction::CommandModeMoveCursorLeft);
    app.perform_client_action(ClientAction::CommandModeMoveCursorRight);
    assert_eq!(app.ui().util_bar().cursor_position(), 2);
    assert!(!app.ui().util_bar().text_is_valid());
    assert_eq!(app.perform_client_action(ClientAction::CommandModeAccept), Dispatch::Done);
    assert_eq!(app.mode(), Mode::Insert);
    assert_eq!(app.ui().util_bar().text(), "");
    app.perform_client_action(ClientAction::SetModeCommand);
    type_text(&mut app, "x");
    app.ui_mut().util_bar_mut().set_offset(1);
    assert_eq!(app.perform_client_action(ClientAction::CommandModeExit), Dispatch::Done);
    assert_eq!(app.mode(), Mode::Insert);
    assert_eq!(app.ui().util_bar().text(), "");
    assert_eq!(app.ui().util_bar().offset(), 0);
}

#[test]
fn goto_exit_clears_the_prompt() {
    let mut app = app_with_document(10);
    app.perform_client_action(ClientAction::SetModeGoto);
    type_text(&mut app, "7");
    assert_eq!(app.perform_client_action(ClientAction::GotoModeExit), Dispatch::Done);
    assert_eq!(app.mode(), Mode::Insert);
    assert_eq!(app.ui().util_bar().text(), "");
    assert_eq!(app.ui().util_bar().cursor_position(), 0);
}

#[test]
fn actions_of_the_server_are_forwarded_unchanged() {
    let cases = [
        (ClientAction::Backspace, ServerAction::Backspace),
        (ClientAction::Delete, ServerAction::Delete),
        (ClientAction::InsertChar('x'), ServerAction::InsertChar('x')),
        (ClientAction::InsertNewline, ServerAction::InsertNewline),
        (ClientAction::InsertTab, ServerAction::InsertTab),
        (ClientAction::MoveCursorDocumentEnd, ServerAction::MoveCursorDocumentEnd),
        (ClientAction::MoveCursorDocumentStart, ServerAction::MoveCursorDocumentStart),
        (ClientAction::MoveCursorDown, ServerAction::MoveCursorDown),
        (ClientAction::MoveCursorLeft, ServerAction::MoveCursorLeft),
        (ClientAction::MoveCursorLineEnd, ServerAction::MoveCursorLineEnd),
        (ClientAction::MoveCursorLineStart, ServerAction::MoveCursorLineStart),
        (ClientAction::MoveCursorRight, ServerAction::MoveCursorRight),
        (ClientAction::MoveCursorPageUp, ServerAction::MoveCursorPageUp),
        (ClientAction::MoveCursorPageDown, ServerAction::MoveCursorPageDown),
        (ClientAction::MoveCursorUp, ServerAction::MoveCursorUp),
        (ClientAction::Save, ServerAction::Save),
        (ClientAction::ScrollViewDown(3), ServerAction::ScrollClientViewDown { amount: 3 }),
        (ClientAction::ScrollViewLeft(1), ServerAction::ScrollClientViewLeft { amount: 1 }),
        (ClientAction::ScrollViewRight(2), ServerAction::ScrollClientViewRight { amount: 2 }),
        (ClientAction::ScrollViewUp(9), ServerAction::ScrollClientViewUp { amount: 9 }),
    ];
    for (action, request) in cases {
        let mut app = app_with_document(10);
        assert_eq!(route(action), Route::Forward(request.clone()));
        assert_eq!(app.perform_client_action(action), Dispatch::Call(request));
        assert_eq!(app.mode(), Mode::Insert);
        assert!(!app.should_quit());
        assert_eq!(app.ui().util_bar().text(), "");
    }
}

#[test]
fn routes_of_local_actions() {
    assert_eq!(route(ClientAction::NoOp), Route::Ignore);
    assert_eq!(route(ClientAction::CommandModeAccept), Route::ClosePrompt);
    assert_eq!(route(ClientAction::GotoModeExit), Route::ClosePrompt);
    assert_eq!(route(ClientAction::FindReplaceModeExit), Route::CloseFindReplace);
    assert_eq!(route(ClientAction::GotoModeAccept), Route::AcceptGoto);
    assert_eq!(route(ClientAction::CommandModeInsertChar('x')), Route::EditCommand(Edit::Insert('x')));
    assert_eq!(route(ClientAction::GotoModeBackspace), Route::EditGoto(Edit::Backspace));
    assert_eq!(
        route(ClientAction::FindReplaceModeMoveCursorLineEnd),
        Route::EditFindReplace(Edit::MoveEnd)
    );
    assert_eq!(route(ClientAction::Resize(3, 4)), Route::Resize(3, 4));
    assert_eq!(route(ClientAction::SetModeGoto), Route::Enter(Mode::Goto));
    assert_eq!(route(ClientAction::WarningModeExit), Route::Enter(Mode::Insert));
    assert_eq!(route(ClientAction::Quit), Route::Quit);
    assert_eq!(route(ClientAction::QuitIgnoringChanges), Route::QuitIgnoringChanges);
    assert_eq!(route(ClientAction::DisplayLineNumbers), Route::ToggleLineNumbers);
    assert_eq!(route(ClientAction::DisplayStatusBar), Route::ToggleStatusBar);
    assert_eq!(route(ClientAction::FindReplaceModeSwitchUtilBarFocus), Route::SwitchFocus);
}

#[test]
fn handle_event_uses_the_active_mode() {
    let mut app = app();
    let enter = Event::Key(KeyEvent { modifiers: Modifiers::Plain, code: KeyCode::Enter });
    assert_eq!(app.handle_event(enter), ClientAction::InsertNewline);
    app.set_mode(Mode::Goto);
    assert_eq!(app.handle_event(enter), ClientAction::GotoModeAccept);
    app.set_mode(Mode::Command);
    assert_eq!(app.handle_event(enter), ClientAction::CommandModeAccept);
    app.set_mode(Mode::SaveAs);
    assert_eq!(app.handle_event(enter), ClientAction::NoOp);
    assert_eq!(app.handle_event(Event::Resize(1, 2)), ClientAction::Resize(1, 2));
    app.set_should_quit(true);
    assert!(app.should_quit());
}

#[test]
fn file_opened_sets_name_and_length() {
    let mut ui = UserInterface::new(terminal());
    process_server_response(
        ServerResponse::FileOpened { file_name: Some("a.txt".to_string()), document_length: 7 },
        &mut ui,
    );
    assert_eq!(ui.file_name(), &Some("a.txt".to_string()));
    assert_eq!(ui.document_length(), 7);
    assert_eq!(ui.text_in_view(), "");
    assert_eq!(ui.client_cursor_position(), None);
    assert!(!ui.document_modified());
    assert!(!ui.document_open());
    process_server_response(
        ServerResponse::FileOpened { file_name: None, document_length: 0 },
        &mut ui,
    );
    assert_eq!(ui.file_name(), &None);
    assert_eq!(ui.document_length(), 0);
}

#[test]
fn display_view_sets_the_view() {
    let mut ui = UserInterface::new(terminal());
    ui.set_document_length(9);
    process_server_response(display_view(true), &mut ui);
    assert_eq!(ui.text_in_view(), "hello\nworld");
    assert_eq!(ui.line_numbers_in_view(), "1\n2");
    assert_eq!(ui.client_cursor_position(), Some(Position { x: 3, y: 1 }));
    assert_eq!(ui.document_cursor_position(), Some(Position { x: 3, y: 1 }));
    assert!(ui.document_modified());
    assert_eq!(ui.document_length(), 9);
    assert_eq!(ui.file_name(), &None);
}

#[test]
fn cursor_position_sets_both_cursors_only() {
    let mut ui = UserInterface::new(terminal());
    process_server_response(display_view(true), &mut ui);
    process_server_response(
        ServerResponse::CursorPosition {
            client_cursor_position: None,
            document_cursor_position: Position { x: 0, y: 40 },
        },
        &mut ui,
    );
    assert_eq!(ui.client_cursor_position(), None);
    assert_eq!(ui.document_cursor_position(), Some(Position { x: 0, y: 40 }));
    assert_eq!(ui.text_in_view(), "hello\nworld");
    assert!(ui.document_modified());
}

#[test]
fn other_replies_write_nothing() {
    for response in [
        ServerResponse::Acknowledge,
        ServerResponse::ConnectionSucceeded,
        ServerResponse::Failed("no such file".to_string()),
    ] {
        let mut app = app_with_document(3);
        app.process_server_response(display_view(true));
        app.set_mode(Mode::Goto);
        app.process_server_response(response);
        assert_eq!(app.mode(), Mode::Goto);
        assert!(!app.should_quit());
        assert_eq!(app.ui().text_in_view(), "hello\nworld");
        assert_eq!(app.ui().line_numbers_in_view(), "1\n2");
        assert_eq!(app.ui().document_length(), 3);
        assert_eq!(app.ui().file_name(), &Some("notes.txt".to_string()));
        assert!(app.ui().document_modified());
        assert_eq!(app.ui().document_cursor_position(), Some(Position { x: 3, y: 1 }));
    }
}

#[test]
fn cursor_target_follows_the_mode() {
    let mut app = app_with_document(10);
    assert_eq!(app.ui().cursor_target(Mode::Insert), None);
    app.process_server_response(display_view(false));
    assert_eq!(app.ui().cursor_target(Mode::Insert), Some((5, 1)));
    assert_eq!(app.ui().cursor_target(Mode::Warning(WarningKind::FileSaveFailed)), None);
    app.perform_client_action(ClientAction::SetModeGoto);
    app.update_layouts();
    type_text(&mut app, "12");
    assert_eq!(app.ui().cursor_target(Mode::Goto), Some((10, 24)));
    app.perform_client_action(ClientAction::GotoModeExit);
    app.perform_client_action(ClientAction::SetModeFindReplace);
    app.update_layouts();
    type_text(&mut app, "abc");
    assert_eq!(app.ui().cursor_target(Mode::FindReplace), Some((10, 24)));
    app.perform_client_action(ClientAction::FindReplaceModeSwitchUtilBarFocus);
    assert_eq!(app.ui().cursor_target(Mode::FindReplace), Some((50, 24)));
}

#[test]
fn cursor_target_is_held_to_the_screen_numbers() {
    let mut ui = UserInterface::new(terminal());
    ui.update_layouts(Mode::Insert);
    ui.set_client_cursor_position(Some(Position { x: 70000, y: 65534 }));
    assert_eq!(ui.cursor_target(Mode::Insert), Some((65535, 65534)));
    ui.set_client_cursor_position(Some(Position { x: 65534, y: usize::MAX }));
    assert_eq!(ui.cursor_target(Mode::Insert), Some((65535, 65535)));
}

#[test]
fn interface_setters() {
    let mut ui = UserInterface::new(terminal());
    ui.set_terminal_size(10, 20);
    assert_eq!(ui.terminal_size(), Rect { x: 0, y: 0, width: 10, height: 20 });
    ui.set_document_open(true);
    assert!(ui.document_open());
    ui.set_util_bar_alternate_focused(true);
    assert!(ui.util_bar_alternate_focused());
    ui.focused_bar_mut().insert_char('r');
    assert_eq!(ui.util_bar_alternate().text(), "r");
    assert_eq!(ui.util_bar().text(), "");
    ui.set_util_bar_alternate_focused(false);
    ui.focused_bar_mut().insert_char('f');
    assert_eq!(ui.util_bar().text(), "f");
    ui.set_text_in_view("abc".to_string());
    ui.set_line_numbers_in_view("1".to_string());
    assert_eq!(ui.text_in_view(), "abc");
    assert_eq!(ui.line_numbers_in_view(), "1");
    ui.set_document_cursor_position(Position { x: 1, y: 2 });
    assert_eq!(ui.document_cursor_position(), Some(Position { x: 1, y: 2 }));
    ui.set_display_line_numbers(false);
    ui.set_display_status_bar(false);
    assert!(!ui.display_line_numbers());
    assert!(!ui.display_status_bar());
}
