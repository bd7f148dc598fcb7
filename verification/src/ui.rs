//! The state of the user interface: the two editable fields, the display
//! flags, the areas of the screen, and the copy of the document's view that
//! the server's replies fill.

use crate::application::Mode;
pub use crate::field::{Field, UtilBar};
use crate::layout::{
    document_columns, split, status_columns, util_columns, viewport_rows, Areas, Direction, Rect,
};
use crate::protocol::Position;
use vstd::prelude::*;

verus! {

/// What the user interface holds, as plain values.
pub struct Interface {
    pub terminal_size: Rect,
    pub display_line_numbers: bool,
    pub display_status_bar: bool,
    pub areas: Areas,
    pub util_bar_alternate_focused: bool,
    pub util_bar: Field,
    pub util_bar_alternate: Field,
    pub text_in_view: Seq<char>,
    pub line_numbers_in_view: Seq<char>,
    pub document_open: bool,
    pub client_cursor_position: Option<Position>,
    pub document_length: usize,
    pub document_modified: bool,
    pub document_file_name: Option<Seq<char>>,
    pub document_cursor_position: Option<Position>,
}

impl Interface {
    /// The interface with `areas` as its layout for `mode`: the two fields
    /// are as wide as their areas while a prompt is open, and 0 wide
    /// otherwise.
    pub open spec fn laid_out(self, mode: Mode, areas: Areas) -> Interface {
        let prompting = mode is Command || mode is Goto || mode is FindReplace || mode is SaveAs;
        Interface {
            areas,
            util_bar: Field {
                widget_width: if prompting {
                    areas.util_bar.width
                } else {
                    0
                },
                ..self.util_bar
            },
            util_bar_alternate: Field {
                widget_width: if prompting {
                    areas.util_bar_alternate.width
                } else {
                    0
                },
                ..self.util_bar_alternate
            },
            ..self
        }
    }

    /// The field that the keys of find and replace go to.
    pub open spec fn focused(self) -> Field {
        if self.util_bar_alternate_focused {
            self.util_bar_alternate
        } else {
            self.util_bar
        }
    }

    /// The column of the cursor of `field`, drawn in `area`.
    pub open spec fn field_column(area: Rect, field: Field) -> u16 {
        let shift = if field.cursor_position >= field.offset {
            field.cursor_position - field.offset
        } else {
            0
        };
        if area.x + shift > u16::MAX {
            u16::MAX
        } else {
            (area.x + shift) as u16
        }
    }

    /// `start + by`, held to 16 bits.
    pub open spec fn moved(start: u16, by: usize) -> u16 {
        if start + by > u16::MAX {
            u16::MAX
        } else {
            (start + by) as u16
        }
    }

    /// Where on the screen the terminal's cursor belongs in `mode`, as column
    /// and line: in insert mode on the document, at the place the server gave;
    /// in a prompt on the cursor of the field that has the focus, on the last
    /// line; and nowhere while a warning is shown.
    pub open spec fn cursor_target(self, mode: Mode) -> Option<(u16, u16)> {
        match mode {
            Mode::Insert => match self.client_cursor_position {
                Some(position) => Some(
                    (
                        Self::moved(self.areas.document.x, position.x),
                        Self::moved(self.areas.document.y, position.y),
                    ),
                ),
                None => None,
            },
            Mode::Goto | Mode::Command | Mode::SaveAs => Some(
                (Self::field_column(self.areas.util_bar, self.util_bar), self.terminal_size.height),
            ),
            Mode::FindReplace => Some(
                (
                    if self.util_bar_alternate_focused {
                        Self::field_column(self.areas.util_bar_alternate, self.util_bar_alternate)
                    } else {
                        Self::field_column(self.areas.util_bar, self.util_bar)
                    },
                    self.terminal_size.height,
                ),
            ),
            Mode::Warning(_) => None,
        }
    }
}

/// The text of a file name, if there is one.
pub open spec fn name_text(name: Option<String>) -> Option<Seq<char>> {
    match name {
        Some(name) => Some(name@),
        None => None,
    }
}

pub struct UserInterface {
    terminal_size: Rect,
    display_line_numbers: bool,
    display_status_bar: bool,
    areas: Areas,
    util_bar_alternate_focused: bool,
    util_bar: UtilBar,
    util_bar_alternate: UtilBar,
    text_in_view: String,
    line_numbers_in_view: String,
    document_open: bool,
    client_cursor_position: Option<Position>,
    document_length: usize,
    document_modified_status: bool,
    document_file_name: Option<String>,
    document_cursor_position: Option<Position>,
}

impl View for UserInterface {
    type V = Interface;

    closed spec fn view(&self) -> Interface {
        Interface {
            terminal_size: self.terminal_size,
            display_line_numbers: self.display_line_numbers,
            display_status_bar: self.display_status_bar,
            areas: self.areas,
            util_bar_alternate_focused: self.util_bar_alternate_focused,
            util_bar: self.util_bar@,
            util_bar_alternate: self.util_bar_alternate@,
            text_in_view: self.text_in_view@,
            line_numbers_in_view: self.line_numbers_in_view@,
            document_open: self.document_open,
            client_cursor_position: self.client_cursor_position,
            document_length: self.document_length,
            document_modified: self.document_modified_status,
            document_file_name: name_text(self.document_file_name),
            document_cursor_position: self.document_cursor_position,
        }
    }
}

/// `start + by`, held to 16 bits.
fn moved(start: u16, by: usize) -> (end: u16)
    ensures
        end == Interface::moved(start, by),
{
    if by > 65535 {
        65535
    } else {
        start.saturating_add(by as u16)
    }
}

/// The column of the cursor of `bar`, drawn in `area`.
fn field_column(area: Rect, bar: &UtilBar) -> (column: u16)
    ensures
        column == Interface::field_column(area, bar@),
{
    area.x.saturating_add(bar.cursor_position().saturating_sub(bar.offset()))
}

impl UserInterface {
    /// What a new interface holds on a terminal of size `terminal_size`.
    pub open spec fn new_spec(terminal_size: Rect) -> Interface {
        Interface {
            terminal_size,
            display_line_numbers: true,
            display_status_bar: true,
            areas: Areas::zero(),
            util_bar_alternate_focused: false,
            util_bar: Field::empty(),
            util_bar_alternate: Field::empty(),
            text_in_view: Seq::empty(),
            line_numbers_in_view: Seq::empty(),
            document_open: false,
            client_cursor_position: None,
            document_length: 0,
            document_modified: false,
            document_file_name: None,
            document_cursor_position: None,
        }
    }

    /// The interface of a terminal of size `terminal_size`, before any layout
    /// and before any reply of the server: line numbers and status bar are
    /// shown, no document is open, and both fields are empty.
    pub fn new(terminal_size: Rect) -> (ui: Self)
        ensures
            ui@ == Self::new_spec(terminal_size),
    {
        let zero = Rect::empty();
        Self {
            terminal_size,
            display_line_numbers: true,
            display_status_bar: true,
            areas: Areas {
                line_number: zero,
                document: zero,
                status_bar_modified_indicator: zero,
                status_bar_file_name: zero,
                status_bar_cursor_position: zero,
                util_bar_prompt: zero,
                util_bar: zero,
                util_bar_alternate_prompt: zero,
                util_bar_alternate: zero,
            },
            util_bar_alternate_focused: false,
            util_bar: UtilBar::default(),
            util_bar_alternate: UtilBar::default(),
            text_in_view: String::new(),
            line_numbers_in_view: String::new(),
            document_open: false,
            client_cursor_position: None,
            document_length: 0,
            document_modified_status: false,
            document_file_name: None,
            document_cursor_position: None,
        }
    }

    pub fn document_modified(&self) -> (modified: bool)
        ensures
            modified == self@.document_modified,
    {
        self.document_modified_status
    }

    pub fn set_document_modified(&mut self, modified: bool)
        ensures
            final(self)@ == (Interface { document_modified: modified, ..old(self)@ }),
    {
        self.document_modified_status = modified;
    }

    pub fn terminal_size(&self) -> (size: Rect)
        ensures
            size == self@.terminal_size,
    {
        self.terminal_size
    }

    /// Sets the width and the height of the terminal; its origin stays.
    pub fn set_terminal_size(&mut self, width: u16, height: u16)
        ensures
            final(self)@ == (Interface {
                terminal_size: Rect { width, height, ..old(self)@.terminal_size },
                ..old(self)@
            }),
    {
        self.terminal_size.width = width;
        self.terminal_size.height = height;
    }

    pub fn file_name(&self) -> (name: &Option<String>)
        ensures
            name_text(*name) == self@.document_file_name,
    {
        &self.document_file_name
    }

    pub fn set_file_name(&mut self, file_name: Option<String>)
        ensures
            final(self)@ == (Interface {
                document_file_name: name_text(file_name),
                ..old(self)@
            }),
    {
        self.document_file_name = file_name;
    }

    pub fn document_length(&self) -> (length: usize)
        ensures
            length == self@.document_length,
    {
        self.document_length
    }

    pub fn set_document_length(&mut self, document_length: usize)
        ensures
            final(self)@ == (Interface { document_length, ..old(self)@ }),
    {
        self.document_length = document_length;
    }

    pub fn document_cursor_position(&self) -> (position: Option<Position>)
        ensures
            position == self@.document_cursor_position,
    {
        self.document_cursor_position
    }

    pub fn set_document_cursor_position(&mut self, cursor_position: Position)
        ensures
            final(self)@ == (Interface {
                document_cursor_position: Some(cursor_position),
                ..old(self)@
            }),
    {
        self.document_cursor_position = Some(cursor_position);
    }

    pub fn areas(&self) -> (areas: Areas)
        ensures
            areas == self@.areas,
    {
        self.areas
    }

    pub fn document_rect(&self) -> (rect: Rect)
        ensures
            rect == self@.areas.document,
    {
        self.areas.document
    }

    pub fn display_line_numbers(&self) -> (shown: bool)
        ensures
            shown == self@.display_line_numbers,
    {
        self.display_line_numbers
    }

    pub fn set_display_line_numbers(&mut self, display_line_numbers: bool)
        ensures
            final(self)@ == (Interface { display_line_numbers, ..old(self)@ }),
    {
        self.display_line_numbers = display_line_numbers
    }

    pub fn display_status_bar(&self) -> (shown: bool)
        ensures
            shown == self@.display_status_bar,
    {
        self.display_status_bar
    }

    pub fn set_display_status_bar(&mut self, display_status_bar: bool)
        ensures
            final(self)@ == (Interface { display_status_bar, ..old(self)@ }),
    {
        self.display_status_bar = display_status_bar
    }

    pub fn util_bar(&self) -> (bar: &UtilBar)
        ensures
            bar@ == self@.util_bar,
    {
        &self.util_bar
    }

    pub fn util_bar_mut(&mut self) -> (bar: &mut UtilBar)
        ensures
            bar@ == old(self)@.util_bar,
            final(self)@ == (Interface { util_bar: final(bar)@, ..old(self)@ }),
    {
        &mut self.util_bar
    }

    pub fn util_bar_alternate(&self) -> (bar: &UtilBar)
        ensures
            bar@ == self@.util_bar_alternate,
    {
        &self.util_bar_alternate
    }

    pub fn util_bar_alternate_mut(&mut self) -> (bar: &mut UtilBar)
        ensures
            bar@ == old(self)@.util_bar_alternate,
            final(self)@ == (Interface { util_bar_alternate: final(bar)@, ..old(self)@ }),
    {
        &mut self.util_bar_alternate
    }

    pub fn util_bar_alternate_focused(&self) -> (focused: bool)
        ensures
            focused == self@.util_bar_alternate_focused,
    {
        self.util_bar_alternate_focused
    }

    pub fn set_util_bar_alternate_focused(&mut self, util_bar_alternate_focused: bool)
        ensures
            final(self)@ == (Interface { util_bar_alternate_focused, ..old(self)@ }),
    {
        self.util_bar_alternate_focused = util_bar_alternate_focused
    }

    /// The field that the keys of find and replace go to: the alternate
    /// field where it has the focus, the primary field otherwise.
    pub fn focused_bar_mut(&mut self) -> (bar: &mut UtilBar)
        ensures
            bar@ == old(self)@.focused(),
            final(self)@ == if old(self)@.util_bar_alternate_focused {
                Interface { util_bar_alternate: final(bar)@, ..old(self)@ }
            } else {
                Interface { util_bar: final(bar)@, ..old(self)@ }
            },
    {
        if self.util_bar_alternate_focused {
            &mut self.util_bar_alternate
        } else {
            &mut self.util_bar
        }
    }

    pub fn text_in_view(&self) -> (text: &str)
        ensures
            text@ == self@.text_in_view,
    {
        self.text_in_view.as_str()
    }

    pub fn set_text_in_view(&mut self, text: String)
        ensures
            final(self)@ == (Interface { text_in_view: text@, ..old(self)@ }),
    {
        self.text_in_view = text;
    }

    pub fn line_numbers_in_view(&self) -> (text: &str)
        ensures
            text@ == self@.line_numbers_in_view,
    {
        self.line_numbers_in_view.as_str()
    }

    pub fn set_line_numbers_in_view(&mut self, line_numbers: String)
        ensures
            final(self)@ == (Interface { line_numbers_in_view: line_numbers@, ..old(self)@ }),
    {
        self.line_numbers_in_view = line_numbers;
    }

    pub fn document_open(&self) -> (open: bool)
        ensures
            open == self@.document_open,
    {
        self.document_open
    }

    pub fn set_document_open(&mut self, val: bool)
        ensures
            final(self)@ == (Interface { document_open: val, ..old(self)@ }),
    {
        self.document_open = val;
    }

    pub fn client_cursor_position(&self) -> (position: Option<Position>)
        ensures
            position == self@.client_cursor_position,
    {
        self.client_cursor_position
    }

    pub fn set_client_cursor_position(&mut self, position: Option<Position>)
        ensures
            final(self)@ == (Interface { client_cursor_position: position, ..old(self)@ }),
    {
        self.client_cursor_position = position;
    }

    /// Takes `areas` as the layout for `mode`, and gives the two fields the
    /// width of their areas.
    pub fn set_areas(&mut self, mode: Mode, areas: Areas)
        ensures
            final(self)@ == old(self)@.laid_out(mode, areas),
    {
        self.areas = areas;
        match mode {
            Mode::Command | Mode::SaveAs | Mode::Goto | Mode::FindReplace => {
                self.util_bar.set_widget_width(areas.util_bar.width);
                self.util_bar_alternate.set_widget_width(areas.util_bar_alternate.width);
            },
            _ => {
                self.util_bar.set_widget_width(0);
                self.util_bar_alternate.set_widget_width(0);
            },
        }
    }

    /// Lays the screen out for `mode`: cuts the terminal into the document's
    /// row, the status bar and the prompt row, and each of these rows into
    /// its parts. Where the parts begin and how large they are is the layout
    /// solver's answer; the rest of the interface follows from it.
    pub fn update_layouts(&mut self, mode: Mode)
        ensures
            final(self)@ == old(self)@.laid_out(mode, final(self)@.areas),
            final(self)@.areas.in_rows(),
    {
        let rows = viewport_rows(self.display_status_bar, mode);
        let viewport = split(Direction::Vertical, &rows, self.terminal_size);
        let columns = document_columns(self.display_line_numbers, self.document_length);
        let document = split(Direction::Horizontal, &columns, viewport[0]);
        let file_name_length = match &self.document_file_name {
            Some(file_name) => file_name.as_str().len(),
            None => 0,
        };
        let columns = status_columns(self.document_modified_status, file_name_length);
        let status = split(Direction::Horizontal, &columns, viewport[1]);
        let columns = util_columns(mode, viewport[2].width);
        let util = split(Direction::Horizontal, &columns, viewport[2]);
        self.set_areas(
            mode,
            Areas {
                line_number: document[0],
                document: document[1],
                status_bar_modified_indicator: status[0],
                status_bar_file_name: status[1],
                status_bar_cursor_position: status[2],
                util_bar_prompt: util[0],
                util_bar: util[1],
                util_bar_alternate_prompt: util[2],
                util_bar_alternate: util[3],
            },
        );
    }

    /// Where on the screen the terminal's cursor belongs in `mode`.
    pub fn cursor_target(&self, mode: Mode) -> (target: Option<(u16, u16)>)
        ensures
            target == self@.cursor_target(mode),
    {
        match mode {
            Mode::Insert => match self.client_cursor_position {
                Some(position) => Some(
                    (
                        moved(self.areas.document.x, position.x),
                        moved(self.areas.document.y, position.y),
                    ),
                ),
                None => None,
            },
            Mode::Goto | Mode::Command | Mode::SaveAs => Some(
                (field_column(self.areas.util_bar, &self.util_bar), self.terminal_size.height),
            ),
            Mode::FindReplace => {
                let column = if self.util_bar_alternate_focused {
                    field_column(self.areas.util_bar_alternate, &self.util_bar_alternate)
                } else {
                    field_column(self.areas.util_bar, &self.util_bar)
                };
                Some((column, self.terminal_size.height))
            },
            Mode::Warning(_) => None,
        }
    }
}

} // verus!
