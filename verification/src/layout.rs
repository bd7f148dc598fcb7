//! The areas of the screen, and the constraints that the layout solver cuts
//! them by.

use crate::application::{Mode, WarningKind};
use ratatui::layout as solver;
use vstd::prelude::*;

verus! {

/// A rectangle of terminal cells.
#[derive(Clone, Copy, PartialEq, Eq, Debug, Structural)]
pub struct Rect {
    pub x: u16,
    pub y: u16,
    pub width: u16,
    pub height: u16,
}

impl Rect {
    pub open spec fn zero() -> Rect {
        Rect { x: 0, y: 0, width: 0, height: 0 }
    }

    /// The rectangle at the origin that holds no cell.
    pub fn empty() -> (rect: Rect)
        ensures
            rect == Rect::zero(),
    {
        Rect { x: 0, y: 0, width: 0, height: 0 }
    }

    /// The two rectangles lie in one row: they start on the same line and
    /// are equally high.
    pub open spec fn same_row(self, other: Rect) -> bool {
        self.y == other.y && self.height == other.height
    }

    /// The two rectangles lie in one column: they start in the same column
    /// and are equally wide.
    pub open spec fn same_column(self, other: Rect) -> bool {
        self.x == other.x && self.width == other.width
    }
}

/// The direction in which an area is cut into parts.
#[derive(Clone, Copy, PartialEq, Eq, Debug, Structural)]
pub enum Direction {
    Horizontal,
    Vertical,
}

/// What is asked of the size of one part of an area.
#[derive(Clone, Copy, PartialEq, Eq, Debug, Structural)]
pub enum Constraint {
    Min(u16),
    Max(u16),
    Length(u16),
}

/// The areas that the parts of the user interface are drawn in.
#[derive(Clone, Copy, PartialEq, Eq, Debug, Structural)]
pub struct Areas {
    /// The area of the line numbers.
    pub line_number: Rect,
    /// The area of the open document.
    pub document: Rect,
    /// The area of the status bar that says whether the file is modified.
    pub status_bar_modified_indicator: Rect,
    /// The area of the status bar that names the file.
    pub status_bar_file_name: Rect,
    /// The area of the status bar that gives the cursor's place in the document.
    pub status_bar_cursor_position: Rect,
    /// The area of the prompt of the primary field.
    pub util_bar_prompt: Rect,
    /// The area of the primary field.
    pub util_bar: Rect,
    /// The area of the prompt of the alternate field.
    pub util_bar_alternate_prompt: Rect,
    /// The area of the alternate field.
    pub util_bar_alternate: Rect,
}

impl Areas {
    pub open spec fn zero() -> Areas {
        Areas {
            line_number: Rect::zero(),
            document: Rect::zero(),
            status_bar_modified_indicator: Rect::zero(),
            status_bar_file_name: Rect::zero(),
            status_bar_cursor_position: Rect::zero(),
            util_bar_prompt: Rect::zero(),
            util_bar: Rect::zero(),
            util_bar_alternate_prompt: Rect::zero(),
            util_bar_alternate: Rect::zero(),
        }
    }

    /// The line numbers stand beside the document, the three parts of the
    /// status bar share a row, and so do the four parts of the prompt row.
    pub open spec fn in_rows(self) -> bool {
        &&& self.line_number.same_row(self.document)
        &&& self.status_bar_modified_indicator.same_row(self.status_bar_file_name)
        &&& self.status_bar_modified_indicator.same_row(self.status_bar_cursor_position)
        &&& self.util_bar_prompt.same_row(self.util_bar)
        &&& self.util_bar_prompt.same_row(self.util_bar_alternate_prompt)
        &&& self.util_bar_prompt.same_row(self.util_bar_alternate)
    }
}

/// Cuts `area` into one part for each constraint, side by side for
/// `Direction::Horizontal` and one below the other for `Direction::Vertical`,
/// with `Layout::split` of ratatui, on a layout without margin or spacing.
///
/// Trusted: there are as many parts as constraints, in their order. The
/// parts of a horizontal cut start on the line of `area` and are as high;
/// those of a vertical cut start in the column of `area` and are as wide.
/// Where along the cut a part begins and ends is up to the solver.
#[verifier::external_body]
pub(crate) fn split(direction: Direction, constraints: &Vec<Constraint>, area: Rect) -> (parts: Vec<
    Rect,
>)
    ensures
        parts.len() == constraints.len(),
        forall|i: int|
            0 <= i < parts.len() ==> match direction {
                Direction::Horizontal => (#[trigger] parts[i]).same_row(area),
                Direction::Vertical => parts[i].same_column(area),
            },
{
    let direction = match direction {
        Direction::Horizontal => solver::Direction::Horizontal,
        Direction::Vertical => solver::Direction::Vertical,
    };
    let constraints = constraints.iter().map(|c| match *c {
        Constraint::Min(n) => solver::Constraint::Min(n),
        Constraint::Max(n) => solver::Constraint::Max(n),
        Constraint::Length(n) => solver::Constraint::Length(n),
    });
    let Rect { x, y, width, height } = area;
    let layout = solver::Layout::default().direction(direction).constraints(constraints);
    let parts = layout.split(solver::Rect { x, y, width, height });
    parts.iter().map(|r| Rect { x: r.x, y: r.y, width: r.width, height: r.height }).collect()
}

pub const GOTO_PROMPT: &'static str = " Go to: ";

pub const FIND_PROMPT: &'static str = " Find: ";

pub const REPLACE_PROMPT: &'static str = " Replace: ";

pub const COMMAND_PROMPT: &'static str = " Command: ";

pub const SAVE_AS_PROMPT: &'static str = " Save As: ";

pub const MODIFIED_INDICATOR: &'static str = "[Modified]";

pub const DEFAULT_DOCUMENT_TEXT: &'static str = "Nlo Text Editor\n\nNo Document Open";

pub const UNSAVED_CHANGES_WARNING: &'static str =
    "WARNING! File has unsaved changes. Press close again to ignore and close.";

pub const SAVE_FAILED_WARNING: &'static str = "WARNING! File could not be saved.";

/// The width of the prompt in front of the primary field.
pub open spec fn prompt_width(mode: Mode) -> u16 {
    match mode {
        Mode::Goto => 8,
        Mode::FindReplace => 7,
        Mode::Command => 10,
        Mode::SaveAs => 10,
        _ => 0,
    }
}

/// The width of the prompt in front of the alternate field.
pub open spec fn alternate_prompt_width(mode: Mode) -> u16 {
    match mode {
        Mode::FindReplace => 10,
        _ => 0,
    }
}

/// `a - b`, or 0 where `b` is the larger.
pub open spec fn minus(a: u16, b: u16) -> u16 {
    if a >= b {
        (a - b) as u16
    } else {
        0
    }
}

/// `n`, or the largest 16-bit number where `n` is larger.
pub open spec fn at_most_u16(n: nat) -> u16 {
    if n > u16::MAX {
        u16::MAX
    } else {
        n as u16
    }
}

/// How the screen is cut into rows: the document on top, taking what is
/// left; below it the status bar, where it is shown; and last the prompt
/// row, which insert mode shows only together with the status bar.
pub open spec fn viewport_constraints(display_status_bar: bool, mode: Mode) -> Seq<Constraint> {
    let status: u16 = if display_status_bar {
        1
    } else {
        0
    };
    seq![
        Constraint::Min(0),
        Constraint::Length(status),
        Constraint::Length(
            match mode {
                Mode::Insert => status,
                _ => 1,
            },
        ),
    ]
}

/// How the top row is cut: the line numbers, where they are shown, as wide
/// as the digits of the document's length and one column more, and then the
/// document with at least five columns.
pub open spec fn document_constraints(display_line_numbers: bool, document_length: usize) -> Seq<
    Constraint,
> {
    seq![
        Constraint::Length(
            if display_line_numbers {
                (digits(document_length as nat) + 1) as u16
            } else {
                0
            },
        ),
        Constraint::Min(5),
    ]
}

/// How the status bar is cut: room for the modified indicator where the
/// document is modified, room for a file name of `file_name_length` bytes,
/// and the rest for the cursor's place.
pub open spec fn status_constraints(modified: bool, file_name_length: nat) -> Seq<Constraint> {
    seq![
        Constraint::Max(
            if modified {
                10
            } else {
                0
            },
        ),
        Constraint::Max(at_most_u16(file_name_length)),
        Constraint::Min(0),
    ]
}

/// How a prompt row of `width` columns is cut: the prompt and the primary
/// field, then the prompt and the alternate field, which only find and
/// replace shows, each pair in one half of the row.
pub open spec fn util_constraints(mode: Mode, width: u16) -> Seq<Constraint> {
    let room: u16 = if mode is FindReplace {
        width / 2
    } else {
        width
    };
    seq![
        Constraint::Length(prompt_width(mode)),
        Constraint::Length(minus(room, prompt_width(mode))),
        Constraint::Length(alternate_prompt_width(mode)),
        Constraint::Length(
            if mode is FindReplace {
                minus(room, alternate_prompt_width(mode))
            } else {
                0
            },
        ),
        Constraint::Length(0),
    ]
}

/// The text of the prompt in front of the primary field.
pub open spec fn prompt_text(mode: Mode) -> Seq<char> {
    match mode {
        Mode::Goto => GOTO_PROMPT@,
        Mode::FindReplace => FIND_PROMPT@,
        Mode::Command => COMMAND_PROMPT@,
        Mode::SaveAs => SAVE_AS_PROMPT@,
        _ => Seq::empty(),
    }
}

/// The text of the prompt in front of the alternate field.
pub open spec fn alternate_prompt_text(mode: Mode) -> Seq<char> {
    match mode {
        Mode::FindReplace => REPLACE_PROMPT@,
        _ => Seq::empty(),
    }
}

/// The text of the warning of `kind`.
pub open spec fn warning_text(kind: WarningKind) -> Seq<char> {
    match kind {
        WarningKind::FocusedFileIsModified => UNSAVED_CHANGES_WARNING@,
        WarningKind::FileSaveFailed => SAVE_FAILED_WARNING@,
    }
}

/// The warning that is shown for `kind`.
pub fn warning_message(kind: WarningKind) -> (text: &'static str)
    ensures
        text@ == warning_text(kind),
{
    match kind {
        WarningKind::FocusedFileIsModified => UNSAVED_CHANGES_WARNING,
        WarningKind::FileSaveFailed => SAVE_FAILED_WARNING,
    }
}

/// The prompt in front of the primary field in `mode`.
pub fn prompt(mode: Mode) -> (text: &'static str)
    ensures
        text@ == prompt_text(mode),
        text@.len() == prompt_width(mode),
{
    proof {
        reveal_strlit(" Go to: ");
        reveal_strlit(" Find: ");
        reveal_strlit(" Command: ");
        reveal_strlit(" Save As: ");
        reveal_strlit("");
    }
    match mode {
        Mode::Goto => GOTO_PROMPT,
        Mode::FindReplace => FIND_PROMPT,
        Mode::Command => COMMAND_PROMPT,
        Mode::SaveAs => SAVE_AS_PROMPT,
        _ => "",
    }
}

/// The prompt in front of the alternate field in `mode`.
pub fn alternate_prompt(mode: Mode) -> (text: &'static str)
    ensures
        text@ == alternate_prompt_text(mode),
        text@.len() == alternate_prompt_width(mode),
{
    proof {
        reveal_strlit(" Replace: ");
        reveal_strlit("");
    }
    match mode {
        Mode::FindReplace => REPLACE_PROMPT,
        _ => "",
    }
}

/// The constraints that cut the screen into rows.
pub fn viewport_rows(display_status_bar: bool, mode: Mode) -> (rows: Vec<Constraint>)
    ensures
        rows@ == viewport_constraints(display_status_bar, mode),
{
    let status: u16 = if display_status_bar {
        1
    } else {
        0
    };
    let util: u16 = match mode {
        Mode::Insert => status,
        _ => 1,
    };
    vec![Constraint::Min(0), Constraint::Length(status), Constraint::Length(util)]
}

/// The constraints that cut the top row into line numbers and document.
pub fn document_columns(display_line_numbers: bool, document_length: usize) -> (columns: Vec<
    Constraint,
>)
    ensures
        columns@ == document_constraints(display_line_numbers, document_length),
{
    let numbers: u16 = if display_line_numbers {
        count_digits(document_length) + 1
    } else {
        0
    };
    vec![Constraint::Length(numbers), Constraint::Min(5)]
}

/// The constraints that cut the status bar.
pub fn status_columns(modified: bool, file_name_length: usize) -> (columns: Vec<Constraint>)
    ensures
        columns@ == status_constraints(modified, file_name_length as nat),
{
    let indicator: u16 = if modified {
        10
    } else {
        0
    };
    let name: u16 = if file_name_length > 65535 {
        65535
    } else {
        file_name_length as u16
    };
    vec![Constraint::Max(indicator), Constraint::Max(name), Constraint::Min(0)]
}

/// The constraints that cut a prompt row of `width` columns.
pub fn util_columns(mode: Mode, width: u16) -> (columns: Vec<Constraint>)
    ensures
        columns@ == util_constraints(mode, width),
{
    let find_replace = match mode {
        Mode::FindReplace => true,
        _ => false,
    };
    let room: u16 = if find_replace {
        width / 2
    } else {
        width
    };
    let prompt_columns = prompt(mode).unicode_len() as u16;
    let alternate_prompt_columns = alternate_prompt(mode).unicode_len() as u16;
    let alternate: u16 = if find_replace {
        room.saturating_sub(alternate_prompt_columns)
    } else {
        0
    };
    vec![
        Constraint::Length(prompt_columns),
        Constraint::Length(room.saturating_sub(prompt_columns)),
        Constraint::Length(alternate_prompt_columns),
        Constraint::Length(alternate),
        Constraint::Length(0),
    ]
}

/// The number of decimal digits that write `n`.
pub open spec fn digits(n: nat) -> nat
    decreases n,
{
    if n < 10 {
        1
    } else {
        1 + digits(n / 10)
    }
}

/// Ten to the power of `k`.
pub open spec fn power_of_ten(k: nat) -> nat
    decreases k,
{
    if k == 0 {
        1
    } else {
        10 * power_of_ten((k - 1) as nat)
    }
}

/// A number below the `k`-th power of ten has at most `k` digits.
pub proof fn lemma_digits_below_power(n: nat, k: nat)
    requires
        k >= 1,
        n < power_of_ten(k),
    ensures
        digits(n) <= k,
    decreases k,
{
    if n >= 10 {
        assert(power_of_ten(1) == 10) by {
            reveal_with_fuel(power_of_ten, 2);
        }
        lemma_digits_below_power(n / 10, (k - 1) as nat);
    }
}

/// Counts the decimal digits of `n`.
pub fn count_digits(n: usize) -> (count: u16)
    ensures
        count == digits(n as nat),
        1 <= count <= 20,
{
    if n == 0 {
        return 1;
    }
    proof {
        assert(power_of_ten(20) == 100_000_000_000_000_000_000) by {
            reveal_with_fuel(power_of_ten, 21);
        }
        lemma_digits_below_power(n as nat, 20);
    }
    let mut rest: usize = n;
    let mut count: u16 = 0;
    while rest > 0
        invariant
            rest > 0 ==> count + digits(rest as nat) == digits(n as nat),
            rest == 0 ==> count == digits(n as nat),
            digits(n as nat) <= 20,
            count <= 20,
        decreases rest,
    {
        count = count + 1;
        rest = rest / 10;
    }
    count
}

} // verus!
