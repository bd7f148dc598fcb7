//! The editable field: a single line of text with a cursor that counts
//! grapheme clusters, and the horizontal scroll that keeps the cursor in view.

use crate::graphemes::{append_clusters, clusters, clusters_of, push_char, spelled};
use vstd::prelude::*;

verus! {

/// What an editable field holds, as plain values.
pub struct Field {
    pub text: Seq<char>,
    pub text_is_valid: bool,
    pub cursor_position: u16,
    pub offset: u16,
    pub widget_width: u16,
}

/// The number of clusters of `text` as the cursor can count them: the cursor
/// is a 16-bit index, so the count stops at the largest such index.
pub open spec fn span(text: Seq<char>) -> u16 {
    if clusters(text).len() > u16::MAX {
        u16::MAX
    } else {
        clusters(text).len() as u16
    }
}

/// `text` with `c` put in front of cluster `at`, or at the end where `at` is
/// not the index of a cluster.
pub open spec fn insert_at(text: Seq<char>, at: u16, c: char) -> Seq<char> {
    let parts = clusters(text);
    let p = if at <= parts.len() {
        at as int
    } else {
        parts.len() as int
    };
    spelled(parts, 0, p).push(c) + spelled(parts, p, parts.len() as int)
}

/// `text` without cluster `at`, or `text` itself where `at` is not the index
/// of a cluster.
pub open spec fn remove_at(text: Seq<char>, at: u16) -> Seq<char> {
    let parts = clusters(text);
    if at < parts.len() {
        spelled(parts, 0, at as int) + spelled(parts, at + 1, parts.len() as int)
    } else {
        text
    }
}

impl Field {
    /// The empty field: no text, not valid, and nothing of it shown.
    pub open spec fn empty() -> Field {
        Field {
            text: Seq::empty(),
            text_is_valid: false,
            cursor_position: 0,
            offset: 0,
            widget_width: 0,
        }
    }

    /// The cursor is at most the number of clusters of the text.
    pub open spec fn cursor_in_text(self) -> bool {
        0 <= self.cursor_position <= clusters(self.text).len()
    }

    /// The cursor lies on a cluster or just behind the last one, and the
    /// clusters, joined, are the text.
    pub open spec fn wf(self) -> bool {
        &&& self.cursor_in_text()
        &&& clusters(self.text).flatten() == self.text
    }

    /// The field with its cursor held to the clusters of its text.
    pub open spec fn held(self) -> Field {
        Field {
            cursor_position: if self.cursor_position <= span(self.text) {
                self.cursor_position
            } else {
                span(self.text)
            },
            ..self
        }
    }

    /// The field without its text, the cursor at the start. The scroll offset
    /// stays.
    pub open spec fn cleared(self) -> Field {
        Field { text: Seq::empty(), cursor_position: 0, ..self }
    }

    /// The field with the cursor one cluster further right, or behind the
    /// last cluster where it was there or beyond.
    pub open spec fn moved_right(self) -> Field {
        Field {
            cursor_position: if self.cursor_position < span(self.text) {
                (self.cursor_position + 1) as u16
            } else {
                span(self.text)
            },
            ..self
        }
    }

    /// The field with the cursor one cluster further left, or at the start
    /// where it was there.
    pub open spec fn moved_left(self) -> Field {
        Field {
            cursor_position: if self.cursor_position > 0 {
                (self.cursor_position - 1) as u16
            } else {
                0
            },
            ..self
        }
    }

    /// The field with the cursor at the start, scrolled back.
    pub open spec fn moved_home(self) -> Field {
        Field { cursor_position: 0, offset: 0, ..self }
    }

    /// The field with the cursor behind the last cluster.
    pub open spec fn moved_end(self) -> Field {
        Field { cursor_position: span(self.text), ..self }
    }

    /// The field with `c` inserted at the cursor, and the cursor then moved
    /// one cluster to the right.
    pub open spec fn inserted(self, c: char) -> Field {
        Field { text: insert_at(self.text, self.cursor_position, c), ..self }.moved_right()
    }

    /// The field without the cluster under the cursor. The cursor stays,
    /// held to the clusters that the new text has.
    pub open spec fn deleted(self) -> Field {
        Field { text: remove_at(self.text, self.cursor_position), ..self }.held()
    }

    /// The field with the cursor moved left and the cluster under it then
    /// deleted.
    pub open spec fn backspaced(self) -> Field {
        self.moved_left().deleted()
    }

    /// The first column past the visible part, held to 16 bits.
    pub open spec fn right_edge(self) -> u16 {
        if self.offset + self.widget_width > u16::MAX {
            u16::MAX
        } else {
            (self.offset + self.widget_width) as u16
        }
    }

    /// The field scrolled to its cursor: the offset goes down to a cursor
    /// that is left of it, and up to the least offset that shows a cursor
    /// that has reached the right edge; else it stays.
    pub open spec fn scrolled(self) -> Field {
        if self.cursor_position < self.offset {
            Field { offset: self.cursor_position, ..self }
        } else if self.cursor_position >= self.right_edge() {
            let shown_from = if self.cursor_position >= self.widget_width {
                self.cursor_position - self.widget_width
            } else {
                0
            };
            Field {
                offset: if shown_from + 1 > u16::MAX {
                    u16::MAX
                } else {
                    (shown_from + 1) as u16
                },
                ..self
            }
        } else {
            self
        }
    }

    /// The cursor is inside the visible part.
    pub open spec fn cursor_in_view(self) -> bool {
        self.offset <= self.cursor_position < self.offset + self.widget_width
    }
}

/// One operation on an editable field.
#[derive(Clone, Copy, PartialEq, Eq, Debug, Structural)]
pub enum Edit {
    Insert(char),
    Delete,
    Backspace,
    MoveLeft,
    MoveRight,
    MoveHome,
    MoveEnd,
    Scroll,
    Clear,
}

impl Field {
    /// The field after `edit`.
    pub open spec fn applied(self, edit: Edit) -> Field {
        match edit {
            Edit::Insert(c) => self.inserted(c),
            Edit::Delete => self.deleted(),
            Edit::Backspace => self.backspaced(),
            Edit::MoveLeft => self.moved_left(),
            Edit::MoveRight => self.moved_right(),
            Edit::MoveHome => self.moved_home(),
            Edit::MoveEnd => self.moved_end(),
            Edit::Scroll => self.scrolled(),
            Edit::Clear => self.cleared(),
        }
    }

    /// The field after `edits`, applied from the first to the last.
    pub open spec fn applied_all(self, edits: Seq<Edit>) -> Field
        decreases edits.len(),
    {
        if edits.len() == 0 {
            self
        } else {
            self.applied_all(edits.drop_last()).applied(edits.last())
        }
    }

    /// Whatever operations are applied to a field whose cursor is within its
    /// text, in whatever order, the cursor stays within the text.
    pub proof fn lemma_cursor_stays_in_text(self, edits: Seq<Edit>)
        requires
            self.cursor_in_text(),
        ensures
            self.applied_all(edits).cursor_in_text(),
        decreases edits.len(),
    {
        if edits.len() > 0 {
            self.lemma_cursor_stays_in_text(edits.drop_last());
        }
    }

    /// Inserting a character and then pressing backspace gives back the text
    /// and the cursor, and leaves the rest of the field as it was. This holds
    /// where the cursor can still move right and the new character becomes a
    /// cluster of its own that leaves the clusters around it as they were.
    pub proof fn lemma_insert_then_backspace(self, c: char)
        requires
            self.wf(),
            self.cursor_position < u16::MAX,
            clusters(insert_at(self.text, self.cursor_position, c)) == clusters(self.text).insert(
                self.cursor_position as int,
                seq![c],
            ),
        ensures
            self.inserted(c).backspaced() == self,
    {
        let parts = clusters(self.text);
        let at = self.cursor_position as int;
        let grown = parts.insert(at, seq![c]);
        assert(grown.subrange(0, at) =~= parts.subrange(0, at));
        assert(grown.subrange(at + 1, grown.len() as int) =~= parts.subrange(
            at,
            parts.len() as int,
        ));
        assert(parts =~= parts.subrange(0, at) + parts.subrange(at, parts.len() as int));
        vstd::seq_lib::lemma_flatten_concat(
            parts.subrange(0, at),
            parts.subrange(at, parts.len() as int),
        );
        assert(self.inserted(c).backspaced().text =~= self.text);
    }

    /// Scrolling a second time changes nothing, in a field that shows at
    /// least one column.
    pub proof fn lemma_scroll_is_idempotent(self)
        requires
            self.widget_width > 0,
        ensures
            self.scrolled().scrolled() == self.scrolled(),
    {
    }
}

/// The editable field behind the prompts of the editor.
pub struct UtilBar {
    text: String,
    text_is_valid: bool,
    cursor_position: u16,
    offset: u16,
    widget_width: u16,
}

impl View for UtilBar {
    type V = Field;

    closed spec fn view(&self) -> Field {
        Field {
            text: self.text@,
            text_is_valid: self.text_is_valid,
            cursor_position: self.cursor_position,
            offset: self.offset,
            widget_width: self.widget_width,
        }
    }
}

/// The cluster count `count` as a cursor position.
fn cursor_limit(count: usize) -> (limit: u16)
    ensures
        limit == if count > u16::MAX { u16::MAX } else { count as u16 },
{
    if count > 65535 {
        65535
    } else {
        count as u16
    }
}

impl UtilBar {
    /// An empty, invalid field of width 0.
    pub fn default() -> (bar: Self)
        ensures
            bar@ == Field::empty(),
            bar@.wf(),
    {
        let bar = Self {
            text: String::new(),
            text_is_valid: false,
            cursor_position: 0,
            offset: 0,
            widget_width: 0,
        };
        assert(bar@.text =~= Seq::<char>::empty());
        bar
    }

    pub fn text(&self) -> (text: &str)
        ensures
            text@ == self@.text,
    {
        self.text.as_str()
    }

    pub fn text_is_valid(&self) -> (valid: bool)
        ensures
            valid == self@.text_is_valid,
    {
        self.text_is_valid
    }

    pub fn set_text_is_valid(&mut self, text_is_valid: bool)
        ensures
            final(self)@ == (Field { text_is_valid, ..old(self)@ }),
    {
        self.text_is_valid = text_is_valid
    }

    pub fn cursor_position(&self) -> (position: u16)
        ensures
            position == self@.cursor_position,
    {
        self.cursor_position
    }

    pub fn widget_width(&self) -> (width: u16)
        ensures
            width == self@.widget_width,
    {
        self.widget_width
    }

    pub fn set_widget_width(&mut self, width: u16)
        ensures
            final(self)@ == (Field { widget_width: width, ..old(self)@ }),
    {
        self.widget_width = width;
    }

    /// Empties the text and puts the cursor at its start. The scroll offset
    /// stays: the caller resets it.
    pub fn clear(&mut self)
        ensures
            final(self)@ == old(self)@.cleared(),
            final(self)@.wf(),
    {
        self.text = String::new();
        self.cursor_position = 0;
        assert(self@.text =~= Seq::<char>::empty());
    }

    /// Puts `char` in front of the cluster under the cursor, then moves the
    /// cursor one cluster to the right.
    pub fn insert_char(&mut self, char: char)
        ensures
            final(self)@ == old(self)@.inserted(char),
            final(self)@.wf(),
    {
        let parts = clusters_of(self.text.as_str());
        let count = parts.len();
        let at: usize = if self.cursor_position as usize <= count {
            self.cursor_position as usize
        } else {
            count
        };
        let mut result = String::new();
        append_clusters(&mut result, &parts, 0, at);
        push_char(&mut result, char);
        append_clusters(&mut result, &parts, at, count);
        assert(result@ =~= insert_at(old(self)@.text, old(self)@.cursor_position, char));
        self.text = result;
        self.move_cursor_right();
    }

    /// Removes the cluster under the cursor; behind the last cluster there is
    /// nothing to remove.
    pub fn delete(&mut self)
        ensures
            final(self)@ == old(self)@.deleted(),
            final(self)@.wf(),
    {
        let parts = clusters_of(self.text.as_str());
        let count = parts.len();
        let at = self.cursor_position as usize;
        let remaining = if at < count {
            let mut result = String::new();
            append_clusters(&mut result, &parts, 0, at);
            append_clusters(&mut result, &parts, at + 1, count);
            assert(result@ =~= remove_at(old(self)@.text, old(self)@.cursor_position));
            self.text = result;
            clusters_of(self.text.as_str()).len()
        } else {
            count
        };
        let limit = cursor_limit(remaining);
        if self.cursor_position > limit {
            self.cursor_position = limit;
        }
    }

    /// Moves the cursor one cluster to the left, then removes the cluster
    /// under it.
    pub fn backspace(&mut self)
        ensures
            final(self)@ == old(self)@.backspaced(),
            final(self)@.wf(),
    {
        self.move_cursor_left();
        self.delete();
    }

    pub fn move_cursor_right(&mut self)
        ensures
            final(self)@ == old(self)@.moved_right(),
            final(self)@.wf(),
    {
        let limit = cursor_limit(clusters_of(self.text.as_str()).len());
        if self.cursor_position < limit {
            self.cursor_position = self.cursor_position + 1;
        } else {
            self.cursor_position = limit;
        }
    }

    pub fn move_cursor_left(&mut self)
        ensures
            final(self)@ == old(self)@.moved_left(),
            old(self)@.wf() ==> final(self)@.wf(),
    {
        if self.cursor_position > 0 {
            self.cursor_position = self.cursor_position - 1;
        }
    }

    pub fn move_cursor_home(&mut self)
        ensures
            final(self)@ == old(self)@.moved_home(),
            old(self)@.wf() ==> final(self)@.wf(),
    {
        self.cursor_position = 0;
        self.offset = 0;
    }

    pub fn move_cursor_end(&mut self)
        ensures
            final(self)@ == old(self)@.moved_end(),
            final(self)@.wf(),
    {
        self.cursor_position = cursor_limit(clusters_of(self.text.as_str()).len());
    }

    /// Carries out `edit`.
    pub fn apply(&mut self, edit: Edit)
        ensures
            final(self)@ == old(self)@.applied(edit),
            old(self)@.wf() ==> final(self)@.wf(),
    {
        match edit {
            Edit::Insert(c) => self.insert_char(c),
            Edit::Delete => self.delete(),
            Edit::Backspace => self.backspace(),
            Edit::MoveLeft => self.move_cursor_left(),
            Edit::MoveRight => self.move_cursor_right(),
            Edit::MoveHome => self.move_cursor_home(),
            Edit::MoveEnd => self.move_cursor_end(),
            Edit::Scroll => self.scroll(),
            Edit::Clear => self.clear(),
        }
    }

    pub fn offset(&self) -> (offset: u16)
        ensures
            offset == self@.offset,
    {
        self.offset
    }

    pub fn set_offset(&mut self, offset: u16)
        ensures
            final(self)@ == (Field { offset, ..old(self)@ }),
    {
        self.offset = offset;
    }

    /// Moves the scroll offset so that the cursor is visible: down to the
    /// cursor where the cursor is left of it, and up where the cursor has
    /// reached the right edge.
    pub fn scroll(&mut self)
        ensures
            final(self)@ == old(self)@.scrolled(),
            old(self)@.widget_width > 0 ==> final(self)@.cursor_in_view(),
            old(self)@.wf() ==> final(self)@.wf(),
    {
        if self.cursor_position < self.offset {
            self.offset = self.cursor_position;
        } else if self.cursor_position >= self.offset.saturating_add(self.widget_width) {
            self.offset = self.cursor_position.saturating_sub(self.widget_width).saturating_add(1);
        }
    }
}

} // verus!
