//! The document as one text: joining the lines of the buffer for storage,
//! and splitting stored text into lines.

use crate::cursor::{Cursor, Pos};
use crate::editor::{Editor, Selection};
use crate::model::RecordModel;
use crate::text::{chars_of, is_line_terminator, line_is_clean, string_of, text_is_clean};
use vstd::prelude::*;
use vstd::string::*;

verus! {

/// The lines set one behind the other with a single `'\n'` between each two;
/// none stands behind the last line.
pub open spec fn joined(lines: Seq<Seq<char>>) -> Seq<char>
    decreases lines.len(),
{
    if lines.len() == 0 {
        Seq::empty()
    } else if lines.len() == 1 {
        lines[0]
    } else {
        joined(lines.drop_last()) + seq!['\n'] + lines.last()
    }
}

/// The number of characters before the first `'\n'` of `text`, or before its
/// end if it holds none.
pub open spec fn line_end(text: Seq<char>) -> nat
    decreases text.len(),
{
    if text.len() == 0 || text[0] == '\n' {
        0
    } else {
        1 + line_end(text.skip(1))
    }
}

/// `line` without the carriage return at its end, if it has one.
pub open spec fn without_return(line: Seq<char>) -> Seq<char> {
    if line.len() > 0 && line.last() == '\r' {
        line.drop_last()
    } else {
        line
    }
}

/// The lines of a text. A line ends at `'\n'`; a carriage return directly
/// before that `'\n'` belongs to the line break. What stands behind the last
/// `'\n'` is a line if it is not empty, and keeps a carriage return at its end.
pub open spec fn lines_of(text: Seq<char>) -> Seq<Seq<char>>
    decreases text.len(),
{
    if text.len() == 0 {
        Seq::empty()
    } else {
        let end = line_end(text);
        if end < text.len() {
            seq![without_return(text.take(end as int))] + lines_of(text.skip(end as int + 1))
        } else {
            seq![text]
        }
    }
}

/// The document that a stored text stands for: its lines, or one empty line
/// if it has none.
pub open spec fn document_of(text: Seq<char>) -> Seq<Seq<char>> {
    if lines_of(text).len() == 0 {
        seq![Seq::<char>::empty()]
    } else {
        lines_of(text)
    }
}

/// Where the first line of a text ends.
pub proof fn lemma_line_end(text: Seq<char>, n: nat)
    requires
        n <= text.len(),
        forall|k: int| 0 <= k < n ==> text[k] != '\n',
        n == text.len() || text[n as int] == '\n',
    ensures
        line_end(text) == n,
    decreases n,
{
    if n > 0 {
        let rest = text.skip(1);
        assert forall|k: int| 0 <= k < n - 1 implies rest[k] != '\n' by {
            assert(rest[k] == text[k + 1]);
        }
        if n < text.len() {
            assert(rest[n - 1] == text[n as int]);
        }
        lemma_line_end(rest, (n - 1) as nat);
    }
}

/// The text of a document as it is stored: its lines joined by `'\n'`.
pub fn join_lines(lines: &Vec<String>) -> (text: String)
    ensures
        text@ == joined(lines.deep_view()),
{
    let mut text = String::new();
    let mut i: usize = 0;
    while i < lines.len()
        invariant
            i <= lines.len(),
            text@ == joined(lines.deep_view().take(i as int)),
        decreases lines.len() - i,
    {
        let ghost before = lines.deep_view().take(i as int);
        let ghost now = lines.deep_view().take(i + 1);
        if i > 0 {
            text.push('\n');
        }
        text.append(lines[i].as_str());
        i = i + 1;
        proof {
            assert(now.drop_last() =~= before);
            assert(now.last() == lines.deep_view()[i - 1]);
            if i == 1 {
                assert(text@ =~= now[0]);
            } else {
                assert(text@ =~= joined(before) + seq!['\n'] + now.last());
            }
        }
    }
    assert(lines.deep_view().take(i as int) =~= lines.deep_view());
    text
}

/// The lines of a stored text. No line holds a `'\n'`.
pub fn split_lines(text: &str) -> (lines: Vec<String>)
    ensures
        lines.deep_view() == lines_of(text@),
        text_is_clean(lines.deep_view()),
{
    let chars = chars_of(text);
    let n = chars.len();
    let mut lines: Vec<String> = Vec::new();
    let mut start: usize = 0;
    let mut i: usize = 0;
    assert(text@.skip(0) =~= text@);
    while i < n
        invariant
            start <= i <= n,
            n == chars.len(),
            chars@ == text@,
            forall|k: int| start <= k < i ==> chars@[k] != '\n',
            lines.deep_view() + lines_of(text@.skip(start as int)) == lines_of(text@),
            text_is_clean(lines.deep_view()),
        decreases n - i,
    {
        if chars[i] == '\n' {
            let ghost rest = text@.skip(start as int);
            let ghost done = lines.deep_view();
            proof {
                assert forall|k: int| 0 <= k < i - start implies rest[k] != '\n' by {
                    assert(rest[k] == chars@[start + k]);
                }
                assert(rest[i - start] == chars@[i as int]);
                lemma_line_end(rest, (i - start) as nat);
                assert(rest.take(i - start) =~= text@.subrange(start as int, i as int));
                assert(rest.skip(i - start + 1) =~= text@.skip(i + 1));
            }
            let end = if i > start && chars[i - 1] == '\r' {
                i - 1
            } else {
                i
            };
            let line = string_of(&chars, start, end);
            proof {
                let whole = text@.subrange(start as int, i as int);
                assert(line@ =~= without_return(whole));
                assert forall|k: int| 0 <= k < line@.len() implies !is_line_terminator(
                    #[trigger] line@[k],
                ) by {
                    assert(line@[k] == chars@[start + k]);
                }
            }
            lines.push(line);
            proof {
                assert(lines.deep_view() =~= done.push(line@));
                assert(lines.deep_view() + lines_of(text@.skip(i + 1)) =~= done + lines_of(rest));
                assert forall|j: int| 0 <= j < lines.deep_view().len() implies line_is_clean(
                    #[trigger] lines.deep_view()[j],
                ) by {
                    if j < done.len() {
                        assert(lines.deep_view()[j] == done[j]);
                    }
                }
            }
            start = i + 1;
        }
        i = i + 1;
    }
    let ghost rest = text@.skip(start as int);
    let ghost done = lines.deep_view();
    if start < n {
        proof {
            assert forall|k: int| 0 <= k < n - start implies rest[k] != '\n' by {
                assert(rest[k] == chars@[start + k]);
            }
            lemma_line_end(rest, (n - start) as nat);
        }
        let line = string_of(&chars, start, n);
        proof {
            assert(line@ =~= rest);
            assert forall|k: int| 0 <= k < line@.len() implies !is_line_terminator(
                #[trigger] line@[k],
            ) by {
                assert(line@[k] == chars@[start + k]);
            }
        }
        lines.push(line);
        proof {
            assert(lines.deep_view() =~= done + lines_of(rest));
            assert forall|j: int| 0 <= j < lines.deep_view().len() implies line_is_clean(
                #[trigger] lines.deep_view()[j],
            ) by {
                if j < done.len() {
                    assert(lines.deep_view()[j] == done[j]);
                }
            }
        }
    } else {
        assert(done + lines_of(rest) =~= done);
    }
    lines
}

impl Editor {
    /// The text of the document as it is stored.
    pub fn content_text(&self) -> (text: String)
        ensures
            text@ == joined(self@.lines),
    {
        join_lines(&self.editor_content)
    }

    /// Takes a stored text as the document: its lines, or one empty line if
    /// it has none. The cursor goes to the start, the selection clears, the
    /// scroll window shows the first line and the history empties.
    pub fn load(&mut self, text: &str)
        requires
            old(self)@.tab_width > 0,
        ensures
            final(self)@.wf(),
            final(self)@.lines == document_of(text@),
            final(self)@.cursor == (Pos { x: 0, y: 0 }),
            final(self)@.selection is None,
            final(self)@.scroll_offset == 0,
            final(self)@.undo.len() == 0,
            final(self)@.redo.len() == 0,
            final(self)@.viewport_height == old(self)@.viewport_height,
            final(self)@.tab_width == old(self)@.tab_width,
    {
        let mut lines = split_lines(text);
        if lines.len() == 0 {
            lines.push(String::new());
            assert(lines.deep_view() =~= seq![Seq::<char>::empty()]);
            assert(line_is_clean(lines.deep_view()[0]));
        }
        self.editor_content = lines;
        self.cursor = Cursor::new();
        self.selection = Selection::Inactive;
        self.scroll_offset = 0;
        self.visual_cursor_x = 0;
        self.undo_stack = Vec::new();
        self.redo_stack = Vec::new();
        assert(self.undo_stack.deep_view() =~= Seq::<RecordModel>::empty());
        assert(self.redo_stack.deep_view() =~= Seq::<RecordModel>::empty());
    }
}

} // verus!
