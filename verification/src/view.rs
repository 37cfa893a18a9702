use crate::buffer::merged_rows;
use crate::buffer::Buffer;
use crate::caret::caret_after;
use crate::caret::caret_valid;
use crate::caret::Caret;
use crate::command::Command;
use crate::command::Direction;
use crate::grapheme::grapheme_of;
use crate::grapheme::sat_add;
use crate::grapheme::GraphemeView;
use crate::line::line_of;
use crate::line::nth_location;
use crate::line::visible_graphemes;
use crate::position::sat_sub;
use crate::position::Position;
use crate::size::Size;
use vstd::prelude::*;
use vstd::string::StringExecFns;

verus! {

/// One scroll axis recomputed against the caret's rendered coordinate
/// `p`: an offset that hides the caret on the near side snaps back to
/// `p`; one that hides it on the far side advances to `p - extent + 1`
/// (saturating); otherwise it stays. The flag says whether it changed.
pub open spec fn adjust_axis(p: int, off: int, extent: int) -> (int, bool) {
    if p < off {
        (p, true)
    } else if p >= sat_add(off, extent) {
        (sat_add(p - extent, 1), true)
    } else {
        (off, false)
    }
}

/// The caret's rendered coordinate in the document, both axes, and the
/// scroll offset recomputed against it together with whether either axis
/// moved.
pub open spec fn adjusted_offsets(
    bview: Seq<Seq<GraphemeView>>,
    caret: Caret,
    off: Position,
    size: Size,
) -> (Position, bool) {
    let cell_col = if bview.len() == 0 {
        0
    } else {
        nth_location(bview[caret.row as int], caret.col as int)
    };
    let col_adj = adjust_axis(cell_col, off.col as int, size.width as int);
    let row_adj = adjust_axis(caret.row as int, off.row as int, size.height as int);
    (Position { row: row_adj.0 as usize, col: col_adj.0 as usize }, col_adj.1 || row_adj.1)
}

/// The editing session: the document, the logical caret, the scroll
/// offset, the last-known terminal size, and the redraw flag.
pub struct EditorView {
    pub caret: Caret,
    pub scroll_offset: Position,
    pub buffer: Buffer,
    pub needs_redraw: bool,
    pub terminal_size: Size,
}

impl EditorView {
    /// The session invariant: the caret addresses the document, or sits
    /// at the origin while no document is loaded.
    pub open spec fn wf(self) -> bool {
        if self.buffer@.len() == 0 {
            self.caret.row == 0 && self.caret.col == 0
        } else {
            caret_valid(self.buffer@, self.caret.row as int, self.caret.col as int)
        }
    }

    /// The caret's rendered column: the total width of the clusters
    /// before it on its row, or 0 while no document is loaded.
    pub open spec fn caret_cell_col(self) -> int {
        if self.buffer@.len() == 0 {
            0
        } else {
            nth_location(self.buffer@[self.caret.row as int], self.caret.col as int)
        }
    }
}

/// How a directional move changes the session: on an unloaded document
/// the caret stays put; otherwise it takes one caret step; either way the
/// scroll offset is then recomputed, setting the redraw flag if it moved.
pub open spec fn moved(pre: EditorView, post: EditorView, d: Direction) -> bool {
    let caret2 = if pre.buffer@.len() == 0 {
        pre.caret
    } else {
        caret_after(pre.buffer@, pre.caret, d)
    };
    let adj = adjusted_offsets(pre.buffer@, caret2, pre.scroll_offset, pre.terminal_size);
    &&& post.buffer == pre.buffer
    &&& post.terminal_size == pre.terminal_size
    &&& post.caret == caret2
    &&& post.scroll_offset == adj.0
    &&& post.needs_redraw == (pre.needs_redraw || adj.1)
}

/// How inserting a character changes the session: the character's
/// grapheme enters at the caret, the caret advances one cluster, the
/// scroll offset is recomputed, and a redraw is due. A no-op while no
/// document is loaded.
pub open spec fn inserted(pre: EditorView, post: EditorView, c: char) -> bool {
    if pre.buffer@.len() == 0 {
        post == pre
    } else {
        let row = pre.caret.row as int;
        let col = pre.caret.col as int;
        let bview2 = pre.buffer@.update(
            row,
            pre.buffer@[row].insert(col, grapheme_of(seq![c])),
        );
        let caret2 = Caret { row: pre.caret.row, col: (col + 1) as usize };
        let adj = adjusted_offsets(bview2, caret2, pre.scroll_offset, pre.terminal_size);
        &&& post.buffer@ == bview2
        &&& post.terminal_size == pre.terminal_size
        &&& post.caret == caret2
        &&& post.scroll_offset == adj.0
        &&& post.needs_redraw == true
    }
}

/// How backspace changes the session: mid-line it removes the cluster
/// before the caret and the caret steps left; at column 0 of a later row
/// the row merges into the one above, the line count drops by one, and
/// the caret lands on the join point; at the document's start nothing is
/// removed. The scroll offset is recomputed and a redraw is due. A no-op
/// while no document is loaded.
pub open spec fn removed(pre: EditorView, post: EditorView) -> bool {
    if pre.buffer@.len() == 0 {
        post == pre
    } else {
        let row = pre.caret.row as int;
        let col = pre.caret.col as int;
        let bview2 = if col > 0 {
            pre.buffer@.update(row, pre.buffer@[row].remove(col - 1))
        } else if row > 0 {
            merged_rows(pre.buffer@, row - 1)
        } else {
            pre.buffer@
        };
        let caret2 = if col > 0 {
            Caret { row: pre.caret.row, col: (col - 1) as usize }
        } else if row > 0 {
            Caret { row: (row - 1) as usize, col: pre.buffer@[row - 1].len() as usize }
        } else {
            pre.caret
        };
        let adj = adjusted_offsets(bview2, caret2, pre.scroll_offset, pre.terminal_size);
        &&& post.buffer@ == bview2
        &&& post.terminal_size == pre.terminal_size
        &&& post.caret == caret2
        &&& post.scroll_offset == adj.0
        &&& post.needs_redraw == true
    }
}

/// How forward-delete changes the session: mid-line it removes the
/// cluster at the caret; at end of a row that is not the last, the next
/// row merges into this one, the line count dropping by one; at the end
/// of the last row nothing is removed. The caret stays put, the scroll
/// offset is recomputed, and a redraw is due. A no-op while no document
/// is loaded.
pub open spec fn deleted(pre: EditorView, post: EditorView) -> bool {
    if pre.buffer@.len() == 0 {
        post == pre
    } else {
        let row = pre.caret.row as int;
        let col = pre.caret.col as int;
        let bview2 = if col < pre.buffer@[row].len() {
            pre.buffer@.update(row, pre.buffer@[row].remove(col))
        } else if row + 1 < pre.buffer@.len() {
            merged_rows(pre.buffer@, row)
        } else {
            pre.buffer@
        };
        let adj = adjusted_offsets(bview2, pre.caret, pre.scroll_offset, pre.terminal_size);
        &&& post.buffer@ == bview2
        &&& post.terminal_size == pre.terminal_size
        &&& post.caret == pre.caret
        &&& post.scroll_offset == adj.0
        &&& post.needs_redraw == true
    }
}

/// How a terminal resize changes the session: the new size is recorded, a
/// redraw is due, and the scroll offset is recomputed against the new
/// extents.
pub open spec fn resized(pre: EditorView, post: EditorView, new_size: Size) -> bool {
    let adj = adjusted_offsets(pre.buffer@, pre.caret, pre.scroll_offset, new_size);
    &&& post.buffer == pre.buffer
    &&& post.terminal_size == new_size
    &&& post.caret == pre.caret
    &&& post.scroll_offset == adj.0
    &&& post.needs_redraw == true
}

/// How loading a document changes the session: one row per given line
/// text plus one trailing empty row, the caret clamped into the new
/// document, the scroll offset kept, and a redraw due.
pub open spec fn loaded(pre: EditorView, post: EditorView, texts: Seq<Seq<char>>) -> bool {
    let nlines = texts.len() + 1;
    &&& post.buffer@.len() == nlines
    &&& (forall|i: int| 0 <= i < texts.len() ==> post.buffer@[i] == line_of(texts[i]))
    &&& post.buffer@[texts.len() as int] == line_of(Seq::<char>::empty())
    &&& post.buffer@[texts.len() as int].len() == 0
    &&& post.caret.row as int == (if pre.caret.row < nlines {
        pre.caret.row as int
    } else {
        nlines - 1
    })
    &&& post.caret.col as int == (if pre.caret.col <= post.buffer@[post.caret.row as int].len() {
        pre.caret.col as int
    } else {
        post.buffer@[post.caret.row as int].len() as int
    })
    &&& post.scroll_offset == pre.scroll_offset
    &&& post.terminal_size == pre.terminal_size
    &&& post.needs_redraw == true
}

/// The text a render pass shows on screen row `r`: the visible window of
/// the document row `scroll_row + r`, or a `~` marker past the document's
/// end.
pub open spec fn row_text(
    bview: Seq<Seq<GraphemeView>>,
    off: Position,
    size: Size,
    r: int,
) -> Seq<char> {
    let idx = sat_add(off.row as int, r);
    if idx < bview.len() {
        visible_graphemes(bview[idx], off.col as int, sat_add(off.col as int, size.width as int))
    } else {
        seq!['~']
    }
}

impl Default for EditorView {
    /// A fresh session: no document, the caret and scroll offset at the
    /// origin, no terminal size known yet, and a first redraw due.
    fn default() -> (v: Self)
        ensures
            v.buffer@.len() == 0,
            v.caret.row == 0 && v.caret.col == 0,
            v.scroll_offset.row == 0 && v.scroll_offset.col == 0,
            v.terminal_size.width == 0 && v.terminal_size.height == 0,
            v.needs_redraw == true,
            v.wf(),
    {
        EditorView {
            caret: Caret::default(),
            scroll_offset: Position::default(),
            buffer: Buffer::default(),
            needs_redraw: true,
            terminal_size: Size::default(),
        }
    }
}

impl EditorView {
    /// Replaces the document with the given line texts (plus the trailing
    /// empty row), clamping the caret into the new document.
    pub fn load(&mut self, file_lines: &Vec<String>)
        ensures
            final(self).wf(),
            loaded(*old(self), *final(self), file_lines.deep_view()),
    {
        proof {
            assert forall|i: int| 0 <= i < file_lines@.len() implies file_lines.deep_view()[i]
                == file_lines@[i]@ by {}
        }
        self.buffer = Buffer::load(file_lines);
        let nlines = self.buffer.lines.len();
        if self.caret.row >= nlines {
            self.caret.row = nlines - 1;
        }
        let line_len = self.caret_row_len();
        if self.caret.col > line_len {
            self.caret.col = line_len;
        }
        self.needs_redraw = true;
    }

    /// Dispatches one abstract command to the operation it names; `Quit`
    /// is the outer layer's business and leaves the session untouched.
    pub fn handle_command(&mut self, command: Command)
        requires
            old(self).wf(),
        ensures
            final(self).wf(),
            match command {
                Command::Move(d) => moved(*old(self), *final(self), d),
                Command::Insert(c) => inserted(*old(self), *final(self), c),
                Command::Remove => removed(*old(self), *final(self)),
                Command::Delete => deleted(*old(self), *final(self)),
                Command::Resize(new_size) => resized(*old(self), *final(self), new_size),
                Command::Quit => *final(self) == *old(self),
            },
    {
        match command {
            Command::Move(direction) => self.move_caret(&direction),
            Command::Resize(new_size) => self.terminal_resize(new_size),
            Command::Insert(inserted_char) => self.insert(inserted_char),
            Command::Delete => self.delete(),
            Command::Remove => self.remove(),
            Command::Quit => {},
        }
    }

    /// Moves the caret one step and brings it back into view.
    pub fn move_caret(&mut self, direction: &Direction)
        requires
            old(self).wf(),
        ensures
            final(self).wf(),
            moved(*old(self), *final(self), *direction),
    {
        if !self.buffer.is_empty() {
            self.caret.move_caret(direction, &self.buffer);
        }
        self.adjust_screen_to_offset();
    }

    /// Records a new terminal size and recomputes the scroll offset for
    /// the new extents.
    pub fn terminal_resize(&mut self, new_size: Size)
        requires
            old(self).wf(),
        ensures
            final(self).wf(),
            resized(*old(self), *final(self), new_size),
    {
        self.terminal_size = new_size;
        self.needs_redraw = true;
        self.adjust_screen_to_offset();
    }

    /// Inserts a character at the caret and advances the caret past it.
    pub fn insert(&mut self, inserted_char: char)
        requires
            old(self).wf(),
        ensures
            final(self).wf(),
            inserted(*old(self), *final(self), inserted_char),
    {
        if self.buffer.is_empty() {
            return;
        }
        self.buffer.insert(inserted_char, self.caret.row, self.caret.col);
        self.caret.move_caret(&Direction::Right, &self.buffer);
        self.adjust_screen_to_offset();
        self.needs_redraw = true;
    }

    /// Backspace: removes the cluster before the caret, or merges this
    /// row into the one above when the caret is at column 0.
    pub fn remove(&mut self)
        requires
            old(self).wf(),
        ensures
            final(self).wf(),
            removed(*old(self), *final(self)),
    {
        if self.buffer.is_empty() {
            return;
        }
        let row = self.caret.row;
        let col = self.caret.col;
        if col == 0 && row > 0 {
            self.caret.row = row - 1;
            self.caret.col = self.caret_row_len();
        } else if col > 0 {
            self.caret.col = col - 1;
        }
        self.buffer.remove(row, col);
        self.adjust_screen_to_offset();
        self.needs_redraw = true;
    }

    /// Forward-delete: removes the cluster at the caret, or merges the
    /// next row into this one when the caret is at end of line.
    pub fn delete(&mut self)
        requires
            old(self).wf(),
        ensures
            final(self).wf(),
            deleted(*old(self), *final(self)),
    {
        if self.buffer.is_empty() {
            return;
        }
        self.buffer.delete(self.caret.row, self.caret.col);
        self.adjust_screen_to_offset();
        self.needs_redraw = true;
    }

    /// The caret's place on screen: its rendered coordinate shifted by
    /// the scroll offset (saturating at the screen's edge).
    pub fn get_position(&self) -> (p: Position)
        requires
            self.wf(),
        ensures
            p.row == sat_sub(self.caret.row as int, self.scroll_offset.row as int),
            p.col == sat_sub(self.caret_cell_col(), self.scroll_offset.col as int),
    {
        let cell_col: usize;
        if self.buffer.is_empty() {
            cell_col = 0;
        } else {
            proof {
                assert(self.buffer@[self.caret.row as int]
                    == self.buffer.lines@[self.caret.row as int]@);
            }
            cell_col = self.buffer.lines[self.caret.row].get_nth_location(self.caret.col);
        }
        let document_position = Position { row: self.caret.row, col: cell_col };
        document_position.substract(&self.scroll_offset)
    }

    /// Produces the visible text of each screen row when a redraw is due,
    /// clearing the redraw flag; with nothing due it produces no rows and
    /// changes nothing.
    pub fn render(&mut self) -> (rows: Vec<String>)
        ensures
            final(self).caret == old(self).caret,
            final(self).buffer == old(self).buffer,
            final(self).scroll_offset == old(self).scroll_offset,
            final(self).terminal_size == old(self).terminal_size,
            final(self).needs_redraw == false,
            !old(self).needs_redraw ==> rows@.len() == 0,
            old(self).needs_redraw ==> rows@.len() == old(self).terminal_size.height,
            old(self).needs_redraw ==> forall|r: int|
                0 <= r < rows@.len() ==> rows@[r]@ == row_text(
                    old(self).buffer@,
                    old(self).scroll_offset,
                    old(self).terminal_size,
                    r,
                ),
    {
        if !self.needs_redraw {
            return Vec::new();
        }
        let mut rows: Vec<String> = Vec::new();
        let mut curr_row: usize = 0;
        while curr_row < self.terminal_size.height
            invariant
                curr_row <= self.terminal_size.height,
                rows@.len() == curr_row,
                forall|r: int|
                    0 <= r < curr_row ==> rows@[r]@ == row_text(
                        self.buffer@,
                        self.scroll_offset,
                        self.terminal_size,
                        r,
                    ),
            decreases self.terminal_size.height - curr_row,
        {
            let idx = curr_row.saturating_add(self.scroll_offset.row);
            if idx < self.buffer.lines.len() {
                proof {
                    assert(self.buffer@[idx as int] == self.buffer.lines@[idx as int]@);
                }
                let left = self.scroll_offset.col;
                let right = left.saturating_add(self.terminal_size.width);
                let truncated = self.buffer.lines[idx].get_visible_graphemes(left, right);
                rows.push(truncated);
            } else {
                let marker = String::from_str("~");
                proof {
                    reveal_strlit("~");
                    assert(marker@ =~= seq!['~']);
                }
                rows.push(marker);
            }
            curr_row += 1;
        }
        self.needs_redraw = false;
        rows
    }

    /// Recomputes the scroll offset so the caret stays on screen, setting
    /// the redraw flag whenever either axis moves.
    fn adjust_screen_to_offset(&mut self)
        requires
            old(self).wf(),
        ensures
            final(self).caret == old(self).caret,
            final(self).buffer == old(self).buffer,
            final(self).terminal_size == old(self).terminal_size,
            final(self).scroll_offset == adjusted_offsets(
                old(self).buffer@,
                old(self).caret,
                old(self).scroll_offset,
                old(self).terminal_size,
            ).0,
            final(self).needs_redraw == (old(self).needs_redraw || adjusted_offsets(
                old(self).buffer@,
                old(self).caret,
                old(self).scroll_offset,
                old(self).terminal_size,
            ).1),
    {
        let cell_col: usize;
        if self.buffer.is_empty() {
            cell_col = 0;
        } else {
            proof {
                assert(self.buffer@[self.caret.row as int]
                    == self.buffer.lines@[self.caret.row as int]@);
            }
            cell_col = self.buffer.lines[self.caret.row].get_nth_location(self.caret.col);
        }

        // Horizontal offset
        if cell_col < self.scroll_offset.col {
            self.scroll_offset.col = cell_col;
            self.needs_redraw = true;
        } else if cell_col >= self.scroll_offset.col.saturating_add(self.terminal_size.width) {
            self.scroll_offset.col = cell_col.saturating_sub(self.terminal_size.width)
                .saturating_add(1);
            self.needs_redraw = true;
        }

        // Vertical offset
        if self.caret.row < self.scroll_offset.row {
            self.scroll_offset.row = self.caret.row;
            self.needs_redraw = true;
        } else if self.caret.row >= self.scroll_offset.row.saturating_add(
            self.terminal_size.height,
        ) {
            self.scroll_offset.row = self.caret.row.saturating_sub(self.terminal_size.height)
                .saturating_add(1);
            self.needs_redraw = true;
        }
    }

    /// The cluster count of the row the caret is on.
    fn caret_row_len(&self) -> (n: usize)
        requires
            self.caret.row < self.buffer@.len(),
        ensures
            n == self.buffer@[self.caret.row as int].len(),
    {
        proof {
            assert(self.buffer@[self.caret.row as int]
                == self.buffer.lines@[self.caret.row as int]@);
        }
        self.buffer.lines[self.caret.row].len()
    }
}

} // verus!
