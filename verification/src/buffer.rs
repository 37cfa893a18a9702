use crate::grapheme::grapheme_of;
use crate::grapheme::GraphemeView;
use crate::line::line_of;
use crate::line::Line;
use vstd::prelude::*;

verus! {

/// The views of a document's rows, in order.
pub open spec fn rows_of(s: Seq<Line>) -> Seq<Seq<GraphemeView>> {
    s.map_values(|l: Line| l@)
}

/// The document after the two rows at `row` and `row + 1` merge: the lower
/// row takes the upper row's clusters and the upper row disappears, so no
/// row is duplicated or skipped.
pub open spec fn merged_rows(b: Seq<Seq<GraphemeView>>, row: int) -> Seq<Seq<GraphemeView>> {
    b.update(row, b[row] + b[row + 1]).remove(row + 1)
}

/// The whole document: an ordered sequence of lines, the index being the
/// row number. After a load it always carries one trailing empty line, so
/// the caret keeps a final insertable position.
pub struct Buffer {
    pub lines: Vec<Line>,
}

impl View for Buffer {
    type V = Seq<Seq<GraphemeView>>;

    open spec fn view(&self) -> Seq<Seq<GraphemeView>> {
        rows_of(self.lines@)
    }
}

impl Default for Buffer {
    /// The pre-load state: a document with no lines at all.
    fn default() -> (b: Self)
        ensures
            b@.len() == 0,
    {
        Buffer { lines: Vec::new() }
    }
}

impl Buffer {
    /// Builds the document for a file read as the given line texts: one
    /// row per text, in order, plus one trailing empty row.
    pub fn load(file_lines: &Vec<String>) -> (b: Self)
        ensures
            b@.len() == file_lines@.len() + 1,
            forall|i: int|
                0 <= i < file_lines@.len() ==> b@[i] == line_of(file_lines@[i]@),
            b@[file_lines@.len() as int] == line_of(Seq::<char>::empty()),
            b@[file_lines@.len() as int].len() == 0,
    {
        let mut lines: Vec<Line> = Vec::new();
        let mut i: usize = 0;
        while i < file_lines.len()
            invariant
                i <= file_lines@.len(),
                lines@.len() == i,
                forall|j: int| 0 <= j < i ==> lines@[j]@ == line_of(file_lines@[j]@),
            decreases file_lines@.len() - i,
        {
            lines.push(Line::from(file_lines[i].as_str()));
            i += 1;
        }
        lines.push(Line::from(""));
        let b = Buffer { lines };
        proof {
            reveal_strlit("");
            assert(""@ =~= Seq::<char>::empty());
            assert forall|k: int| 0 <= k < b@.len() implies b@[k] == b.lines@[k]@ by {}
        }
        b
    }

    /// True only for the pre-load state, when no line exists at all.
    pub fn is_empty(&self) -> (r: bool)
        ensures
            r == (self@.len() == 0),
    {
        self.lines.len() == 0
    }

    /// Appends row `current_row_index + 1` onto row `current_row_index`
    /// and removes the emptied successor row; a no-op when no successor
    /// exists. The one place where the line count shrinks.
    pub fn merge_next_line(&mut self, current_row_index: usize)
        ensures
            current_row_index + 1 < old(self)@.len() ==> final(self)@ == merged_rows(
                old(self)@,
                current_row_index as int,
            ),
            current_row_index + 1 >= old(self)@.len() ==> final(self)@ == old(self)@,
    {
        if current_row_index.saturating_add(1) >= self.lines.len() {
            return;
        }

        let mut next_row = self.lines.remove(current_row_index + 1);
        let current_row = &mut self.lines[current_row_index];
        current_row.append(&mut next_row);
        proof {
            assert(self@ =~= merged_rows(old(self)@, current_row_index as int));
        }
    }

    /// Inserts one character's grapheme at `(insert_row,
    /// line_insert_location)`; index validity is the caller's burden.
    pub fn insert(&mut self, inserted_char: char, insert_row: usize, line_insert_location: usize)
        requires
            insert_row < old(self)@.len(),
            line_insert_location <= old(self)@[insert_row as int].len(),
        ensures
            final(self)@ == old(self)@.update(
                insert_row as int,
                old(self)@[insert_row as int].insert(
                    line_insert_location as int,
                    grapheme_of(seq![inserted_char]),
                ),
            ),
    {
        let line = &mut self.lines[insert_row];
        line.insert_char(inserted_char, line_insert_location);
        proof {
            assert(self@ =~= old(self)@.update(
                insert_row as int,
                old(self)@[insert_row as int].insert(
                    line_insert_location as int,
                    grapheme_of(seq![inserted_char]),
                ),
            ));
        }
    }

    /// Backspace semantics at `(remove_row, line_remove_location)`: at
    /// column 0 the row merges into the one above it (a no-op on row 0);
    /// otherwise the cluster just before the column disappears.
    pub fn remove(&mut self, remove_row: usize, line_remove_location: usize)
        requires
            remove_row < old(self)@.len(),
            line_remove_location <= old(self)@[remove_row as int].len(),
        ensures
            line_remove_location == 0 && remove_row == 0 ==> final(self)@ == old(self)@,
            line_remove_location == 0 && remove_row > 0 ==> final(self)@ == merged_rows(
                old(self)@,
                remove_row - 1,
            ),
            line_remove_location > 0 ==> final(self)@ == old(self)@.update(
                remove_row as int,
                old(self)@[remove_row as int].remove(line_remove_location - 1),
            ),
    {
        if line_remove_location == 0 {
            if remove_row > 0 {
                self.merge_next_line(remove_row - 1);
            }
            return;
        }

        let line = &mut self.lines[remove_row];
        line.remove_char(line_remove_location - 1);
        proof {
            assert(self@ =~= old(self)@.update(
                remove_row as int,
                old(self)@[remove_row as int].remove(line_remove_location - 1),
            ));
        }
    }

    /// Forward-delete semantics at `(remove_row, line_delete_location)`:
    /// at end of line the next row merges into this one (a no-op on the
    /// last row); otherwise the cluster at the column disappears.
    pub fn delete(&mut self, remove_row: usize, line_delete_location: usize)
        requires
            remove_row < old(self)@.len(),
            line_delete_location <= old(self)@[remove_row as int].len(),
        ensures
            line_delete_location == old(self)@[remove_row as int].len() && remove_row + 1 < old(
                self,
            )@.len() ==> final(self)@ == merged_rows(old(self)@, remove_row as int),
            line_delete_location == old(self)@[remove_row as int].len() && remove_row + 1 >= old(
                self,
            )@.len() ==> final(self)@ == old(self)@,
            line_delete_location < old(self)@[remove_row as int].len() ==> final(self)@ == old(
                self,
            )@.update(
                remove_row as int,
                old(self)@[remove_row as int].remove(line_delete_location as int),
            ),
    {
        if line_delete_location == self.lines[remove_row].len() {
            if remove_row.saturating_add(1) < self.lines.len() {
                self.merge_next_line(remove_row);
            }
            return;
        }

        let line = &mut self.lines[remove_row];
        line.remove_char(line_delete_location);
        proof {
            assert(self@ =~= old(self)@.update(
                remove_row as int,
                old(self)@[remove_row as int].remove(line_delete_location as int),
            ));
        }
    }
}

} // verus!
