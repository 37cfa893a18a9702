use crate::grapheme::char_to_string;
use crate::grapheme::grapheme_of;
use crate::grapheme::glyph_of;
use crate::grapheme::sat_add;
use crate::grapheme::width_cells;
use crate::grapheme::GraphemeView;
use crate::grapheme::TextGrapheme;
use vstd::prelude::*;
use vstd::string::StringExecFns;

verus! {

/// The views of a row of graphemes, in document order.
pub open spec fn views_of(s: Seq<TextGrapheme>) -> Seq<GraphemeView> {
    s.map_values(|g: TextGrapheme| g@)
}

/// The grapheme records that a text without line breaks turns into: its
/// clusters, in order, each passed through `grapheme_of`.
pub open spec fn line_of(s: Seq<char>) -> Seq<GraphemeView> {
    graphemes_of(s).map_values(|cl: Seq<char>| grapheme_of(cl))
}

/// The grapheme clusters of a string, in order. Abstract name for the
/// segmentation that `unicode_segmentation` computes from the Unicode
/// UAX#29 rules.
pub uninterp spec fn graphemes_of(s: Seq<char>) -> Seq<Seq<char>>;

/// Relies on unicode_segmentation's `UnicodeSegmentation::graphemes` (with
/// extended clusters): it yields the string's grapheme clusters in order,
/// consecutive substrings whose concatenation is the whole string; an
/// empty string has no clusters.
#[verifier::external_body]
fn split_graphemes(s: &str) -> (r: Vec<String>)
    ensures
        r.deep_view() == graphemes_of(s@),
        r.deep_view().flatten() == s@,
        s@.len() == 0 ==> r@.len() == 0,
{
    unicode_segmentation::UnicodeSegmentation::graphemes(s, true)
        .map(|cluster| cluster.to_string())
        .collect()
}

/// Rendered width, in cells, of the first `n` clusters of a row, summed
/// left to right with saturation at `usize::MAX`.
pub open spec fn prefix_width(s: Seq<GraphemeView>, n: int) -> int
    decreases n,
{
    if n <= 0 {
        0
    } else {
        sat_add(prefix_width(s, n - 1), width_cells(s[n - 1].width))
    }
}

/// The rendered column of cluster index `col`: the total width of the
/// clusters before it, the index first clamped to the cluster count.
pub open spec fn nth_location(s: Seq<GraphemeView>, col: int) -> int {
    if col <= s.len() {
        prefix_width(s, col)
    } else {
        prefix_width(s, s.len() as int)
    }
}

/// The clipping marker shown in place of a cluster that straddles an edge
/// of the visible column range.
pub open spec fn ellipsis() -> Seq<char> {
    seq!['.', '.', '.']
}

/// The text contributed by a row's clusters when columns `[start, end)`
/// are visible and the first cluster starts at rendered column `pos`:
/// clusters wholly before `start` are skipped, a cluster straddling either
/// edge shows the clipping marker, and every other cluster that reaches
/// past `start` shows its glyph. The walk stops at column `end`.
pub open spec fn visible_from(s: Seq<GraphemeView>, pos: int, start: int, end: int) -> Seq<char>
    decreases s.len(),
{
    if s.len() == 0 {
        Seq::empty()
    } else if pos >= end {
        Seq::empty()
    } else {
        let gend = sat_add(pos, width_cells(s[0].width));
        let piece = if gend > start {
            if pos < start || gend > end {
                ellipsis()
            } else {
                glyph_of(s[0])
            }
        } else {
            Seq::empty()
        };
        piece + visible_from(s.skip(1), gend, start, end)
    }
}

/// The text of a row visible in rendered columns `[vstart, vend)`: empty
/// for an empty range, otherwise the walk over the clusters with the range
/// end clamped to the row's total width.
pub open spec fn visible_graphemes(s: Seq<GraphemeView>, vstart: int, vend: int) -> Seq<char> {
    if vstart >= vend {
        Seq::empty()
    } else {
        let total = prefix_width(s, s.len() as int);
        visible_from(s, 0, vstart, if vend <= total { vend } else { total })
    }
}

/// The full rendered form of a row: the glyph of every cluster, in
/// order — what the row shows when no column window clips it.
pub open spec fn rendered_text(s: Seq<GraphemeView>) -> Seq<char>
    decreases s.len(),
{
    if s.len() == 0 {
        Seq::empty()
    } else {
        glyph_of(s[0]) + rendered_text(s.skip(1))
    }
}

/// One document line: an ordered sequence of grapheme clusters. All
/// indexing is by cluster count or by rendered column, never by byte.
#[derive(Debug)]
pub struct Line {
    pub line_content: Vec<TextGrapheme>,
}

impl View for Line {
    type V = Seq<GraphemeView>;

    open spec fn view(&self) -> Seq<GraphemeView> {
        views_of(self.line_content@)
    }
}

/// A prefix width is a cell count: at least zero and, by saturation, at
/// most `usize::MAX`.
pub proof fn lemma_prefix_width_bounds(s: Seq<GraphemeView>, n: int)
    ensures
        0 <= prefix_width(s, n) <= usize::MAX,
    decreases n,
{
    if n > 0 {
        lemma_prefix_width_bounds(s, n - 1);
    }
}

/// Taking one more cluster never shrinks the prefix width.
pub proof fn lemma_prefix_width_step(s: Seq<GraphemeView>, n: int)
    requires
        n >= 1,
    ensures
        prefix_width(s, n - 1) <= prefix_width(s, n),
{
    lemma_prefix_width_bounds(s, n - 1);
}

/// Prefix widths are monotone in the number of clusters taken.
pub proof fn lemma_prefix_width_monotone(s: Seq<GraphemeView>, m: int, n: int)
    requires
        m <= n,
    ensures
        prefix_width(s, m) <= prefix_width(s, n),
    decreases n - m,
{
    if m < n && n >= 1 {
        lemma_prefix_width_monotone(s, m, n - 1);
        lemma_prefix_width_step(s, n);
    }
}

impl Line {
    /// Splits a text without line breaks into its grapheme clusters, in
    /// order, and builds the corresponding row.
    pub fn from(content: &str) -> (line: Self)
        ensures
            line@ == line_of(content@),
            content@.len() == 0 ==> line@.len() == 0,
    {
        let clusters = split_graphemes(content);
        let mut content_graphemes: Vec<TextGrapheme> = Vec::new();
        let mut i: usize = 0;
        while i < clusters.len()
            invariant
                i <= clusters@.len(),
                clusters.deep_view() == graphemes_of(content@),
                content_graphemes@.len() == i,
                forall|j: int|
                    0 <= j < i ==> content_graphemes@[j]@ == line_of(content@)[j],
            decreases clusters@.len() - i,
        {
            let g = TextGrapheme::new(clusters[i].as_str());
            proof {
                assert(clusters@[i as int]@ == clusters.deep_view()[i as int]);
                assert(line_of(content@)[i as int] == grapheme_of(graphemes_of(content@)[i as int]));
            }
            content_graphemes.push(g);
            i += 1;
        }
        let line = Line { line_content: content_graphemes };
        proof {
            assert(line@ =~= line_of(content@));
        }
        line
    }

    /// The number of grapheme clusters in this row.
    pub fn len(&self) -> (n: usize)
        ensures
            n == self@.len(),
    {
        self.line_content.len()
    }

    /// The rendered width of the whole row: the saturating sum of its
    /// clusters' cell widths.
    pub fn get_total_width(&self) -> (w: usize)
        ensures
            w == prefix_width(self@, self@.len() as int),
    {
        let mut total_length: usize = 0;
        let mut i: usize = 0;
        while i < self.line_content.len()
            invariant
                i <= self@.len(),
                self@.len() == self.line_content@.len(),
                total_length == prefix_width(self@, i as int),
            decreases self@.len() - i,
        {
            proof {
                assert(self@[i as int] == self.line_content@[i as int]@);
            }
            total_length = self.line_content[i].rendered_width.saturating_add(total_length);
            i += 1;
        }
        total_length
    }

    /// Converts a cluster index to its rendered column: the saturating sum
    /// of the widths of the first `min(col, len)` clusters.
    pub fn get_nth_location(&self, col: usize) -> (w: usize)
        ensures
            w == nth_location(self@, col as int),
    {
        let limit = if col <= self.line_content.len() {
            col
        } else {
            self.line_content.len()
        };
        let mut total_prev_width: usize = 0;
        let mut t: usize = 0;
        while t < limit
            invariant
                t <= limit,
                limit <= self@.len(),
                self@.len() == self.line_content@.len(),
                total_prev_width == prefix_width(self@, t as int),
            decreases limit - t,
        {
            proof {
                assert(self@[t as int] == self.line_content@[t as int]@);
            }
            total_prev_width = self.line_content[t].rendered_width.saturating_add(total_prev_width);
            t += 1;
        }
        total_prev_width
    }

    /// Renders the part of this row visible in rendered columns
    /// `[range_start, range_end)`, with the clipping marker for clusters
    /// that straddle either edge of the window.
    pub fn get_visible_graphemes(&self, range_start: usize, range_end: usize) -> (r: String)
        ensures
            r@ == visible_graphemes(self@, range_start as int, range_end as int),
    {
        let mut result_string = String::new();
        if range_start >= range_end {
            return result_string;
        }
        let total = self.get_total_width();
        let end = if range_end <= total {
            range_end
        } else {
            total
        };
        let ghost target = visible_graphemes(self@, range_start as int, range_end as int);
        proof {
            assert(target == visible_from(self@, 0, range_start as int, end as int));
            assert(self@.skip(0) =~= self@);
        }

        let mut screen_position: usize = 0;
        let mut idx: usize = 0;
        while idx < self.line_content.len() && screen_position < end
            invariant
                idx <= self@.len(),
                self@.len() == self.line_content@.len(),
                screen_position == prefix_width(self@, idx as int),
                range_start < range_end,
                end <= range_end,
                target == visible_graphemes(self@, range_start as int, range_end as int),
                result_string@ + visible_from(
                    self@.skip(idx as int),
                    screen_position as int,
                    range_start as int,
                    end as int,
                ) == target,
            decreases self@.len() - idx,
        {
            let ghost rest = self@.skip(idx as int);
            let ghost prev_result = result_string@;
            proof {
                assert(rest[0] == self@[idx as int]);
                assert(self@[idx as int] == self.line_content@[idx as int]@);
                assert(rest.skip(1) =~= self@.skip(idx as int + 1));
            }
            let grapheme = &self.line_content[idx];
            let grapheme_end = grapheme.rendered_width.saturating_add(screen_position);

            if grapheme_end > range_start {
                if screen_position < range_start || grapheme_end > end {
                    result_string.append("...");
                    proof {
                        reveal_strlit("...");
                        assert("..."@ =~= ellipsis());
                    }
                } else if let Some(replacement) = grapheme.replacement {
                    let replacement_string = char_to_string(replacement);
                    result_string.append(replacement_string.as_str());
                    proof {
                        assert(glyph_of(rest[0]) == seq![replacement]);
                    }
                } else {
                    result_string.append(grapheme.grapheme.as_str());
                    proof {
                        assert(glyph_of(rest[0]) == grapheme.grapheme@);
                    }
                }
            }
            proof {
                let emitted = if grapheme_end as int > range_start as int {
                    if (screen_position as int) < range_start as int || grapheme_end as int > end as int {
                        ellipsis()
                    } else {
                        glyph_of(rest[0])
                    }
                } else {
                    Seq::<char>::empty()
                };
                assert(result_string@ =~= prev_result + emitted);
                assert(visible_from(rest, screen_position as int, range_start as int, end as int)
                    == emitted + visible_from(
                    rest.skip(1),
                    grapheme_end as int,
                    range_start as int,
                    end as int,
                ));
                assert(prev_result + (emitted + visible_from(
                    self@.skip(idx as int + 1),
                    grapheme_end as int,
                    range_start as int,
                    end as int,
                )) =~= (prev_result + emitted) + visible_from(
                    self@.skip(idx as int + 1),
                    grapheme_end as int,
                    range_start as int,
                    end as int,
                ));
            }
            screen_position = grapheme_end;
            idx += 1;
        }
        proof {
            let rest = self@.skip(idx as int);
            if idx == self@.len() {
                assert(rest.len() == 0);
            }
            assert(visible_from(rest, screen_position as int, range_start as int, end as int)
                == Seq::<char>::empty());
            assert(result_string@ + Seq::<char>::empty() =~= result_string@);
        }
        result_string
    }

    /// Inserts the grapheme record for one character at a cluster index.
    pub fn insert_char(&mut self, inserted_char: char, line_insert_location: usize)
        requires
            line_insert_location <= old(self)@.len(),
        ensures
            final(self)@ == old(self)@.insert(
                line_insert_location as int,
                grapheme_of(seq![inserted_char]),
            ),
    {
        let cluster = char_to_string(inserted_char);
        let new_grapheme = TextGrapheme::new(cluster.as_str());
        self.line_content.insert(line_insert_location, new_grapheme);
        proof {
            assert(self@ =~= old(self)@.insert(
                line_insert_location as int,
                grapheme_of(seq![inserted_char]),
            ));
        }
    }

    /// Removes the cluster at a cluster index.
    pub fn remove_char(&mut self, line_remove_location: usize)
        requires
            line_remove_location < old(self)@.len(),
        ensures
            final(self)@ == old(self)@.remove(line_remove_location as int),
    {
        self.line_content.remove(line_remove_location);
        proof {
            assert(self@ =~= old(self)@.remove(line_remove_location as int));
        }
    }

    /// Moves every cluster of `other` onto the end of this row, leaving
    /// `other` empty; the primitive behind line merging.
    pub fn append(&mut self, other: &mut Line)
        ensures
            final(self)@ == old(self)@ + old(other)@,
            final(other)@ == Seq::<GraphemeView>::empty(),
    {
        self.line_content.append(&mut other.line_content);
        proof {
            assert(self@ =~= old(self)@ + old(other)@);
            assert(other@ =~= Seq::<GraphemeView>::empty());
        }
    }
}

} // verus!
