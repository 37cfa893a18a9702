use crate::caret::caret_valid;
use crate::caret::lemma_move_target_valid;
use crate::caret::move_target;
use crate::command::Direction;
use crate::grapheme::glyph_of;
use crate::grapheme::width_cells;
use crate::grapheme::GraphemeView;
use crate::line::line_of;
use crate::line::lemma_prefix_width_monotone;
use crate::line::nth_location;
use crate::line::prefix_width;
use crate::line::rendered_text;
use crate::line::visible_from;
use crate::line::visible_graphemes;
use vstd::prelude::*;

verus! {

/// Rendered width of the first `n` clusters without saturation: the
/// mathematical sum that `prefix_width` caps at `usize::MAX`.
pub open spec fn raw_prefix_width(s: Seq<GraphemeView>, n: int) -> int
    decreases n,
{
    if n <= 0 {
        0
    } else {
        raw_prefix_width(s, n - 1) + width_cells(s[n - 1].width)
    }
}

/// An uncapped prefix width counts at least one cell per cluster taken.
pub proof fn lemma_raw_prefix_width_lower_bound(s: Seq<GraphemeView>, n: int)
    ensures
        raw_prefix_width(s, n) >= n,
        raw_prefix_width(s, n) >= 0,
    decreases n,
{
    if n > 0 {
        lemma_raw_prefix_width_lower_bound(s, n - 1);
    }
}

/// An uncapped prefix width decomposes at the front: the first cluster's
/// cells plus the widths of the rest.
pub proof fn lemma_raw_prefix_width_front(s: Seq<GraphemeView>, n: int)
    requires
        1 <= n <= s.len(),
    ensures
        raw_prefix_width(s, n) == width_cells(s[0].width) + raw_prefix_width(s.skip(1), n - 1),
    decreases n,
{
    if n == 1 {
        assert(raw_prefix_width(s, 0) == 0);
        assert(raw_prefix_width(s.skip(1), 0) == 0);
    } else {
        lemma_raw_prefix_width_front(s, n - 1);
        assert(s.skip(1)[n - 2] == s[n - 1]);
        assert(raw_prefix_width(s.skip(1), n - 1) == raw_prefix_width(s.skip(1), n - 2)
            + width_cells(s.skip(1)[n - 2].width));
    }
}

/// While the mathematical sum fits in `usize`, the saturating prefix
/// width equals it exactly.
pub proof fn lemma_prefix_width_exact(s: Seq<GraphemeView>, n: int)
    requires
        raw_prefix_width(s, n) <= usize::MAX,
    ensures
        prefix_width(s, n) == raw_prefix_width(s, n),
    decreases n,
{
    if n > 0 {
        lemma_prefix_width_exact(s, n - 1);
    }
}

/// A cluster walk over a window that starts at or before the walk's
/// first cell and reaches past its last cell emits every glyph: no
/// cluster is skipped and none straddles an edge.
proof fn lemma_visible_from_shows_all(s: Seq<GraphemeView>, pos: int, end: int)
    requires
        0 <= pos,
        pos + raw_prefix_width(s, s.len() as int) <= end,
        end <= usize::MAX,
    ensures
        visible_from(s, pos, 0, end) == rendered_text(s),
    decreases s.len(),
{
    if s.len() > 0 {
        lemma_raw_prefix_width_front(s, s.len() as int);
        lemma_raw_prefix_width_lower_bound(s.skip(1), s.len() - 1);
        let w = width_cells(s[0].width);
        assert(pos + w <= end);
        lemma_visible_from_shows_all(s.skip(1), pos + w, end);
    }
}

/// A line rebuilt from any text renders, over any window that starts at
/// column 0 and covers its full width, the glyph of every cluster in
/// order: tabs as a single space, zero-width clusters as the placeholder
/// glyph, everything else as itself. `Line::from` gives a line the view
/// `line_of(text)`, so together with `get_visible_graphemes` this is the
/// full-width round trip, stated for every line whose mathematical width
/// fits the machine.
pub proof fn lemma_full_range_renders_line(s: Seq<GraphemeView>, end: int)
    requires
        raw_prefix_width(s, s.len() as int) <= end,
        end <= usize::MAX,
    ensures
        visible_graphemes(s, 0, end) == rendered_text(s),
{
    lemma_raw_prefix_width_lower_bound(s, s.len() as int);
    lemma_prefix_width_exact(s, s.len() as int);
    if 0 >= end {
        assert(raw_prefix_width(s, s.len() as int) == 0);
        assert(s.len() == 0);
    } else {
        lemma_visible_from_shows_all(s, 0, prefix_width(s, s.len() as int));
    }
}

/// The string-level reading: a line built from the text `s` shows, over
/// its full width, exactly the rendered form of `s`'s clusters.
pub proof fn lemma_line_round_trip(s: Seq<char>, end: int)
    requires
        raw_prefix_width(line_of(s), line_of(s).len() as int) <= end,
        end <= usize::MAX,
    ensures
        visible_graphemes(line_of(s), 0, end) == rendered_text(line_of(s)),
{
    lemma_full_range_renders_line(line_of(s), end);
}

/// Converting cluster indices to rendered columns is monotone: a cluster
/// further right on the line never sits at an earlier column.
pub proof fn lemma_nth_location_monotone(s: Seq<GraphemeView>, c1: int, c2: int)
    requires
        0 <= c1 <= c2,
    ensures
        nth_location(s, c1) <= nth_location(s, c2),
{
    let len = s.len() as int;
    let m1 = if c1 <= len {
        c1
    } else {
        len
    };
    let m2 = if c2 <= len {
        c2
    } else {
        len
    };
    lemma_prefix_width_monotone(s, m1, m2);
}

/// Inserting a grapheme at a cluster index and then removing the cluster
/// at that same index restores the line exactly; with the contracts of
/// `Line::insert_char` and `Line::remove_char` this makes the pair
/// idempotent on a line's content.
pub proof fn lemma_insert_then_remove(s: Seq<GraphemeView>, i: int, g: GraphemeView)
    requires
        0 <= i <= s.len(),
    ensures
        s.insert(i, g).remove(i) == s,
{
    assert(s.insert(i, g).remove(i) =~= s);
}

/// Where a sequence of directional moves leaves a caret that starts at
/// `(row, col)`.
pub open spec fn move_path(
    lines: Seq<Seq<GraphemeView>>,
    row: int,
    col: int,
    ds: Seq<Direction>,
) -> (int, int)
    decreases ds.len(),
{
    if ds.len() == 0 {
        (row, col)
    } else {
        let t = move_target(lines, row, col, ds[0]);
        move_path(lines, t.0, t.1, ds.skip(1))
    }
}

/// No sequence of directional moves can take a valid caret out of the
/// document: the row always stays below the line count and the column at
/// most the row's cluster count.
pub proof fn lemma_moves_stay_valid(
    lines: Seq<Seq<GraphemeView>>,
    row: int,
    col: int,
    ds: Seq<Direction>,
)
    requires
        caret_valid(lines, row, col),
    ensures
        caret_valid(lines, move_path(lines, row, col, ds).0, move_path(lines, row, col, ds).1),
    decreases ds.len(),
{
    if ds.len() > 0 {
        lemma_move_target_valid(lines, row, col, ds[0]);
        let t = move_target(lines, row, col, ds[0]);
        lemma_moves_stay_valid(lines, t.0, t.1, ds.skip(1));
    }
}

} // verus!
