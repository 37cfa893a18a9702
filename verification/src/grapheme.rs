use vstd::prelude::*;
use vstd::string::StrSliceExecFns;
use vstd::string::StringExecFns;

verus! {

/// Rendered width of one grapheme cluster: one or two terminal cells.
#[derive(Debug, Clone, Copy, PartialEq, Eq, Structural)]
pub enum GraphemeWidth {
    Half,
    Full,
}

/// The number of terminal cells a cluster of the given width occupies.
pub open spec fn width_cells(w: GraphemeWidth) -> int {
    match w {
        GraphemeWidth::Half => 1,
        GraphemeWidth::Full => 2,
    }
}

/// `a + b`, stopping at `usize::MAX` instead of overflowing.
pub open spec fn sat_add(a: int, b: int) -> int {
    if a + b > usize::MAX {
        usize::MAX as int
    } else {
        a + b
    }
}

impl GraphemeWidth {
    /// Adds this width to a running cell count, stopping at `usize::MAX`.
    pub fn saturating_add(&self, other: usize) -> (r: usize)
        ensures
            r == sat_add(other as int, width_cells(*self)),
    {
        match self {
            GraphemeWidth::Full => other.saturating_add(2),
            GraphemeWidth::Half => other.saturating_add(1),
        }
    }
}

/// Display width of a string in terminal cells. Abstract name for what
/// `unicode_width` computes from the Unicode East-Asian-width tables.
pub uninterp spec fn display_width(s: Seq<char>) -> nat;

/// Relies on unicode_width's `UnicodeWidthStr::width`: the displayed width
/// in columns, a function of the characters alone.
#[verifier::external_body]
fn str_display_width(s: &str) -> (r: usize)
    ensures
        r as nat == display_width(s@),
{
    unicode_width::UnicodeWidthStr::width(s)
}

/// Relies on `String::from` for `char` (std): the string holding exactly
/// the one given character.
#[verifier::external_body]
pub(crate) fn char_to_string(c: char) -> (r: String)
    ensures
        r@ == seq![c],
{
    String::from(c)
}

/// The glyph shown for a cluster whose natural display width is zero, so
/// that every cluster occupies at least one cell.
pub const ZERO_WIDTH_PLACEHOLDER: char = '\u{00B7}';

/// One user-perceived character cluster together with its rendered width
/// and, for clusters of zero natural width, a visible replacement glyph.
///
/// Immutable once constructed; edits replace whole graphemes.
#[derive(Debug)]
pub struct TextGrapheme {
    pub grapheme: String,
    pub rendered_width: GraphemeWidth,
    pub replacement: Option<char>,
}

/// The mathematical image of a `TextGrapheme`.
pub ghost struct GraphemeView {
    pub cluster: Seq<char>,
    pub width: GraphemeWidth,
    pub replacement: Option<char>,
}

impl View for TextGrapheme {
    type V = GraphemeView;

    open spec fn view(&self) -> GraphemeView {
        GraphemeView {
            cluster: self.grapheme@,
            width: self.rendered_width,
            replacement: self.replacement,
        }
    }
}

/// The grapheme record built for one cluster: a tab is normalized to a
/// single space, a cluster measuring at least two cells is `Full`, and a
/// cluster of zero natural width keeps a placeholder glyph so that it
/// still occupies one cell on screen.
pub open spec fn grapheme_of(cluster: Seq<char>) -> GraphemeView {
    let normalized = if cluster == seq!['\t'] {
        seq![' ']
    } else {
        cluster
    };
    GraphemeView {
        cluster: normalized,
        width: if display_width(normalized) >= 2 {
            GraphemeWidth::Full
        } else {
            GraphemeWidth::Half
        },
        replacement: if display_width(normalized) == 0 {
            Some(ZERO_WIDTH_PLACEHOLDER)
        } else {
            None
        },
    }
}

/// What a grapheme contributes to rendered text: its replacement glyph if
/// it has one, otherwise its cluster.
pub open spec fn glyph_of(g: GraphemeView) -> Seq<char> {
    match g.replacement {
        Some(c) => seq![c],
        None => g.cluster,
    }
}

impl TextGrapheme {
    /// Builds the grapheme record for one cluster; a pure function of its
    /// input, with no error cases.
    pub fn new(grapheme: &str) -> (g: Self)
        ensures
            g@ == grapheme_of(grapheme@),
    {
        let is_tab = grapheme.unicode_len() == 1 && grapheme.get_char(0) == '\t';
        proof {
            reveal_strlit(" ");
            assert(" "@ =~= seq![' ']);
            if is_tab {
                assert(grapheme@ =~= seq!['\t']);
            } else {
                assert(grapheme@ != seq!['\t']) by {
                    if grapheme@ == seq!['\t'] {
                        assert(grapheme@.len() == 1);
                        assert(grapheme@[0] == '\t');
                    }
                }
            }
        }
        let cluster: String = if is_tab {
            String::from_str(" ")
        } else {
            grapheme.to_owned()
        };
        proof {
            assert(cluster@ == grapheme_of(grapheme@).cluster);
        }
        let width = str_display_width(cluster.as_str());

        TextGrapheme {
            grapheme: cluster,
            rendered_width: if width >= 2 {
                GraphemeWidth::Full
            } else {
                GraphemeWidth::Half
            },
            replacement: if width == 0 {
                Some(ZERO_WIDTH_PLACEHOLDER)
            } else {
                None
            },
        }
    }
}

} // verus!
