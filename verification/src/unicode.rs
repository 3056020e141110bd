//! The Unicode facts that the library takes from outside: grapheme cluster
//! boundaries, display widths and character classes.
//!
//! None of these is proved here. Each is a function of its argument alone, so
//! its result has a name that the contracts of the library can speak of.

use vstd::prelude::*;

verus! {

/// The extended grapheme clusters of `text` in reading order, as
/// `unicode_segmentation::UnicodeSegmentation::graphemes` yields them.
pub uninterp spec fn grapheme_clusters(text: Seq<char>) -> Seq<Seq<char>>;

/// The number of terminal columns that `text` takes according to
/// `unicode_width::UnicodeWidthStr::width`.
pub uninterp spec fn display_width(text: Seq<char>) -> usize;

/// Whether `c` has the Unicode property White_Space, as `char::is_whitespace`
/// tells.
pub uninterp spec fn white_space(c: char) -> bool;

/// Whether `c` is a control code, as `char::is_control` tells.
pub uninterp spec fn control_code(c: char) -> bool;

/// The texts of a sequence of strings.
pub open spec fn texts(strings: Seq<String>) -> Seq<Seq<char>> {
    strings.map_values(|s: String| s@)
}

/// The clusters that `text` is cut into: its grapheme clusters. They are
/// pieces of the text that lie end to end in it, as `graphemes` states of
/// every call. Should the name give anything else for a text, that text
/// counts as one cluster: so the clusters of every text join to the text,
/// also of one that has never been cut.
pub open spec fn segmentation(text: Seq<char>) -> Seq<Seq<char>> {
    if grapheme_clusters(text).flatten() == text {
        grapheme_clusters(text)
    } else {
        seq![text]
    }
}

/// Joining the clusters of a text gives the text back.
pub proof fn lemma_segmentation_joins(text: Seq<char>)
    ensures
        segmentation(text).flatten() == text,
{
    if grapheme_clusters(text).flatten() != text {
        seq![text].lemma_flatten_singleton();
    }
}

/// Calls `unicode_segmentation::UnicodeSegmentation::graphemes` for extended
/// clusters and collects what it yields. The iterator hands out consecutive
/// slices of its input, from the first byte to the last, so the slices joined
/// are the input; which slices they are is left to `grapheme_clusters`.
#[verifier::external_body]
pub(crate) fn graphemes(text: &str) -> (clusters: Vec<String>)
    ensures
        texts(clusters@) == grapheme_clusters(text@),
        texts(clusters@).flatten() == text@,
{
    unicode_segmentation::UnicodeSegmentation::graphemes(text, true).map(String::from).collect()
}

/// Calls `unicode_width::UnicodeWidthStr::width`, which counts the columns
/// of `text` by the crate's tables. The count depends on the text alone and
/// goes by the name `display_width`.
#[verifier::external_body]
pub(crate) fn width(text: &str) -> (columns: usize)
    ensures
        columns == display_width(text@),
{
    unicode_width::UnicodeWidthStr::width(text)
}

/// `char::is_whitespace` tells whether `c` has the property White_Space; its
/// answer goes by the name `white_space`.
pub assume_specification[ char::is_whitespace ](c: char) -> (b: bool)
    ensures
        b == white_space(c),
;

/// `char::is_control` tells whether `c` has the general category of control
/// codes; its answer goes by the name `control_code`.
pub assume_specification[ char::is_control ](c: char) -> (b: bool)
    ensures
        b == control_code(c),
;

/// `String::push` appends one character to the string.
pub assume_specification[ String::push ](s: &mut String, c: char)
    ensures
        final(s)@ == old(s)@.push(c),
;

} // verus!
