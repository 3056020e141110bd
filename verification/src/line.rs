//! One line of text as a sequence of grapheme clusters with their display
//! metadata.

use crate::unicode::{
    control_code, display_width, graphemes, segmentation, texts, white_space, width,
};
use std::ops::Range;
use vstd::prelude::*;

verus! {

/// Shown in place of a tab.
pub const TAB_GLYPH: char = ' ';

/// Shown in place of a blank cluster that takes room, other than a space.
pub const SPACE_MARKER: char = '\u{2423}';

/// Shown in place of a single control character.
pub const CONTROL_MARKER: char = '\u{25AF}';

/// Shown in place of any other cluster without width.
pub const DOT_MARKER: char = '\u{00B7}';

/// Shown in place of a wide cluster that the window cuts in two.
pub const ELLIPSIS: char = '\u{22EF}';

/// The number of terminal columns that a cluster takes.
#[derive(Clone, Copy, PartialEq, Eq, Structural, Debug)]
pub enum GraphemeWidth {
    Half,
    Full,
}

impl GraphemeWidth {
    /// The width as a number of columns.
    pub open spec fn columns(self) -> int {
        match self {
            GraphemeWidth::Half => 1,
            GraphemeWidth::Full => 2,
        }
    }

    /// Adds the width to a column, stopping at the largest `usize`.
    pub fn saturating_add(self, other: usize) -> (sum: usize)
        ensures
            sum == if other + self.columns() > usize::MAX {
                usize::MAX as int
            } else {
                other + self.columns()
            },
    {
        match self {
            GraphemeWidth::Full => other.saturating_add(2),
            GraphemeWidth::Half => other.saturating_add(1),
        }
    }
}

/// What a line knows of one grapheme cluster.
pub struct Fragment {
    /// The code points of the cluster.
    pub text: Seq<char>,
    /// The columns that the cluster takes on screen.
    pub width: GraphemeWidth,
    /// The glyph drawn in place of the text, if any.
    pub replacement: Option<char>,
}

/// Whether every character of `text` is white space.
pub open spec fn is_blank(text: Seq<char>) -> bool {
    forall|i: int| 0 <= i < text.len() ==> white_space(#[trigger] text[i])
}

/// Whether `text` is a single control character.
pub open spec fn is_lone_control(text: Seq<char>) -> bool {
    text.len() == 1 && control_code(text[0])
}

/// The glyph that stands in for a cluster on screen, given the columns that
/// the cluster takes, whether it is blank and whether it is a lone control
/// character: none for a space and for printable text, a fixed marker for a
/// tab, for other blanks that take room, for a lone control character
/// without width and for any other cluster without width.
pub open spec fn replacement_given(
    text: Seq<char>,
    columns: usize,
    blank: bool,
    control: bool,
) -> Option<char> {
    if text == seq![' '] {
        None
    } else if text == seq!['\t'] {
        Some(TAB_GLYPH)
    } else if columns > 0 && blank {
        Some(SPACE_MARKER)
    } else if columns == 0 {
        if control {
            Some(CONTROL_MARKER)
        } else {
            Some(DOT_MARKER)
        }
    } else {
        None
    }
}

/// The width a cluster is drawn with, given the columns that it takes and
/// the glyph that replaces it: one column for a replaced cluster and for
/// text of up to one column, two columns for anything wider.
pub open spec fn width_given(columns: usize, replacement: Option<char>) -> GraphemeWidth {
    if replacement is Some || columns <= 1 {
        GraphemeWidth::Half
    } else {
        GraphemeWidth::Full
    }
}

/// The glyph that stands in for a cluster on screen, if any.
pub open spec fn replacement_of(text: Seq<char>) -> Option<char> {
    replacement_given(text, display_width(text), is_blank(text), is_lone_control(text))
}

/// The width a cluster is drawn with.
pub open spec fn width_of(text: Seq<char>) -> GraphemeWidth {
    width_given(display_width(text), replacement_of(text))
}

/// The fragment that a cluster becomes.
pub open spec fn fragment_of(text: Seq<char>) -> Fragment {
    Fragment { text, width: width_of(text), replacement: replacement_of(text) }
}

/// The fragments that a text is cut into, one for each of its clusters.
pub open spec fn fragments_of(text: Seq<char>) -> Seq<Fragment> {
    segmentation(text).map_values(|cluster: Seq<char>| fragment_of(cluster))
}

/// Whether every fragment is what its own text makes it: no width and no
/// replacement glyph that the text would not get.
pub open spec fn is_classified(fragments: Seq<Fragment>) -> bool {
    forall|i: int|
        0 <= i < fragments.len() ==> #[trigger] fragments[i] == fragment_of(fragments[i].text)
}

/// The texts of the fragments joined in order: the canonical text of a line.
pub open spec fn text_of(fragments: Seq<Fragment>) -> Seq<char>
    decreases fragments.len(),
{
    if fragments.len() == 0 {
        Seq::empty()
    } else {
        text_of(fragments.drop_last()) + fragments.last().text
    }
}

/// The columns that the first `k` fragments take together.
pub open spec fn columns_until(fragments: Seq<Fragment>, k: int) -> int
    decreases k,
{
    if k <= 0 {
        0
    } else {
        columns_until(fragments, k - 1) + fragments[k - 1].width.columns()
    }
}

/// The columns that all fragments take together.
pub open spec fn total_columns(fragments: Seq<Fragment>) -> int
    decreases fragments.len(),
{
    if fragments.len() == 0 {
        0
    } else {
        total_columns(fragments.drop_last()) + fragments.last().width.columns()
    }
}

/// The text of a line once `c` stands before cluster `at`, or after the last
/// cluster where `at` lies past the line's end.
pub open spec fn text_with(fragments: Seq<Fragment>, c: char, at: int) -> Seq<char> {
    let k = if at < fragments.len() {
        at
    } else {
        fragments.len() as int
    };
    text_of(fragments.take(k)) + seq![c] + text_of(fragments.skip(k))
}

/// The line after `c` has been inserted at `at`: its text with `c` in it,
/// cut into clusters anew.
pub open spec fn inserted(fragments: Seq<Fragment>, c: char, at: int) -> Seq<Fragment> {
    fragments_of(text_with(fragments, c, at))
}

/// The line after cluster `at` has been deleted: the remaining text cut into
/// clusters anew, or the line as it was where it has no cluster `at`.
pub open spec fn deleted(fragments: Seq<Fragment>, at: int) -> Seq<Fragment> {
    if 0 <= at < fragments.len() {
        fragments_of(text_of(fragments.remove(at)))
    } else {
        fragments
    }
}

/// The line after `other` has been appended: both texts joined and cut into
/// clusters anew.
pub open spec fn appended(fragments: Seq<Fragment>, other: Seq<Fragment>) -> Seq<Fragment> {
    fragments_of(text_of(fragments) + text_of(other))
}

/// What stays of a line that is split at `at`: the clusters before `at`, or
/// the whole line where `at` lies past its end.
pub open spec fn split_head(fragments: Seq<Fragment>, at: int) -> Seq<Fragment> {
    if 0 <= at <= fragments.len() {
        fragments.take(at)
    } else {
        fragments
    }
}

/// What leaves a line that is split at `at`: the clusters from `at` on, or
/// nothing where `at` lies past its end.
pub open spec fn split_tail(fragments: Seq<Fragment>, at: int) -> Seq<Fragment> {
    if 0 <= at <= fragments.len() {
        fragments.skip(at)
    } else {
        Seq::empty()
    }
}

/// What is drawn in the place of a cluster.
pub enum Drawn {
    /// Nothing: the cluster lies outside the window.
    Nothing,
    /// An ellipsis: an edge of the window cuts the cluster in two.
    Ellipsis,
    /// The glyph that replaces the cluster.
    Glyph(char),
    /// The text of the cluster, which takes the columns of its width.
    Text(Seq<char>, GraphemeWidth),
}

impl Drawn {
    /// The characters that are printed.
    pub open spec fn text(self) -> Seq<char> {
        match self {
            Drawn::Nothing => Seq::empty(),
            Drawn::Ellipsis => seq![ELLIPSIS],
            Drawn::Glyph(glyph) => seq![glyph],
            Drawn::Text(text, _) => text,
        }
    }

    /// The columns that they take: one for an ellipsis and for a glyph, the
    /// width of the cluster for its text.
    pub open spec fn columns(self) -> int {
        match self {
            Drawn::Nothing => 0,
            Drawn::Ellipsis => 1,
            Drawn::Glyph(_) => 1,
            Drawn::Text(_, width) => width.columns(),
        }
    }
}

/// What is drawn for cluster `i` of a line in the window of the columns from
/// `start` up to `end`: nothing where the cluster lies outside, an ellipsis
/// where an edge of the window cuts it, else its replacement glyph or its
/// text.
pub open spec fn drawn(fragments: Seq<Fragment>, i: int, start: int, end: int) -> Drawn {
    let left = columns_until(fragments, i);
    let right = left + fragments[i].width.columns();
    if start >= end || right <= start || end <= left {
        Drawn::Nothing
    } else if left < start || end < right {
        Drawn::Ellipsis
    } else {
        match fragments[i].replacement {
            Some(glyph) => Drawn::Glyph(glyph),
            None => Drawn::Text(fragments[i].text, fragments[i].width),
        }
    }
}

/// The characters printed for the first `k` clusters of a line.
pub open spec fn shown_until(fragments: Seq<Fragment>, k: int, start: int, end: int) -> Seq<char>
    decreases k,
{
    if k <= 0 {
        Seq::empty()
    } else {
        shown_until(fragments, k - 1, start, end) + drawn(fragments, k - 1, start, end).text()
    }
}

/// The text to print for a line in the window of the columns from `start` up
/// to `end`.
pub open spec fn visible_text(fragments: Seq<Fragment>, start: int, end: int) -> Seq<char> {
    shown_until(fragments, fragments.len() as int, start, end)
}

/// The columns that what is printed for the first `k` clusters takes.
pub open spec fn shown_columns_until(fragments: Seq<Fragment>, k: int, start: int, end: int) -> int
    decreases k,
{
    if k <= 0 {
        0
    } else {
        shown_columns_until(fragments, k - 1, start, end) + drawn(
            fragments,
            k - 1,
            start,
            end,
        ).columns()
    }
}

/// The columns that `visible_text` takes on screen.
pub open spec fn visible_columns(fragments: Seq<Fragment>, start: int, end: int) -> int {
    shown_columns_until(fragments, fragments.len() as int, start, end)
}

/// One grapheme cluster of a line with what is needed to draw it.
pub struct TextFragment {
    grapheme: String,
    rendered_width: GraphemeWidth,
    replacement: Option<char>,
}

impl View for TextFragment {
    type V = Fragment;

    closed spec fn view(&self) -> Fragment {
        Fragment {
            text: self.grapheme@,
            width: self.rendered_width,
            replacement: self.replacement,
        }
    }
}

/// The fragments that a vector of them stands for.
pub closed spec fn views(fragments: Seq<TextFragment>) -> Seq<Fragment> {
    fragments.map_values(|f: TextFragment| f@)
}

/// A line of text: its grapheme clusters from left to right.
pub struct Line {
    fragments: Vec<TextFragment>,
}

impl View for Line {
    type V = Seq<Fragment>;

    closed spec fn view(&self) -> Seq<Fragment> {
        views(self.fragments@)
    }
}

/// Whether `text` is made of white space alone.
fn blank(text: &str) -> (b: bool)
    ensures
        b == is_blank(text@),
{
    let n = text.unicode_len();
    let mut i: usize = 0;
    while i < n
        invariant
            n == text@.len(),
            i <= n,
            forall|j: int| 0 <= j < i ==> white_space(#[trigger] text@[j]),
        decreases n - i,
    {
        if !text.get_char(i).is_whitespace() {
            return false;
        }
        i += 1;
    }
    true
}

/// A column count as a `usize` holds it: capped at the largest one.
pub open spec fn saturate(columns: int) -> int {
    if columns > usize::MAX {
        usize::MAX as int
    } else {
        columns
    }
}

/// A fragment list that grows by one: its text grows by that fragment's.
pub proof fn lemma_text_of_push(fragments: Seq<Fragment>, fragment: Fragment)
    ensures
        text_of(fragments.push(fragment)) == text_of(fragments) + fragment.text,
{
    assert(fragments.push(fragment).drop_last() =~= fragments);
}

/// The text of two fragment lists laid end to end is their texts laid end to
/// end.
pub proof fn lemma_text_of_concat(a: Seq<Fragment>, b: Seq<Fragment>)
    ensures
        text_of(a + b) == text_of(a) + text_of(b),
    decreases b.len(),
{
    if b.len() > 0 {
        lemma_text_of_concat(a, b.drop_last());
        assert((a + b).drop_last() =~= a + b.drop_last());
    }
}

/// The fragments of a text carry the text: joined, they give it back.
pub proof fn lemma_text_of_fragments_of(text: Seq<char>)
    ensures
        text_of(fragments_of(text)) == text,
{
    crate::unicode::lemma_segmentation_joins(text);
    lemma_text_of_map(segmentation(text));
}

/// Turning clusters into fragments keeps their texts.
proof fn lemma_text_of_map(clusters: Seq<Seq<char>>)
    ensures
        text_of(clusters.map_values(|cluster: Seq<char>| fragment_of(cluster)))
            == clusters.flatten(),
    decreases clusters.len(),
{
    let mapped = clusters.map_values(|cluster: Seq<char>| fragment_of(cluster));
    clusters.lemma_flatten_and_flatten_alt_are_equivalent();
    if clusters.len() > 0 {
        lemma_text_of_map(clusters.drop_last());
        clusters.drop_last().lemma_flatten_and_flatten_alt_are_equivalent();
        assert(mapped.drop_last() =~= clusters.drop_last().map_values(
            |cluster: Seq<char>| fragment_of(cluster),
        ));
    }
}

/// Columns only grow along a line.
pub proof fn lemma_columns_monotonic(fragments: Seq<Fragment>, i: int, j: int)
    requires
        i <= j,
    ensures
        0 <= columns_until(fragments, i) <= columns_until(fragments, j),
    decreases j - i,
{
    lemma_columns_nonnegative(fragments, i);
    if i < j {
        lemma_columns_monotonic(fragments, i, j - 1);
    }
}

proof fn lemma_columns_nonnegative(fragments: Seq<Fragment>, i: int)
    ensures
        0 <= columns_until(fragments, i),
    decreases i,
{
    if i > 0 {
        lemma_columns_nonnegative(fragments, i - 1);
    }
}

/// Columns counted over a longer line agree on the clusters of the shorter.
proof fn lemma_columns_of_prefix(fragments: Seq<Fragment>, n: int, k: int)
    requires
        0 <= k <= n <= fragments.len(),
    ensures
        columns_until(fragments.take(n), k) == columns_until(fragments, k),
    decreases k,
{
    if k > 0 {
        lemma_columns_of_prefix(fragments, n, k - 1);
    }
}

/// Nothing is drawn of the clusters that begin at or past the window's end.
proof fn lemma_shown_past_end(fragments: Seq<Fragment>, i: int, k: int, start: int, end: int)
    requires
        0 <= i <= k,
        columns_until(fragments, i) >= end,
    ensures
        shown_until(fragments, k, start, end) == shown_until(fragments, i, start, end),
    decreases k - i,
{
    if i < k {
        lemma_shown_past_end(fragments, i, k - 1, start, end);
        lemma_columns_monotonic(fragments, i, k - 1);
    }
}

/// Nothing is drawn in a window without columns.
proof fn lemma_shown_in_empty_window(fragments: Seq<Fragment>, k: int, start: int, end: int)
    requires
        start >= end,
    ensures
        shown_until(fragments, k, start, end) == Seq::<char>::empty(),
    decreases k,
{
    if k > 0 {
        lemma_shown_in_empty_window(fragments, k - 1, start, end);
    }
}

/// Whether `text` is a single control character.
fn lone_control(text: &str) -> (b: bool)
    ensures
        b == is_lone_control(text@),
{
    text.unicode_len() == 1 && text.get_char(0).is_control()
}

/// Picks the glyph that is drawn in place of a cluster of `columns` columns
/// that is or is not blank and is or is not a lone control character.
pub fn choose_replacement(for_str: &str, columns: usize, blank: bool, control: bool) -> (replacement:
    Option<char>)
    ensures
        replacement == replacement_given(for_str@, columns, blank, control),
{
    let n = for_str.unicode_len();
    if n == 1 && for_str.get_char(0) == ' ' {
        assert(for_str@ =~= seq![' ']);
        None
    } else if n == 1 && for_str.get_char(0) == '\t' {
        assert(for_str@ =~= seq!['\t']);
        Some(TAB_GLYPH)
    } else if columns > 0 && blank {
        Some(SPACE_MARKER)
    } else if columns == 0 {
        if control {
            Some(CONTROL_MARKER)
        } else {
            Some(DOT_MARKER)
        }
    } else {
        None
    }
}

/// Picks the width that a cluster of `columns` columns is drawn with.
pub fn choose_width(columns: usize, replacement: Option<char>) -> (rendered_width: GraphemeWidth)
    ensures
        rendered_width == width_given(columns, replacement),
{
    match replacement {
        Some(_) => GraphemeWidth::Half,
        None => if columns <= 1 {
            GraphemeWidth::Half
        } else {
            GraphemeWidth::Full
        },
    }
}

impl TextFragment {
    /// Classifies one cluster.
    fn new(grapheme: String) -> (fragment: TextFragment)
        ensures
            fragment@ == fragment_of(grapheme@),
    {
        let replacement = Line::replace_character(grapheme.as_str());
        let rendered_width = choose_width(width(grapheme.as_str()), replacement);
        TextFragment { grapheme, rendered_width, replacement }
    }
}

impl Line {
    /// Picks the glyph that is drawn in place of a cluster.
    fn replace_character(for_str: &str) -> (replacement: Option<char>)
        ensures
            replacement == replacement_of(for_str@),
    {
        choose_replacement(for_str, width(for_str), blank(for_str), lone_control(for_str))
    }

    /// Cuts a text into clusters and classifies each.
    fn str_to_fragments(line_str: &str) -> (fragments: Vec<TextFragment>)
        ensures
            views(fragments@) == fragments_of(line_str@),
    {
        let clusters = graphemes(line_str);
        let mut fragments: Vec<TextFragment> = Vec::new();
        let mut i: usize = 0;
        while i < clusters.len()
            invariant
                i <= clusters.len(),
                texts(clusters@) == segmentation(line_str@),
                views(fragments@) =~= fragments_of(line_str@).take(i as int),
            decreases clusters.len() - i,
        {
            let fragment = TextFragment::new(clusters[i].clone());
            proof {
                assert(views(fragments@.push(fragment)) =~= views(fragments@).push(fragment@));
            }
            fragments.push(fragment);
            i += 1;
        }
        fragments
    }

    /// The line that a text makes: its grapheme clusters, each with its
    /// width and its replacement glyph.
    pub fn from(line_str: &str) -> (line: Line)
        ensures
            line@ == fragments_of(line_str@),
    {
        let fragments = Self::str_to_fragments(line_str);
        Line { fragments }
    }

    /// The clusters of a line are no more than a `usize` counts.
    pub proof fn lemma_fits(&self)
        ensures
            self@.len() <= usize::MAX,
    {
        assert(self@.len() == self.fragments.len());
    }

    /// The number of grapheme clusters. The cursor can stand before each of
    /// them and behind the last.
    pub fn grapheme_count(&self) -> (count: usize)
        ensures
            count == self@.len(),
    {
        self.fragments.len()
    }

    /// The columns that the first `grapheme_index` clusters take, capped at
    /// the largest `usize`.
    pub fn width_until(&self, grapheme_index: usize) -> (columns: usize)
        requires
            grapheme_index <= self@.len(),
        ensures
            columns == saturate(columns_until(self@, grapheme_index as int)),
    {
        let mut columns: usize = 0;
        let mut i: usize = 0;
        while i < grapheme_index
            invariant
                i <= grapheme_index <= self.fragments@.len(),
                columns == saturate(columns_until(self@, i as int)),
                columns_until(self@, i as int) >= 0,
            decreases grapheme_index - i,
        {
            columns = self.fragments[i].rendered_width.saturating_add(columns);
            i += 1;
        }
        columns
    }

    /// The canonical text of the line: what is written when it is saved.
    pub fn to_string(&self) -> (text: String)
        ensures
            text@ == text_of(self@),
    {
        let text = self.text_between(0, self.fragments.len());
        assert(self@.subrange(0, self@.len() as int) =~= self@);
        text
    }

    /// The text to print for the window of the display columns from
    /// `range.start` up to `range.end`. A cluster that lies in the window is
    /// drawn as its replacement glyph or its text, a wide cluster that an
    /// edge of the window cuts in two as an ellipsis, any other not at all.
    pub fn get_visible_graphemes(&self, range: Range<usize>) -> (text: String)
        ensures
            text@ == visible_text(self@, range.start as int, range.end as int),
    {
        let mut result = String::new();
        if range.start >= range.end {
            proof {
                lemma_shown_in_empty_window(
                    self@,
                    self@.len() as int,
                    range.start as int,
                    range.end as int,
                );
            }
            return result;
        }
        let count = self.fragments.len();
        let mut current_pos: usize = 0;
        let mut i: usize = 0;
        while i < count && current_pos < range.end
            invariant
                count == self.fragments@.len(),
                i <= count,
                range.start < range.end,
                current_pos <= range.end,
                current_pos < range.end ==> current_pos == columns_until(self@, i as int),
                current_pos == range.end ==> columns_until(self@, i as int) >= range.end,
                result@ == shown_until(self@, i as int, range.start as int, range.end as int),
            decreases count - i,
        {
            let fragment = &self.fragments[i];
            let room = range.end - current_pos;
            let columns: usize = match fragment.rendered_width {
                GraphemeWidth::Half => 1,
                GraphemeWidth::Full => 2,
            };
            if columns > room {
                result.push(ELLIPSIS);
                current_pos = range.end;
            } else {
                let fragment_end = current_pos + columns;
                if fragment_end > range.start {
                    if current_pos < range.start {
                        result.push(ELLIPSIS);
                    } else if let Some(glyph) = fragment.replacement {
                        result.push(glyph);
                    } else {
                        result.append(fragment.grapheme.as_str());
                    }
                }
                current_pos = fragment_end;
            }
            i += 1;
        }
        proof {
            if i < count {
                lemma_shown_past_end(
                    self@,
                    i as int,
                    count as int,
                    range.start as int,
                    range.end as int,
                );
            }
        }
        result
    }

    /// Puts `character` before cluster `at`, or at the end of the line where
    /// `at` lies past it, and cuts the new text into clusters anew: the
    /// character may join a cluster next to it.
    pub fn insert_char(&mut self, character: char, at: usize)
        ensures
            final(self)@ == inserted(old(self)@, character, at as int),
    {
        let count = self.fragments.len();
        let k = if at < count {
            at
        } else {
            count
        };
        let mut result = self.text_between(0, k);
        result.push(character);
        let rest = self.text_between(k, count);
        result.append(rest.as_str());
        proof {
            assert(result@ =~= text_with(self@, character, at as int));
        }
        self.fragments = Self::str_to_fragments(result.as_str());
    }

    /// Removes cluster `at` and cuts the remaining text into clusters anew.
    /// A line without a cluster `at` stays as it is.
    pub fn delete(&mut self, at: usize)
        ensures
            final(self)@ == deleted(old(self)@, at as int),
    {
        let count = self.fragments.len();
        if at < count {
            let mut result = self.text_between(0, at);
            let rest = self.text_between(at + 1, count);
            result.append(rest.as_str());
            proof {
                let before = self@.subrange(0, at as int);
                let after = self@.subrange(at + 1, count as int);
                lemma_text_of_concat(before, after);
            }
            self.fragments = Self::str_to_fragments(result.as_str());
        }
    }

    /// Joins the text of `other` to the end of the line and cuts the whole
    /// into clusters anew.
    pub fn append(&mut self, other: &Line)
        ensures
            final(self)@ == appended(old(self)@, other@),
    {
        let mut concat = self.to_string();
        let tail = other.to_string();
        concat.append(tail.as_str());
        self.fragments = Self::str_to_fragments(concat.as_str());
    }

    /// Cuts the line in two before cluster `at`: the clusters from `at` on
    /// leave the line and are returned. Where `at` lies past the line's end
    /// the line stays whole and an empty line is returned.
    pub fn split(&mut self, at: usize) -> (tail: Line)
        ensures
            final(self)@ == split_head(old(self)@, at as int),
            tail@ == split_tail(old(self)@, at as int),
    {
        if at > self.fragments.len() {
            return Line::default();
        }
        let remainder = self.fragments.split_off(at);
        Line { fragments: remainder }
    }

    /// The texts of the clusters from `from` up to `to`, joined.
    fn text_between(&self, from: usize, to: usize) -> (text: String)
        requires
            from <= to <= self@.len(),
        ensures
            text@ == text_of(self@.subrange(from as int, to as int)),
    {
        let mut text = String::new();
        let mut i: usize = from;
        while i < to
            invariant
                from <= i <= to <= self.fragments@.len(),
                text@ == text_of(self@.subrange(from as int, i as int)),
            decreases to - i,
        {
            proof {
                lemma_text_of_push(self@.subrange(from as int, i as int), self@[i as int]);
                assert(self@.subrange(from as int, i as int).push(self@[i as int])
                    =~= self@.subrange(from as int, i + 1));
            }
            text.append(self.fragments[i].grapheme.as_str());
            i += 1;
        }
        text
    }
}

impl Default for Line {
    /// The line without text.
    fn default() -> (line: Line)
        ensures
            line@ == Seq::<Fragment>::empty(),
    {
        let line = Line { fragments: Vec::new() };
        line
    }
}

/// A line that a text makes is classified, and editing keeps it so: the
/// width and the glyph of a cluster never part from its text.
pub proof fn lemma_editing_keeps_classified(
    line: Seq<Fragment>,
    other: Seq<Fragment>,
    text: Seq<char>,
    c: char,
    at: int,
)
    requires
        is_classified(line),
        is_classified(other),
    ensures
        is_classified(fragments_of(text)),
        is_classified(inserted(line, c, at)),
        is_classified(deleted(line, at)),
        is_classified(appended(line, other)),
        is_classified(split_head(line, at)),
        is_classified(split_tail(line, at)),
{
}

/// The width of a line never shrinks along it: the columns before cluster
/// `k` are at most the columns before the next one, both as numbers and as
/// `Line::width_until` returns them, and the columns before the end of the
/// line are the widths of all its clusters together.
pub proof fn lemma_width_until_monotonic(line: Seq<Fragment>, k: int)
    requires
        0 <= k,
    ensures
        columns_until(line, k) <= columns_until(line, k + 1),
        saturate(columns_until(line, k)) <= saturate(columns_until(line, k + 1)),
        columns_until(line, line.len() as int) == total_columns(line),
{
    lemma_columns_monotonic(line, k, k + 1);
    lemma_columns_total(line);
}

proof fn lemma_columns_total(line: Seq<Fragment>)
    ensures
        columns_until(line, line.len() as int) == total_columns(line),
    decreases line.len(),
{
    if line.len() > 0 {
        lemma_columns_total(line.drop_last());
        lemma_columns_of_prefix(line, line.len() - 1, line.len() - 1);
    }
}

/// Splitting a line loses no cluster, and appending the part that left to the
/// part that stayed restores the canonical text.
pub proof fn lemma_append_undoes_split(line: Seq<Fragment>, at: int)
    requires
        0 <= at,
    ensures
        split_tail(line, at).len() + split_head(line, at).len() == line.len(),
        text_of(appended(split_head(line, at), split_tail(line, at))) == text_of(line),
{
    let head = split_head(line, at);
    let tail = split_tail(line, at);
    assert(head + tail =~= line);
    lemma_text_of_concat(head, tail);
    lemma_text_of_fragments_of(text_of(head) + text_of(tail));
}

/// Whether `c`, inserted at `at`, comes to stand as a cluster of its own at
/// that index, with the text before it cut where it was cut before.
pub open spec fn stands_alone(line: Seq<Fragment>, c: char, at: int) -> bool {
    let after = inserted(line, c, at);
    &&& 0 <= at <= line.len()
    &&& at < after.len()
    &&& after[at].text == seq![c]
    &&& text_of(after.take(at)) == text_of(line.take(at))
}

/// Inserting a character and deleting the cluster at the same index gives the
/// canonical text back, where the character came to stand as a cluster of its
/// own at that index. (A character that joins a neighbouring cluster, as a
/// combining mark does, leaves another cluster at the index.)
pub proof fn lemma_delete_undoes_insert(line: Seq<Fragment>, c: char, at: int)
    requires
        stands_alone(line, c, at),
    ensures
        text_of(deleted(inserted(line, c, at), at)) == text_of(line),
{
    let after = inserted(line, c, at);
    let before_text = text_of(line.take(at));
    let behind_text = text_of(line.skip(at));
    let head = after.take(at);
    let rest = after.skip(at + 1);
    lemma_text_of_fragments_of(text_with(line, c, at));
    assert(after =~= head.push(after[at]) + rest);
    lemma_text_of_concat(head.push(after[at]), rest);
    lemma_text_of_push(head, after[at]);
    assert(behind_text =~= (before_text + seq![c] + behind_text).skip(
        before_text.len() as int + 1,
    ));
    lemma_text_of_concat(head, rest);
    lemma_text_of_fragments_of(text_of(after.remove(at)));
    assert(line =~= line.take(at) + line.skip(at));
    lemma_text_of_concat(line.take(at), line.skip(at));
}

/// What `Line::get_visible_graphemes` returns never takes more columns than
/// its window has.
pub proof fn lemma_visible_text_fits(line: Seq<Fragment>, start: int, end: int)
    requires
        0 <= start,
    ensures
        0 <= visible_columns(line, start, end),
        start < end ==> visible_columns(line, start, end) <= end - start,
        start >= end ==> visible_columns(line, start, end) == 0,
{
    lemma_shown_columns_bounded(line, line.len() as int, start, end);
}

/// What is drawn for the first `k` clusters takes no more columns than the
/// window shares with them.
proof fn lemma_shown_columns_bounded(line: Seq<Fragment>, k: int, start: int, end: int)
    requires
        0 <= start,
        0 <= k,
    ensures
        0 <= shown_columns_until(line, k, start, end),
        start >= end ==> shown_columns_until(line, k, start, end) == 0,
        start < end && columns_until(line, k) <= start ==> shown_columns_until(line, k, start, end)
            == 0,
        start < end && start < columns_until(line, k) <= end ==> shown_columns_until(
            line,
            k,
            start,
            end,
        ) <= columns_until(line, k) - start,
        start < end && end < columns_until(line, k) ==> shown_columns_until(line, k, start, end)
            <= end - start,
    decreases k,
{
    if k > 0 {
        lemma_shown_columns_bounded(line, k - 1, start, end);
        lemma_columns_monotonic(line, k - 1, k);
    }
}

} // verus!
