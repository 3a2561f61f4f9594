//! The hour axis drawn under a chart of one day's prices.
//!
//! A chart is `CHART_WIDTH` columns wide, four columns to the hour, and stands
//! to the right of a margin that holds the price scale. The caption below it
//! is two lines: a rule with a tick at every sixth hour, and the hours
//! themselves, each starting under its tick. The markers stand evenly, a
//! quarter of the chart apart, from the end of the margin to the end of the
//! chart.

use crate::text::{digit_glyph, digit_text};
use vstd::prelude::*;

verus! {

/// Hours in a day's chart.
pub const HOURS: usize = 24;

/// Columns that one hour takes.
pub const COLUMNS_PER_HOUR: usize = 4;

/// Columns of the chart.
pub const CHART_WIDTH: u32 = 96;

/// Rows of the chart.
pub const CHART_HEIGHT: u32 = 10;

/// Where the price scale starts.
pub const CHART_OFFSET: u32 = 0;

/// Columns to the left of the first marker.
pub const MARGIN: usize = 7;

/// Hours between two markers.
pub const MARKER_EVERY: usize = 6;

/// Columns between two markers: a quarter of the chart.
pub const MARKER_STEP: usize = 24;

/// Markers on the axis: hours 0, 6, 12, 18 and 24.
pub const MARKERS: usize = 5;

/// Glyphs of an hour label, as in `06:00`.
pub const LABEL_WIDTH: usize = 5;

/// Columns of the rule: the margin, the chart and the last tick.
pub const RULE_WIDTH: usize = 104;

/// Columns of the line of hours: the margin, the chart and the last label.
pub const LABELS_WIDTH: usize = 108;

/// The hour that marker `k` stands for.
pub open spec fn marker_hour(k: int) -> int {
    MARKER_EVERY * k
}

/// The column where hour `hour` of the day starts.
pub open spec fn hour_column(hour: int) -> int {
    MARGIN + COLUMNS_PER_HOUR * hour
}

/// The column of marker `k`: `k` quarters of the chart past the margin. The
/// tick of the marker stands there, and its label starts there.
pub open spec fn marker_column(k: int) -> int {
    MARGIN + MARKER_STEP * k
}

/// Whether the rule has a tick at `col`.
pub open spec fn is_tick(col: int) -> bool {
    MARGIN <= col && col < RULE_WIDTH && (col - MARGIN) % (MARKER_STEP as int) == 0
}

/// The glyph of the rule at `col`.
pub open spec fn tick_glyph(col: int) -> char {
    if col < MARGIN {
        ' '
    } else if is_tick(col) {
        '|'
    } else {
        '‾'
    }
}

/// The rule: blank under the margin, then an overline with the ticks on it.
pub open spec fn tick_line() -> Seq<char> {
    Seq::new(RULE_WIDTH as nat, |col: int| tick_glyph(col))
}

/// The label of a full hour: two digits, a colon and two zeros.
pub open spec fn hour_label(hour: int) -> Seq<char> {
    seq![digit_glyph(hour / 10), digit_glyph(hour % 10), ':', '0', '0']
}

/// Whether the label of marker `k` covers `col`.
pub open spec fn label_covers(k: int, col: int) -> bool {
    marker_column(k) <= col < marker_column(k) + LABEL_WIDTH
}

/// The glyph of the label of marker `k` that stands at `col`.
pub open spec fn label_glyph_of(k: int, col: int) -> char {
    hour_label(marker_hour(k))[col - marker_column(k)]
}

/// The glyph of the line of hours at `col`.
pub open spec fn label_glyph(col: int) -> char {
    if label_covers(0, col) {
        label_glyph_of(0, col)
    } else if label_covers(1, col) {
        label_glyph_of(1, col)
    } else if label_covers(2, col) {
        label_glyph_of(2, col)
    } else if label_covers(3, col) {
        label_glyph_of(3, col)
    } else if label_covers(4, col) {
        label_glyph_of(4, col)
    } else {
        ' '
    }
}

/// The line of hours: one label per marker, blanks between them.
pub open spec fn label_line() -> Seq<char> {
    Seq::new(LABELS_WIDTH as nat, |col: int| label_glyph(col))
}

/// The rule's glyph at `col`, as text.
fn tick_text(col: usize) -> (text: &'static str)
    requires
        col < RULE_WIDTH,
    ensures
        text@ == seq![tick_glyph(col as int)],
{
    proof {
        reveal_strlit(" ");
        reveal_strlit("|");
        reveal_strlit("‾");
    }
    if col < MARGIN {
        let text: &'static str = " ";
        assert(text@ =~= seq![' ']);
        text
    } else if (col - MARGIN) % MARKER_STEP == 0 {
        let text: &'static str = "|";
        assert(text@ =~= seq!['|']);
        text
    } else {
        let text: &'static str = "‾";
        assert(text@ =~= seq!['‾']);
        text
    }
}

/// The glyph at offset `at` of the label of marker `k`, as text.
fn label_text(k: usize, at: usize) -> (text: &'static str)
    requires
        k < MARKERS,
        at < LABEL_WIDTH,
    ensures
        text@ == seq![hour_label(marker_hour(k as int))[at as int]],
{
    proof {
        reveal_strlit(":");
        reveal_strlit("0");
    }
    let hour: usize = MARKER_EVERY * k;
    if at == 0 {
        digit_text(hour / 10)
    } else if at == 1 {
        digit_text(hour % 10)
    } else if at == 2 {
        let text: &'static str = ":";
        assert(text@ =~= seq![':']);
        text
    } else {
        let text: &'static str = "0";
        assert(text@ =~= seq!['0']);
        text
    }
}

/// The column of marker `k`, where its tick stands and its label starts.
pub fn marker_position(k: usize) -> (col: usize)
    requires
        k < MARKERS,
    ensures
        col == marker_column(k as int),
        col < RULE_WIDTH,
        col + LABEL_WIDTH <= LABELS_WIDTH,
{
    MARGIN + MARKER_STEP * k
}

/// The glyph of the line of hours at `col`, as text.
fn hours_text(col: usize) -> (text: &'static str)
    requires
        col < LABELS_WIDTH,
    ensures
        text@ == seq![label_glyph(col as int)],
{
    let mut k: usize = 0;
    while k < MARKERS
        invariant
            k <= MARKERS,
            col < LABELS_WIDTH,
            forall|j: int| 0 <= j < k ==> !label_covers(j, col as int),
        decreases MARKERS - k,
    {
        let start: usize = marker_position(k);
        if start <= col && col < start + LABEL_WIDTH {
            return label_text(k, col - start);
        }
        k = k + 1;
    }
    proof {
        reveal_strlit(" ");
    }
    let text: &'static str = " ";
    assert(text@ =~= seq![' ']);
    text
}

/// The rule under a chart.
pub fn axis_ticks() -> (line: String)
    ensures
        line@ == tick_line(),
{
    let mut line: String = String::new();
    let mut col: usize = 0;
    while col < RULE_WIDTH
        invariant
            col <= RULE_WIDTH,
            line@ == Seq::new(col as nat, |c: int| tick_glyph(c)),
        decreases RULE_WIDTH - col,
    {
        line.append(tick_text(col));
        assert(line@ =~= Seq::new((col + 1) as nat, |c: int| tick_glyph(c)));
        col = col + 1;
    }
    line
}

/// The line of hours under the rule.
pub fn axis_labels() -> (line: String)
    ensures
        line@ == label_line(),
{
    let mut line: String = String::new();
    let mut col: usize = 0;
    while col < LABELS_WIDTH
        invariant
            col <= LABELS_WIDTH,
            line@ == Seq::new(col as nat, |c: int| label_glyph(c)),
        decreases LABELS_WIDTH - col,
    {
        line.append(hours_text(col));
        assert(line@ =~= Seq::new((col + 1) as nat, |c: int| label_glyph(c)));
        col = col + 1;
    }
    line
}

/// The rule ends with the last tick, the line of hours with the last label.
/// The chart is as wide as its hours, and four steps of the markers span it.
pub proof fn lemma_caption_width()
    ensures
        tick_line().len() == RULE_WIDTH,
        label_line().len() == LABELS_WIDTH,
        RULE_WIDTH == MARGIN + CHART_WIDTH + 1,
        LABELS_WIDTH == MARGIN + CHART_WIDTH + LABEL_WIDTH,
        CHART_WIDTH == HOURS * COLUMNS_PER_HOUR,
        MARKER_STEP == MARKER_EVERY * COLUMNS_PER_HOUR,
        MARKER_STEP * (MARKERS - 1) == CHART_WIDTH,
{
}

/// The markers stand in proportion to their hours. Marker `k` is that of
/// hour `6 k`; its column lies `k` quarters of the chart past the margin,
/// which is where its hour starts at four columns to the hour. The rule has
/// its tick in that column, and the label of the hour starts there.
pub proof fn lemma_markers_proportional(k: int)
    requires
        0 <= k < MARKERS,
    ensures
        marker_hour(k) == k * (HOURS as int) / (MARKERS as int - 1),
        marker_column(k) == MARGIN + k * (CHART_WIDTH as int) / (MARKERS as int - 1),
        marker_column(k) == hour_column(marker_hour(k)),
        0 <= marker_column(k) < RULE_WIDTH,
        tick_line()[marker_column(k)] == '|',
        marker_column(k) + LABEL_WIDTH <= LABELS_WIDTH,
        label_line().subrange(marker_column(k), marker_column(k) + LABEL_WIDTH as int)
            == hour_label(marker_hour(k)),
{
    let start = marker_column(k);
    let shown = label_line().subrange(start, start + LABEL_WIDTH as int);
    assert(shown.len() == 5);
    assert forall|i: int| 0 <= i < 5 implies shown[i] == hour_label(marker_hour(k))[i] by {
        assert(shown[i] == label_glyph(start + i));
        assert(label_covers(k, start + i));
    }
    assert(shown =~= hour_label(marker_hour(k)));
}

/// The markers are evenly spaced: each stands a quarter of the chart after
/// the one before, and the first and the last are the chart's width apart.
pub proof fn lemma_markers_evenly_spaced(k: int)
    requires
        0 <= k < MARKERS - 1,
    ensures
        marker_column(k + 1) - marker_column(k) == MARKER_STEP,
        marker_column(k) == marker_column(0) + MARKER_STEP * k,
        marker_column(MARKERS - 1) - marker_column(0) == CHART_WIDTH,
{
}

/// The rule has a tick at the five markers and nowhere else.
pub proof fn lemma_ticks_are_markers(col: int)
    requires
        0 <= col < RULE_WIDTH,
    ensures
        tick_line()[col] == '|' <==> exists|k: int|
            0 <= k < MARKERS && col == #[trigger] marker_column(k),
{
    if tick_line()[col] == '|' {
        assert(is_tick(col));
        let k = (col - MARGIN) / (MARKER_STEP as int);
        assert(col == marker_column(k));
    }
    if exists|k: int| 0 <= k < MARKERS && col == #[trigger] marker_column(k) {
        let k = choose|k: int| 0 <= k < MARKERS && col == #[trigger] marker_column(k);
        assert(is_tick(col));
    }
}

/// Where an hour starts on the rule, there is a tick exactly if the hour is
/// one of every sixth.
pub proof fn lemma_tick_at_every_sixth_hour(hour: int)
    requires
        0 <= hour <= HOURS,
    ensures
        0 <= hour_column(hour) < RULE_WIDTH,
        tick_line()[hour_column(hour)] == '|' <==> hour % (MARKER_EVERY as int) == 0,
{
    let col = hour_column(hour);
    assert((col - MARGIN) == 4 * hour);
    assert((4 * hour) % 24 == 0 <==> hour % 6 == 0);
}

/// Between the labels the line of hours is blank.
pub proof fn lemma_blank_between_labels(col: int)
    requires
        0 <= col < LABELS_WIDTH,
        forall|k: int| 0 <= k < MARKERS ==> !label_covers(k, col),
    ensures
        label_line()[col] == ' ',
{
    assert(!label_covers(0, col));
    assert(!label_covers(1, col));
    assert(!label_covers(2, col));
    assert(!label_covers(3, col));
    assert(!label_covers(4, col));
}

} // verus!
