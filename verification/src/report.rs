//! The report of one day: a heading with the price of the hour that runs, the
//! chart of the day's hours, and the hour axis under it.

use crate::axis::{axis_labels, axis_ticks, label_line, tick_line};
use crate::model::Price;
use crate::view::Day;
use vstd::prelude::*;

verus! {

/// How a day's heading starts.
pub open spec fn heading_start(day: Day) -> Seq<char> {
    match day {
        Day::Today => "  I dag (Pris nå "@,
        Day::Tomorrow => "  I morgen (Pris nå "@,
    }
}

/// The heading of a day: the day, and the price of the hour that runs.
pub open spec fn heading_of(day: Day, current_total: Seq<char>) -> Seq<char> {
    heading_start(day) + current_total + ")"@
}

/// The lines of a day's report, top to bottom.
pub open spec fn section_of(day: Day, current_total: Seq<char>, chart: Seq<char>) -> Seq<
    Seq<char>,
> {
    seq![heading_of(day, current_total), Seq::<char>::empty(), chart, tick_line(), label_line()]
}

/// A row of a day's table: when the hour starts, and what it costs.
pub open spec fn price_row_of(starts_at: Seq<char>, total: Seq<char>) -> Seq<char> {
    starts_at + " : "@ + total
}

/// The rows of a day's table: one per hour, in the order of the series.
pub open spec fn table_of(series: Seq<Price<String>>) -> Seq<Seq<char>> {
    Seq::new(series.len(), |i: int| price_row_of(series[i].starts_at@, series[i].total@))
}

/// What each of `lines` holds.
pub open spec fn texts_of(lines: Seq<String>) -> Seq<Seq<char>> {
    Seq::new(lines.len(), |i: int| lines[i]@)
}

/// The heading of a day. `current_total` is the price of the hour that runs,
/// as it is to be read.
pub fn heading(day: Day, current_total: &str) -> (line: String)
    ensures
        line@ == heading_of(day, current_total@),
{
    let mut line: String = match day {
        Day::Today => "  I dag (Pris nå ".to_owned(),
        Day::Tomorrow => "  I morgen (Pris nå ".to_owned(),
    };
    line.append(current_total);
    line.append(")");
    line
}

/// A row of a day's table.
pub fn price_row(starts_at: &str, total: &str) -> (line: String)
    ensures
        line@ == price_row_of(starts_at@, total@),
{
    let mut line: String = starts_at.to_owned();
    line.append(" : ");
    line.append(total);
    line
}

/// A day's hours as a table, one row per hour in the order of the series.
/// The amounts are those of the series, as they are to be read.
pub fn table(series: &Vec<Price<String>>) -> (rows: Vec<String>)
    ensures
        texts_of(rows@) == table_of(series@),
{
    let mut rows: Vec<String> = Vec::new();
    let mut i: usize = 0;
    while i < series.len()
        invariant
            i <= series.len(),
            rows@.len() == i,
            forall|j: int|
                0 <= j < i ==> (#[trigger] rows@[j])@ == price_row_of(
                    series@[j].starts_at@,
                    series@[j].total@,
                ),
        decreases series.len() - i,
    {
        rows.push(price_row(series[i].starts_at.as_str(), series[i].total.as_str()));
        i = i + 1;
    }
    assert(texts_of(rows@) =~= table_of(series@));
    rows
}

/// The lines of a day's report: the heading, a blank line, the chart as it
/// was drawn, and the two lines of the hour axis.
pub fn section(day: Day, current_total: &str, chart: &str) -> (lines: Vec<String>)
    ensures
        texts_of(lines@) == section_of(day, current_total@, chart@),
{
    let mut lines: Vec<String> = Vec::new();
    lines.push(heading(day, current_total));
    lines.push(String::new());
    lines.push(chart.to_owned());
    lines.push(axis_ticks());
    lines.push(axis_labels());
    assert(texts_of(lines@) =~= section_of(day, current_total@, chart@));
    lines
}

/// A day's report is five lines; the chart is the third, as it was handed
/// in, and the axis stands right under it.
pub proof fn lemma_section_layout(day: Day, current_total: Seq<char>, chart: Seq<char>)
    ensures
        section_of(day, current_total, chart).len() == 5,
        section_of(day, current_total, chart)[0] == heading_of(day, current_total),
        section_of(day, current_total, chart)[1].len() == 0,
        section_of(day, current_total, chart)[2] == chart,
        section_of(day, current_total, chart)[3] == tick_line(),
        section_of(day, current_total, chart)[4] == label_line(),
{
}

} // verus!
