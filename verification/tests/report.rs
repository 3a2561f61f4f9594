use energipriser::axis::{axis_labels, axis_ticks};
use energipriser::model::Price;
use energipriser::report::{heading, price_row, section, table};
use energipriser::view::Day;

#[test]
fn heading_names_the_day_and_the_running_price() {
    assert_eq!(heading(Day::Today, "1.2345"), "  I dag (Pris nå 1.2345)");
    assert_eq!(heading(Day::Tomorrow, "0.5"), "  I morgen (Pris nå 0.5)");
    assert_eq!(heading(Day::Today, ""), "  I dag (Pris nå )");
}

#[test]
fn price_row_is_start_colon_total() {
    assert_eq!(
        price_row("2023-01-01T00:00:00.000+01:00", "1.2345"),
        "2023-01-01T00:00:00.000+01:00 : 1.2345"
    );
}

#[test]
fn section_is_heading_blank_chart_and_axis() {
    let chart = " 2.00 ┤ ╭─\n 1.00 ┼─╯";
    let lines = section(Day::Today, "1.5", chart);
    assert_eq!(lines.len(), 5);
    assert_eq!(lines[0], "  I dag (Pris nå 1.5)");
    assert_eq!(lines[1], "");
    assert_eq!(lines[2], chart);
    assert_eq!(lines[3], axis_ticks());
    assert_eq!(lines[4], axis_labels());
}

#[test]
fn section_of_tomorrow_differs_in_the_heading_only() {
    let today = section(Day::Today, "1.5", "chart");
    let tomorrow = section(Day::Tomorrow, "1.5", "chart");
    assert_eq!(tomorrow[0], "  I morgen (Pris nå 1.5)");
    assert_eq!(today[1..], tomorrow[1..]);
}

#[test]
fn table_has_a_row_per_hour_in_order() {
    let hour = |starts_at: &str, total: f64| Price {
        total: format!("{}", total),
        energy: format!("{}", total / 2.0),
        starts_at: starts_at.to_string(),
    };
    let series = vec![hour("00:00", 1.25), hour("01:00", 0.5), hour("02:00", -3.0)];
    assert_eq!(table(&series), vec!["00:00 : 1.25", "01:00 : 0.5", "02:00 : -3"]);
    let none: Vec<Price<String>> = Vec::new();
    assert!(table(&none).is_empty());
}
