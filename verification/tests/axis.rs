use energipriser::axis::{
    axis_labels, axis_ticks, marker_position, CHART_HEIGHT, CHART_OFFSET, CHART_WIDTH,
    COLUMNS_PER_HOUR, HOURS, LABELS_WIDTH, LABEL_WIDTH, MARGIN, MARKERS, MARKER_EVERY,
    MARKER_STEP, RULE_WIDTH,
};

const RULE: &str = "       |‾‾‾‾‾‾‾‾‾‾‾‾‾‾‾‾‾‾‾‾‾‾‾|‾‾‾‾‾‾‾‾‾‾‾‾‾‾‾‾‾‾‾‾‾‾‾|‾‾‾‾‾‾‾‾‾‾‾‾‾‾‾‾‾‾‾‾‾‾‾|‾‾‾‾‾‾‾‾‾‾‾‾‾‾‾‾‾‾‾‾‾‾‾|";
const HOURS_LINE: &str = "       00:00                   06:00                   12:00                   18:00                   24:00";

#[test]
fn rule_has_a_tick_every_quarter_of_the_chart() {
    assert_eq!(axis_ticks(), RULE);
}

#[test]
fn hours_line_has_each_label_under_its_tick() {
    assert_eq!(axis_labels(), HOURS_LINE);
}

#[test]
fn caption_lines_span_margin_and_chart() {
    assert_eq!(axis_ticks().chars().count(), RULE_WIDTH);
    assert_eq!(axis_labels().chars().count(), LABELS_WIDTH);
    assert_eq!(RULE_WIDTH, 104);
    assert_eq!(LABELS_WIDTH, 108);
    assert_eq!(CHART_WIDTH, 96);
    assert_eq!(CHART_HEIGHT, 10);
    assert_eq!(CHART_OFFSET, 0);
    assert_eq!(HOURS * COLUMNS_PER_HOUR, 96);
    assert_eq!(MARKER_EVERY * COLUMNS_PER_HOUR, MARKER_STEP);
}

#[test]
fn ticks_are_evenly_spaced_over_the_chart() {
    let rule: Vec<char> = axis_ticks().chars().collect();
    let found: Vec<usize> = (0..rule.len()).filter(|i| rule[*i] == '|').collect();
    assert_eq!(found, vec![7, 31, 55, 79, 103]);
    assert_eq!(found.len(), MARKERS);
    for k in 0..MARKERS {
        assert_eq!(found[k], found[0] + 24 * k);
        assert_eq!(found[k], marker_position(k));
    }
    assert_eq!(found[4] - found[0], 96);
}

#[test]
fn tick_stands_where_every_sixth_hour_starts() {
    let rule: Vec<char> = axis_ticks().chars().collect();
    for hour in 0..=HOURS {
        let col = MARGIN + COLUMNS_PER_HOUR * hour;
        assert_eq!(rule[col] == '|', hour % 6 == 0);
    }
}

#[test]
fn rule_is_blank_under_the_margin_and_overlined_after_it() {
    let rule: Vec<char> = axis_ticks().chars().collect();
    for col in 0..MARGIN {
        assert_eq!(rule[col], ' ');
    }
    for col in MARGIN..RULE_WIDTH {
        assert!(rule[col] == '|' || rule[col] == '\u{203e}');
    }
    assert_eq!(rule[8], '\u{203e}');
    assert_eq!(rule[102], '\u{203e}');
}

#[test]
fn labels_name_the_hours_and_start_under_their_ticks() {
    let line: Vec<char> = axis_labels().chars().collect();
    let rule: Vec<char> = axis_ticks().chars().collect();
    let expected = ["00:00", "06:00", "12:00", "18:00", "24:00"];
    let starts = [7usize, 31, 55, 79, 103];
    for k in 0..MARKERS {
        let start = marker_position(k);
        assert_eq!(start, starts[k]);
        assert_eq!(start, starts[0] + 24 * k);
        assert_eq!(rule[start], '|');
        let shown: String = line[start..start + LABEL_WIDTH].iter().collect();
        assert_eq!(shown, expected[k]);
    }
    let blanks = line.iter().filter(|c| **c == ' ').count();
    assert_eq!(blanks, LABELS_WIDTH - LABEL_WIDTH * MARKERS);
}
