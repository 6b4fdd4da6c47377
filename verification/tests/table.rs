use flyline::table::{
    compute_natural_col_widths, render_table, render_table_constrained, render_table_with_options, wrap_cell,
    Alignment, ColumnConstraint, TableAccum, TableLine, TableOptions,
};

fn text(line: &TableLine) -> String {
    line.iter().map(|s| s.text.as_str()).collect()
}

fn sample() -> TableAccum {
    let mut accum = TableAccum::new(vec![Alignment::Left, Alignment::Right]);
    accum.header_cells = vec!["a".to_string(), "bb".to_string()];
    accum.body_rows = vec![vec!["x".to_string(), "y".to_string()], vec!["z".to_string()]];
    accum
}

#[test]
fn natural_col_widths_use_display_width() {
    let mut accum = TableAccum::new(vec![Alignment::Left]);
    accum.header_cells = vec!["名字".to_string()];
    accum.body_rows = vec![vec!["中文内容".to_string()]];
    let widths = compute_natural_col_widths(&accum);
    // 2 CJK chars in the header = 4 display columns (not 6 bytes).
    assert_eq!(widths[0], 8); // max(4, 4*2)
}

#[test]
fn natural_widths_are_at_least_three() {
    let accum = sample();
    assert_eq!(compute_natural_col_widths(&accum), vec![3, 3]);
    let mut wide = sample();
    wide.body_rows.push(vec!["long cell".to_string(), "q".to_string(), "ignored extra".to_string()]);
    assert_eq!(compute_natural_col_widths(&wide), vec![9, 3]);
}

#[test]
fn empty_accumulator() {
    let accum = TableAccum::default();
    assert!(accum.alignments.is_empty() && accum.header_cells.is_empty() && !accum.in_header);
    assert!(compute_natural_col_widths(&accum).is_empty());
    assert!(render_table(&accum, &[]).is_empty());
}

#[test]
fn wrap_cell_splits_by_display_width() {
    assert_eq!(wrap_cell("hello world", 5), vec!["hello", " worl", "d"]);
    assert_eq!(wrap_cell("中文内容", 4), vec!["中文", "内容"]);
    assert_eq!(wrap_cell("中文", 1), vec!["中", "文"]);
    assert_eq!(wrap_cell("short", 10), vec!["short"]);
    assert_eq!(wrap_cell("", 3), vec![""]);
    assert_eq!(wrap_cell("abc", 0), vec![""]);
}

#[test]
fn renders_box_table() {
    let accum = sample();
    let lines = render_table(&accum, &[3, 3]);
    let rendered: Vec<String> = lines.iter().map(text).collect();
    assert_eq!(
        rendered,
        vec![
            "╭─────┬─────╮",
            "│  a  │ bb  │",
            "├─:───┼───:─┤",
            "│ x   │ y   │",
            "│ z   │     │",
            "╰─────┴─────╯",
        ]
    );
    assert!(lines[1][1].bold);
    assert!(!lines[3][1].bold);
}

#[test]
fn row_dividers_between_body_rows() {
    let accum = sample();
    let lines = render_table_with_options(&accum, &[3, 3], &TableOptions { row_dividers: true });
    let rendered: Vec<String> = lines.iter().map(text).collect();
    assert_eq!(rendered.len(), 7);
    assert_eq!(rendered[4], "├─────┼─────┤");
    assert!(!TableOptions::default().row_dividers);
}

#[test]
fn wide_cells_wrap_over_lines() {
    let mut accum = TableAccum::new(vec![Alignment::Center]);
    accum.header_cells = vec!["h".to_string()];
    accum.body_rows = vec![vec!["abcdef".to_string()]];
    let lines = render_table(&accum, &[4]);
    let rendered: Vec<String> = lines.iter().map(text).collect();
    assert_eq!(
        rendered,
        vec!["╭──────╮", "│  h   │", "├─:──:─┤", "│ abcd │", "│ ef   │", "╰──────╯"]
    );
}

#[test]
fn constrained_widths_come_from_the_layout() {
    let accum = sample();
    let constraints = vec![ColumnConstraint::Length(3), ColumnConstraint::Length(5)];
    let lines = render_table_constrained(&accum, &constraints, 15, &TableOptions::default());
    assert_eq!(text(&lines[0]), "╭─────┬───────╮");
    assert_eq!(text(&lines[1]), "│  a  │  bb   │");
    let narrow = render_table_constrained(&accum, &constraints, 10, &TableOptions::default());
    let top = text(&narrow[0]);
    assert!(top.chars().count() <= 10, "{top}");
}

#[test]
fn wide_characters_are_padded_by_display_width() {
    let mut accum = TableAccum::new(vec![Alignment::Left]);
    accum.header_cells = vec!["h".to_string()];
    accum.body_rows = vec![vec!["中文".to_string()], vec!["中".to_string()]];
    let lines = render_table(&accum, &[4]);
    let rendered: Vec<String> = lines.iter().map(text).collect();
    assert_eq!(
        rendered,
        vec!["╭──────╮", "│  h   │", "├─:────┤", "│ 中文 │", "│ 中   │", "╰──────╯"]
    );
}

#[test]
fn fitting_cells_stay_on_one_line() {
    let mut accum = TableAccum::new(vec![Alignment::Left, Alignment::Left]);
    accum.header_cells = vec!["ab".to_string(), "c".to_string()];
    accum.body_rows = vec![
        vec!["中文".to_string(), "x".to_string()],
        vec!["abcd".to_string(), "".to_string()],
    ];
    let lines = render_table_with_options(&accum, &[4, 1], &TableOptions { row_dividers: true });
    assert_eq!(lines.len(), 2 + 4 + 1);
    assert_eq!(wrap_cell("中文", 4), vec!["中文"]);
}
