use shellcaster::ui::mock_panel::Panel as MockPanel;
use shellcaster::ui::panel::Panel;

#[test]
fn panel_geometry() {
    let p = Panel::new("Title".to_string(), 0, (), 20, 40, 5, (1, 2, 1, 3));
    assert_eq!(p.get_rows(), 16);
    assert_eq!(p.get_cols(), 33);
    assert_eq!(p.abs_y(0), 2);
    assert_eq!(p.abs_x(0), 9);
    assert_eq!(p.abs_x(4), 13);
    assert_eq!(p.title(), "Title");
}

#[test]
fn panel_resize() {
    let mut p = Panel::new("T".to_string(), 1, (), 20, 40, 5, (0, 0, 0, 0));
    p.resize(10, 12, 7);
    assert_eq!(p.n_row(), 10);
    assert_eq!(p.n_col(), 12);
    assert_eq!(p.start_x(), 7);
    assert_eq!(p.get_rows(), 8);
    assert_eq!(p.get_cols(), 10);
}

#[test]
fn panel_borders() {
    let first = Panel::new("T".to_string(), 0, (), 5, 5, 0, (0, 0, 0, 0));
    assert_eq!(first.border_top(), "┌───┐");
    assert_eq!(first.border_bottom(), "└───┘");
    let second = Panel::new("T".to_string(), 1, (), 5, 4, 0, (0, 0, 0, 0));
    assert_eq!(second.border_top(), "┬──┐");
    assert_eq!(second.border_bottom(), "┴──┘");
    assert_eq!(second.blank_line(), "    ");
    assert_eq!(second.blank_inner_line(), "  ");
}

#[test]
fn panel_wrap_layout() {
    let p = Panel::new("T".to_string(), 0, (), 6, 12, 0, (0, 0, 0, 0));
    // 4 rows of 10 columns
    let (lines, last) = p.wrap_layout(1, "alpha beta gamma delta epsilon");
    assert_eq!(lines, vec!["alpha", "beta gamma", "delta"]);
    assert_eq!(last, 3);
    let (lines, last) = p.wrap_layout(4, "alpha");
    assert!(lines.is_empty());
    assert_eq!(last, 4);
}

#[test]
fn mock_panel_new_and_rows() {
    let p = MockPanel::new("T".to_string(), 0, (), 8, 20, 0, (0, 1, 0, 1));
    assert_eq!(p.buffer.len(), 6);
    assert!(p.buffer.iter().all(|r| r.is_empty()));
    assert_eq!(p.get_rows(), 6);
    assert_eq!(p.get_cols(), 15);
    p.redraw();
}

#[test]
fn mock_panel_write_lines() {
    let mut p = MockPanel::new("T".to_string(), 0, (), 8, 20, 0, (0, 0, 0, 0));
    p.write_line(0, "hello".to_string(), None);
    p.write_key_value_line(2, "Key".to_string(), "Value".to_string(), None, None);
    assert_eq!(p.get_row(0), "hello");
    assert_eq!(p.get_row(1), "");
    assert_eq!(p.get_row(2), "Key: Value");
    p.clear_inner();
    assert_eq!(p.get_row(0), "");
    assert_eq!(p.buffer.len(), 6);
}

#[test]
fn mock_panel_wrap_line() {
    // 6 rows, 9 columns
    let mut p = MockPanel::new("T".to_string(), 0, (), 8, 12, 0, (0, 0, 0, 0));
    let last = p.write_wrap_line(4, "one two three four", None);
    assert_eq!(last, 5);
    assert_eq!(p.get_row(4), "one two");
    assert_eq!(p.get_row(5), "three");
    assert_eq!(p.get_row(3), "");
    let last = p.write_wrap_line(0, "short", None);
    assert_eq!(last, 0);
    assert_eq!(p.get_row(0), "short");
}

#[test]
fn mock_panel_resize() {
    let mut p = MockPanel::new("T".to_string(), 0, (), 8, 12, 0, (0, 0, 0, 0));
    p.write_line(0, "a".to_string(), None);
    p.resize(5, 10, 2);
    assert_eq!(p.buffer.len(), 3);
    assert_eq!(p.get_row(0), "a");
    assert_eq!(p.n_col, 10);
    assert_eq!(p.start_x, 2);
    p.resize(10, 10, 2);
    assert_eq!(p.buffer.len(), 6);
    p.resize(8, 10, 2);
    assert_eq!(p.buffer.len(), 6);
}
