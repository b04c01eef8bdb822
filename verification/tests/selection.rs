use easy_template::selection::{menu_line, menu_lines, parse_usize, select_entry, SelectionError};

#[test]
fn parse_accepts_what_from_str_accepts() {
    assert_eq!(parse_usize("0"), Some(0));
    assert_eq!(parse_usize("42"), Some(42));
    assert_eq!(parse_usize("+7"), Some(7));
    assert_eq!(parse_usize("007"), Some(7));
    assert_eq!(parse_usize(&usize::MAX.to_string()), Some(usize::MAX));
}

#[test]
fn parse_rejects_what_from_str_rejects() {
    for s in ["", "+", "-1", "1a", " 1", "1 ", "++1", "x", "١"] {
        assert_eq!(parse_usize(s), None, "{s:?}");
        assert!(s.parse::<usize>().is_err());
    }
    let too_big = format!("{}0", usize::MAX);
    assert_eq!(parse_usize(&too_big), None);
}

#[test]
fn parse_agrees_with_std_on_samples() {
    for s in ["0", "9", "10", "+10", "65535", "18446744073709551615", "18446744073709551616", "3-", "-0"] {
        assert_eq!(parse_usize(s), s.parse::<usize>().ok(), "{s:?}");
    }
}

fn strings(v: &[&str]) -> Vec<String> {
    v.iter().map(|s| s.to_string()).collect()
}

#[test]
fn select_each_outcome() {
    let entries = strings(&["/t/a", "/t/b", "/t/c"]);
    assert_eq!(select_entry(&entries, "1"), Ok("/t/a".to_string()));
    assert_eq!(select_entry(&entries, "3"), Ok("/t/c".to_string()));
    assert_eq!(select_entry(&entries, "0"), Err(SelectionError::InvalidNumber));
    assert_eq!(select_entry(&entries, "4"), Err(SelectionError::InvalidNumber));
    assert_eq!(select_entry(&entries, ""), Err(SelectionError::InvalidInput));
    assert_eq!(select_entry(&entries, "two"), Err(SelectionError::InvalidInput));
    assert_eq!(select_entry(&Vec::new(), "1"), Err(SelectionError::InvalidNumber));
}

#[test]
fn menu_numbers_from_one() {
    assert_eq!(menu_line(12, "txt"), "12: txt");
    assert_eq!(menu_line(0, "x"), "0: x");
    let lines = menu_lines(&strings(&["rs", "txt"]));
    assert_eq!(lines, strings(&["1: rs", "2: txt"]));
}

#[test]
fn law_shown_number_selects_on_examples() {
    let names: Vec<String> = (0..12).map(|i| format!("name{i}")).collect();
    let paths: Vec<String> = (0..12).map(|i| format!("/t/name{i}")).collect();
    let lines = menu_lines(&names);
    for (i, line) in lines.iter().enumerate() {
        let shown = line.split(": ").next().unwrap();
        assert_eq!(select_entry(&paths, shown), Ok(paths[i].clone()));
    }
}
