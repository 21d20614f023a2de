use aws_auth::table::{TabularFormatter, TextFormatter};

fn strings(v: &[&str]) -> Vec<String> {
    v.iter().map(|s| s.to_string()).collect()
}

#[test]
fn text_table_aligns_columns() {
    let f = TextFormatter::new(Vec::new(), false, "  ".to_string());
    let out = f.format(&strings(&["name", "age"]), &vec![strings(&["Alice", "30"]), strings(&["Bob", "4"])]).unwrap();
    assert_eq!(out, "\x1b[1mname\x1b[0m   \x1b[1mage\x1b[0m\n----------\nAlice  30\nBob    4");
}

#[test]
fn text_table_omits_fields_and_headers() {
    let f = TextFormatter::new(strings(&["age"]), true, " | ".to_string());
    let out = f.format(&strings(&["name", "age", "city"]), &vec![strings(&["Alice", "30", "Oslo"]), strings(&["Bob", "4", "Rome"])]).unwrap();
    assert_eq!(out, "Alice | Oslo\nBob   | Rome");
}

#[test]
fn text_table_without_rows_is_only_headers() {
    let f = TextFormatter::new(Vec::new(), false, " ".to_string());
    let out = f.format(&strings(&["id"]), &Vec::new()).unwrap();
    assert_eq!(out, "\x1b[1mid\x1b[0m\n--\n");
}

#[test]
fn text_table_rejects_short_rows() {
    let f = TextFormatter::new(Vec::new(), false, " ".to_string());
    assert!(f.format(&strings(&["a", "b"]), &vec![strings(&["only"])]).is_err());
}

#[test]
fn text_table_pads_by_bytes() {
    let f = TextFormatter::new(Vec::new(), true, " | ".to_string());
    let out = f.format(&strings(&["é", "x"]), &vec![strings(&["a", "b"])]).unwrap();
    assert_eq!(out, "a  | b");
}

#[test]
fn text_table_rule_counts_separator_bytes() {
    let f = TextFormatter::new(Vec::new(), false, "│".to_string());
    let out = f.format(&strings(&["a", "b"]), &vec![strings(&["1", "2"])]).unwrap();
    assert_eq!(out, "\x1b[1ma\x1b[0m│\x1b[1mb\x1b[0m\n-----\n1│2");
}
