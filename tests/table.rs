use color_mosaic::table::{read_color_table, ColorText, TableError};

fn text(r: &str, g: &str, b: &str) -> ColorText {
    ColorText { r: r.to_string(), g: g.to_string(), b: b.to_string() }
}

#[test]
fn reads_every_record_without_header() {
    let got = read_color_table(b"0.5,0.25,1\n0.0,0.1,0.2\n").unwrap();
    assert_eq!(got, vec![text("0.5", "0.25", "1"), text("0.0", "0.1", "0.2")]);
}

#[test]
fn empty_table_has_no_records() {
    assert_eq!(read_color_table(b"").unwrap(), Vec::new());
}

#[test]
fn record_with_two_fields_is_refused() {
    assert_eq!(read_color_table(b"0.1,0.2\n").unwrap_err(), TableError::FieldCount { row: 0, found: 2 });
    assert_eq!(
        read_color_table(b"0.1,0.2,0.3,0.4\n0.1,0.2,0.3,0.4\n").unwrap_err(),
        TableError::FieldCount { row: 0, found: 4 }
    );
}

#[test]
fn ragged_records_are_malformed() {
    assert_eq!(read_color_table(b"0.1,0.2,0.3\n0.4,0.5\n").unwrap_err(), TableError::Malformed);
}

#[test]
fn invalid_text_is_malformed() {
    assert_eq!(read_color_table(b"\xff,0.2,0.3\n").unwrap_err(), TableError::Malformed);
}
