use statsdump::{csv_encode_field, csv_encode_line, i64_to_dec, join_with, u128_to_dec, u64_to_dec};

fn csv_crate_line(fields: &[&str]) -> String {
    let mut wtr = csv::WriterBuilder::new().has_headers(false).from_writer(Vec::new());
    wtr.write_record(fields).unwrap();
    String::from_utf8(wtr.into_inner().unwrap()).unwrap()
}

#[test]
fn decimal_rendering_exact() {
    assert_eq!(u64_to_dec(0), "0");
    assert_eq!(u64_to_dec(7), "7");
    assert_eq!(u64_to_dec(1024), "1024");
    assert_eq!(u64_to_dec(u64::MAX), "18446744073709551615");
    assert_eq!(u128_to_dec(1699999999999), "1699999999999");
    assert_eq!(i64_to_dec(-1), "-1");
    assert_eq!(i64_to_dec(0), "0");
    assert_eq!(i64_to_dec(i64::MIN), "-9223372036854775808");
    assert_eq!(i64_to_dec(i64::MAX), "9223372036854775807");
}

#[test]
fn join_with_separators() {
    let none: Vec<String> = vec![];
    assert_eq!(join_with(&none, ' '), "");
    assert_eq!(join_with(&vec!["one".to_string()], ';'), "one");
    assert_eq!(
        join_with(&vec!["rw".to_string(), "relatime".to_string()], ';'),
        "rw;relatime"
    );
    assert_eq!(
        join_with(&vec!["a".to_string(), "b".to_string(), "c".to_string()], ' '),
        "a b c"
    );
}

#[test]
fn plain_field_is_verbatim() {
    assert_eq!(csv_encode_field("plain"), "plain");
    assert_eq!(csv_encode_field(""), "");
}

#[test]
fn special_fields_are_quoted_and_escaped() {
    assert_eq!(csv_encode_field("a,b"), "\"a,b\"");
    assert_eq!(csv_encode_field("a\"b"), "\"a\"\"b\"");
    assert_eq!(csv_encode_field("line\nbreak"), "\"line\nbreak\"");
    assert_eq!(csv_encode_field("\r"), "\"\r\"");
    assert_eq!(csv_encode_field("\""), "\"\"\"\"");
}

#[test]
fn line_is_comma_joined_and_terminated() {
    let fields = vec!["a".to_string(), "b,c".to_string(), "".to_string(), "d".to_string()];
    assert_eq!(csv_encode_line(&fields), "a,\"b,c\",,d\n");
}

#[test]
fn line_matches_reference_writer_plain() {
    let fields = ["localhost", "1699999999999", "16384", "1024"];
    let ours = csv_encode_line(&fields.iter().map(|s| s.to_string()).collect::<Vec<String>>());
    assert_eq!(ours, csv_crate_line(&fields));
}

#[test]
fn line_matches_reference_writer_escaped() {
    let fields = ["/dev/disk/by-label/x,y", "quote\"inside", "tab\tkept", "nl\ninside", ""];
    let ours = csv_encode_line(&fields.iter().map(|s| s.to_string()).collect::<Vec<String>>());
    assert_eq!(ours, csv_crate_line(&fields));
}

#[test]
fn line_matches_reference_writer_unicode() {
    let fields = ["caf\u{e9}", "\u{4e2d}\u{6587},x", "emoji \u{1f600}"];
    let ours = csv_encode_line(&fields.iter().map(|s| s.to_string()).collect::<Vec<String>>());
    assert_eq!(ours, csv_crate_line(&fields));
}
