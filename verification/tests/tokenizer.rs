use election_results::tokenize::tokenize_line;

fn chars_of(s: &str) -> Vec<char> {
    s.chars().collect()
}

fn fields(s: &str) -> Vec<String> {
    tokenize_line(&chars_of(s))
}

#[test]
fn quoted_comma_stays_in_field() {
    let got = fields("Alpha, \"Beta, Gamma\",12");
    assert_eq!(got, vec!["Alpha".to_string(), "Beta, Gamma".to_string(), "12".to_string()]);
}

#[test]
fn trailing_separator_drops_empty_field() {
    let got = fields("A,B,");
    assert_eq!(got, vec!["A".to_string(), "B".to_string()]);
}

#[test]
fn inner_empty_field_is_kept() {
    let got = fields("A,,B");
    assert_eq!(got, vec!["A".to_string(), "".to_string(), "B".to_string()]);
}

#[test]
fn fields_are_trimmed() {
    let got = fields("  A  ,\tB\t, C");
    assert_eq!(got, vec!["A".to_string(), "B".to_string(), "C".to_string()]);
}

#[test]
fn unclosed_quote_swallows_separator() {
    let got = fields("\"A,B");
    assert_eq!(got, vec!["A,B".to_string()]);
}

#[test]
fn trailing_space_field_becomes_empty_but_is_emitted() {
    let got = fields("A,B, ");
    assert_eq!(got, vec!["A".to_string(), "B".to_string(), "".to_string()]);
}

#[test]
fn non_ascii_text_passes_through() {
    let got = fields("Caf\u{e9},12");
    assert_eq!(got, vec!["Caf\u{e9}".to_string(), "12".to_string()]);
}
