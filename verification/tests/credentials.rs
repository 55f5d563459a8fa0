use telegram_relay::credentials::{is_valid_token, split_spaces, trim_text, CredentialSet};

fn tokens(set: &CredentialSet) -> Vec<String> {
    let mut all = Vec::new();
    let mut i = 0;
    while let Some(token) = set.token(i) {
        all.push(token.to_string());
        i += 1;
    }
    assert_eq!(all.len(), set.len());
    all
}

#[test]
fn parse_reads_tokens_in_order() {
    let set = CredentialSet::parse("alpha beta gamma");
    assert_eq!(tokens(&set), vec!["alpha", "beta", "gamma"]);
}

#[test]
fn parse_drops_empty_pieces() {
    let set = CredentialSet::parse("  alpha   beta  ");
    assert_eq!(tokens(&set), vec!["alpha", "beta"]);
}

#[test]
fn parse_of_nothing_is_empty() {
    assert_eq!(CredentialSet::parse("").len(), 0);
    assert_eq!(CredentialSet::parse(" ").len(), 0);
    assert_eq!(CredentialSet::parse("\t \n").len(), 0);
}

#[test]
fn parse_trims_each_piece() {
    let set = CredentialSet::parse("\talpha\n beta\r\n");
    assert_eq!(tokens(&set), vec!["alpha", "beta"]);
}

#[test]
fn parse_trims_white_space_beyond_ascii() {
    let set = CredentialSet::parse("\u{a0}alpha\u{2003} \u{3000}");
    assert_eq!(tokens(&set), vec!["alpha"]);
}

#[test]
fn parse_parts_at_spaces_only() {
    let set = CredentialSet::parse("alpha\tbeta gamma");
    assert_eq!(tokens(&set), vec!["alpha\tbeta", "gamma"]);
}

#[test]
fn parse_keeps_a_token_that_comes_twice() {
    let set = CredentialSet::parse("alpha alpha");
    assert_eq!(tokens(&set), vec!["alpha", "alpha"]);
}

#[test]
fn parse_of_one_token() {
    let set = CredentialSet::parse("alpha");
    assert_eq!(tokens(&set), vec!["alpha"]);
    assert_eq!(set.token(1), None);
}

#[test]
fn from_tokens_takes_valid_tokens() {
    let set = CredentialSet::from_tokens(vec!["alpha".to_string(), "beta".to_string()]).unwrap();
    assert_eq!(tokens(&set), vec!["alpha", "beta"]);
    let none = CredentialSet::from_tokens(Vec::new()).unwrap();
    assert_eq!(none.len(), 0);
}

#[test]
fn from_tokens_refuses_an_empty_token() {
    assert!(CredentialSet::from_tokens(vec!["alpha".to_string(), String::new()]).is_none());
}

#[test]
fn from_tokens_refuses_a_token_with_a_space() {
    assert!(CredentialSet::from_tokens(vec!["al pha".to_string()]).is_none());
    assert!(CredentialSet::from_tokens(vec!["alpha".to_string(), "Bearer x".to_string()]).is_none());
}

#[test]
fn is_valid_token_is_membership() {
    let set = CredentialSet::parse("alpha beta");
    assert!(is_valid_token(&set, "alpha"));
    assert!(is_valid_token(&set, "beta"));
    assert!(!is_valid_token(&set, "gamma"));
    assert!(!is_valid_token(&set, "alph"));
    assert!(!is_valid_token(&set, "alphabeta"));
    assert!(!is_valid_token(&set, "Alpha"));
    assert!(!is_valid_token(&set, ""));
    assert!(!is_valid_token(&set, "alpha beta"));
}

#[test]
fn split_spaces_gives_one_piece_more_than_spaces() {
    assert_eq!(split_spaces(""), vec![""]);
    assert_eq!(split_spaces("alpha"), vec!["alpha"]);
    assert_eq!(split_spaces("a b"), vec!["a", "b"]);
    assert_eq!(split_spaces("a  b"), vec!["a", "", "b"]);
    assert_eq!(split_spaces(" a "), vec!["", "a", ""]);
    assert_eq!(split_spaces("  "), vec!["", "", ""]);
    assert_eq!(split_spaces("a\tb c"), vec!["a\tb", "c"]);
}

#[test]
fn split_spaces_agrees_with_the_standard_split() {
    for line in ["", " ", "a", "a b c", "  lead", "trail  ", "ü ✓ \u{a0}x", "a\nb c\t"] {
        let expected: Vec<String> = line.split(' ').map(|piece| piece.to_string()).collect();
        assert_eq!(split_spaces(line), expected);
    }
}

#[test]
fn trim_text_takes_white_space_from_both_ends() {
    assert_eq!(trim_text("  alpha  "), "alpha");
    assert_eq!(trim_text("\t\nalpha beta\r\n"), "alpha beta");
    assert_eq!(trim_text("alpha"), "alpha");
    assert_eq!(trim_text(""), "");
    assert_eq!(trim_text(" \t "), "");
    assert_eq!(trim_text("\u{a0}é\u{2003}"), "é");
}

#[test]
fn trim_text_agrees_with_the_standard_trim() {
    for s in ["", " a", "a ", " a b ", "\u{85}x\u{1680}", "\u{200b}x", "x\u{feff}", "\u{2028}\u{2029}"] {
        assert_eq!(trim_text(s), s.trim());
    }
}

#[test]
fn parse_agrees_with_split_trim_and_filter() {
    for line in ["", "a", " a  b ", "\ta \nb", "x\u{a0} \u{a0} y", "one two three four"] {
        let expected: Vec<String> = line
            .split(' ')
            .map(|piece| piece.trim().to_string())
            .filter(|piece| !piece.is_empty())
            .collect();
        assert_eq!(tokens(&CredentialSet::parse(line)), expected);
    }
}
