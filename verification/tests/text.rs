use modal_editor::text::{
    copy_rows, find_in_row, join_rows, remove_char, rows_fit, splice_char, splice_row, split_row,
    split_text, to_chars,
};

#[test]
fn split_text_at_line_feeds() {
    assert_eq!(split_text("a\nb"), vec!["a", "b"]);
    assert_eq!(split_text("a\nb\n"), vec!["a", "b"]);
    assert_eq!(split_text("a\n\nb"), vec!["a", "", "b"]);
    assert_eq!(split_text("\n"), vec![""]);
    assert_eq!(split_text("\n\n"), vec!["", ""]);
    assert_eq!(split_text(""), Vec::<String>::new());
    assert_eq!(split_text("no feed"), vec!["no feed"]);
    assert_eq!(split_text("\nx"), vec!["", "x"]);
}

#[test]
fn join_rows_with_line_feeds() {
    assert_eq!(join_rows(&vec!["a".to_string(), "b".to_string()]), "a\nb");
    assert_eq!(join_rows(&vec!["a".to_string()]), "a");
    assert_eq!(join_rows(&vec!["a".to_string(), String::new()]), "a\n");
    assert_eq!(join_rows(&vec![String::new(), "b".to_string()]), "\nb");
    assert_eq!(join_rows(&Vec::new()), "");
}

#[test]
fn join_then_split_gives_the_rows_back() {
    let rows = vec!["one".to_string(), String::new(), "thrée".to_string()];
    assert_eq!(split_text(&join_rows(&rows)), rows);
}

#[test]
fn splice_by_characters() {
    assert_eq!(splice_row("abcd", 2, "XY"), "abXYcd");
    assert_eq!(splice_row("abcd", 0, "XY"), "XYabcd");
    assert_eq!(splice_row("abcd", 4, "XY"), "abcdXY");
    assert_eq!(splice_row("äö", 1, "ü"), "äüö");
    assert_eq!(splice_row("", 0, ""), "");
    assert_eq!(splice_char("ab", 1, '-'), "a-b");
    assert_eq!(splice_char("", 0, 'x'), "x");
    assert_eq!(splice_char("äö", 2, 'ü'), "äöü");
}

#[test]
fn remove_and_split_by_characters() {
    assert_eq!(remove_char("abc", 1), "ac");
    assert_eq!(remove_char("äöü", 2), "äö");
    assert_eq!(remove_char("x", 0), "");
    assert_eq!(split_row("hello", 3), ("hel".to_string(), "lo".to_string()));
    assert_eq!(split_row("hello", 0), (String::new(), "hello".to_string()));
    assert_eq!(split_row("äöü", 3), ("äöü".to_string(), String::new()));
}

#[test]
fn find_gives_the_first_column() {
    assert_eq!(find_in_row("abcabc", "bc"), Some(1));
    assert_eq!(find_in_row("abcabc", "abc"), Some(0));
    assert_eq!(find_in_row("abcabc", "cab"), Some(2));
    assert_eq!(find_in_row("abcabc", "abcabc"), Some(0));
    assert_eq!(find_in_row("abcabc", "abcabcd"), None);
    assert_eq!(find_in_row("abcabc", "x"), None);
    assert_eq!(find_in_row("aab", "ab"), Some(1));
    assert_eq!(find_in_row("äöüö", "ö"), Some(1));
    assert_eq!(find_in_row("", ""), Some(0));
    assert_eq!(find_in_row("abc", ""), Some(0));
    assert_eq!(find_in_row("", "a"), None);
}

#[test]
fn characters_and_copies() {
    assert_eq!(to_chars("aä"), vec!['a', 'ä']);
    assert_eq!(to_chars(""), Vec::<char>::new());
    let rows = vec!["x".to_string(), "y".to_string()];
    assert_eq!(copy_rows(&rows), rows);
}

#[test]
fn ordinary_rows_fit() {
    assert!(rows_fit(&[]));
    assert!(rows_fit(&["abc".to_string(), String::new()]));
}
