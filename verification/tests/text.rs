use skinner::text::{comes_first, same_text, trim};

#[test]
fn same_text_compares_characters() {
    assert!(same_text("off", "off"));
    assert!(!same_text("off", "of"));
    assert!(!same_text("off", "Off"));
    assert!(same_text("", ""));
}

#[test]
fn trim_removes_surrounding_white_space() {
    assert_eq!(trim("  solar\n"), "solar");
    assert_eq!(trim("\tso lar \r\n"), "so lar");
    assert_eq!(trim("solar"), "solar");
}

#[test]
fn trim_of_white_space_is_empty() {
    assert_eq!(trim(" \n\t "), "");
    assert_eq!(trim(""), "");
}

#[test]
fn trim_knows_white_space_beyond_ascii() {
    assert_eq!(trim("\u{a0}\u{2003}d\u{e9}j\u{e0}\u{3000}"), "d\u{e9}j\u{e0}");
}

#[test]
fn trim_agrees_with_std() {
    let samples: [&str; 6] = ["", " a", "a ", " a b ", "\n\n", "\u{2028}x\u{85}"];
    for sample in samples {
        assert_eq!(trim(sample), sample.trim());
    }
}

#[test]
fn dictionary_order_compares_by_character() {
    assert!(comes_first("abc", "abd"));
    assert!(!comes_first("abd", "abc"));
    assert!(comes_first("abc", "abc"));
}

#[test]
fn a_prefix_comes_first() {
    assert!(comes_first("", "a"));
    assert!(comes_first("sol", "solar"));
    assert!(!comes_first("solar", "sol"));
    assert!(comes_first("", ""));
}

#[test]
fn upper_case_comes_before_lower_case() {
    assert!(comes_first("Zebra", "apple"));
    assert!(!comes_first("apple", "Zebra"));
}

#[test]
fn dictionary_order_agrees_with_std() {
    let samples: [&str; 8] = ["", "a", "b", "ab", "B", "\u{e9}", "z", "\u{1f600}"];
    for left in samples {
        for right in samples {
            assert_eq!(comes_first(left, right), left <= right);
        }
    }
}
