use astrorust::readable::convert_to_readable;

#[test]
fn segment_label_becomes_title_case() {
    assert_eq!(
        convert_to_readable("MERCURY_BARYCENTER"),
        "Mercury Barycenter"
    );
}

#[test]
fn lowercase_words_are_capitalized() {
    assert_eq!(
        convert_to_readable("mercury barycenter"),
        "Mercury Barycenter"
    );
}

#[test]
fn empty_input_stays_empty() {
    assert_eq!(convert_to_readable(""), "");
}

#[test]
fn separator_runs_collapse_and_edges_are_trimmed() {
    assert_eq!(convert_to_readable("__a__b__"), "A B");
    assert_eq!(convert_to_readable("  hello \t WORLD  "), "Hello World");
}

#[test]
fn single_word_is_capitalized() {
    assert_eq!(convert_to_readable("EARTH"), "Earth");
    assert_eq!(convert_to_readable("earth"), "Earth");
}

#[test]
fn non_letters_pass_through() {
    assert_eq!(convert_to_readable("de405.bsp"), "De405.bsp");
    assert_eq!(convert_to_readable("a_b_c"), "A B C");
}

#[test]
fn only_separators_yield_nothing() {
    assert_eq!(convert_to_readable("___ \t "), "");
}

#[test]
fn case_folding_is_unicode() {
    assert_eq!(convert_to_readable("äb"), "Äb");
    assert_eq!(convert_to_readable("ÄÖÜ"), "Äöü");
}

#[test]
fn uppercase_mapping_may_widen() {
    // The sharp s uppercases to two characters.
    assert_eq!(convert_to_readable("ßeta"), "SSeta");
}

#[test]
fn all_whitespace_separates() {
    assert_eq!(convert_to_readable("a\u{000B}b"), "A B");
    assert_eq!(convert_to_readable("a\u{000C}b"), "A B");
    assert_eq!(convert_to_readable("a\u{00A0}b"), "A B");
    assert_eq!(convert_to_readable("\u{2003}x\u{2003}"), "X");
}
