use unknproject::text::{
    concat2, concat3, remove_newlines, rewrap_words, str_eq, str_eq_ignore_ascii_case,
    str_starts_with, split_words,
};

#[test]
fn equality_is_by_contents() {
    assert!(str_eq("cs2.exe", "cs2.exe"));
    assert!(!str_eq("cs2.exe", "csgo.exe"));
    assert!(str_eq("", ""));
}

#[test]
fn prefix_test() {
    assert!(str_starts_with("CS:GO Legacy", "CS:GO"));
    assert!(str_starts_with("CS:GO", "CS:GO"));
    assert!(!str_starts_with("CS:G", "CS:GO"));
    assert!(!str_starts_with("a CS:GO", "CS:GO"));
    assert!(str_starts_with("anything", ""));
}

#[test]
fn concatenation() {
    assert_eq!(concat2("SUCCESS: ", "Foo"), "SUCCESS: Foo");
    assert_eq!(concat3("Process '", "bar.exe", "' not found."), "Process 'bar.exe' not found.");
}

#[test]
fn case_insensitive_equality_folds_ascii_letters_only() {
    assert!(str_eq_ignore_ascii_case("CS2.EXE", "cs2.exe"));
    assert!(str_eq_ignore_ascii_case("Cs2.ExE", "cS2.eXe"));
    assert!(!str_eq_ignore_ascii_case("cs2.exe", "csgo.exe"));
    assert!(!str_eq_ignore_ascii_case("cs2.exe", "cs2.exe "));
}

#[test]
fn newlines_are_collapsed_and_nothing_else() {
    assert_eq!(remove_newlines("mapping\nfailed\n"), "mappingfailed");
    assert_eq!(remove_newlines("no newline"), "no newline");
    assert_eq!(remove_newlines("\n\n"), "");
    assert_eq!(remove_newlines("a\r\nb"), "a\rb");
}

#[test]
fn words_split_on_any_whitespace_run() {
    assert_eq!(split_words("a  b\tc\nd"), vec!["a", "b", "c", "d"]);
    assert_eq!(split_words("   "), Vec::<String>::new());
    assert_eq!(split_words("one"), vec!["one"]);
}

#[test]
fn rewrap_lays_out_seven_words_per_line() {
    let text = "one two three four five six seven eight nine";
    assert_eq!(
        rewrap_words(text, 7),
        "one two three four five six seven\neight nine"
    );
}

#[test]
fn rewrap_keeps_short_text_on_one_line() {
    assert_eq!(rewrap_words("just a few words", 7), "just a few words");
    assert_eq!(rewrap_words("", 7), "");
}

#[test]
fn rewrap_normalises_the_whitespace_between_words() {
    assert_eq!(rewrap_words("a   b \n c", 2), "a b\nc");
}
