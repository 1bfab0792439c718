use animal_sounds::text::same_text;
use animal_sounds::{first_line, read_line, FileRead, ReadFileError};

fn line(contents: &str) -> Result<String, ReadFileError> {
    first_line(contents)
}

fn ok(text: &str) -> Result<String, ReadFileError> {
    Ok(text.to_string())
}

#[test]
fn first_line_stops_at_the_line_feed() {
    assert_eq!(line("Dog\n"), ok("Dog"));
    assert_eq!(line("Dog\nCat\n"), ok("Dog"));
    assert_eq!(line("x\ny\nz"), ok("x"));
    assert_eq!(line("one two\tthree\nfour"), ok("one two\tthree"));
}

#[test]
fn contents_without_line_feed_are_one_line() {
    assert_eq!(line("cAT"), ok("cAT"));
    assert_eq!(line("jellyfish"), ok("jellyfish"));
    assert_eq!(line(" "), ok(" "));
    assert_eq!(line("a"), ok("a"));
}

#[test]
fn first_line_is_not_trimmed() {
    assert_eq!(line("  Dog \t\nCat"), ok("  Dog \t"));
    assert_eq!(line("\u{3000}cat\u{a0}\n"), ok("\u{3000}cat\u{a0}"));
}

#[test]
fn empty_contents_have_no_line() {
    assert_eq!(line(""), Err(ReadFileError::WrongFileContents));
}

#[test]
fn an_empty_first_line_is_a_line() {
    assert_eq!(line("\n"), ok(""));
    assert_eq!(line("\ndog"), ok(""));
    assert_eq!(line("\n\n"), ok(""));
    assert_eq!(line("\n\r"), ok(""));
}

#[test]
fn carriage_return_is_kept_in_the_line() {
    assert_eq!(line("Dog\r\n"), ok("Dog\r"));
    assert_eq!(line("Dog\r\nCat\r\n"), ok("Dog\r"));
    assert_eq!(line("\r\n"), ok("\r"));
    assert_eq!(line("Dog\r"), ok("Dog\r"));
    assert_eq!(line("Dog\rCat"), ok("Dog\rCat"));
    assert_eq!(line("Dog\rCat\nBird"), ok("Dog\rCat"));
    assert_eq!(line("\r"), ok("\r"));
}

#[test]
fn first_line_counts_characters_not_bytes() {
    assert_eq!(line("é🐕\nz"), ok("é🐕"));
    assert_eq!(line("日本語\n猫"), ok("日本語"));
    assert_eq!(line("🐕"), ok("🐕"));
    assert_eq!(line("€\n"), ok("€"));
    assert_eq!(line("\u{2028}\n"), ok("\u{2028}"));
}

#[test]
fn first_line_is_what_stands_before_the_first_line_feed() {
    let samples = [
        "\n", "\r", "\r\n", "\n\r", "a", "a\n", "a\r", "a\r\n", "a\n\r", "\ra\n", "a\rb",
        "a\r\rb\n", "ab\ncd", "ab\r\ncd\r\n", "é\nü", "🐕\r", " \n ", "\n\n\n", "a\u{b}b\u{c}c\nd",
    ];
    for contents in samples {
        let expected = contents.split('\n').next().unwrap().to_string();
        assert_eq!(first_line(contents), Ok(expected), "{:?}", contents);
    }
}

#[test]
fn first_line_holds_no_line_feed() {
    for contents in ["a\nb\nc", "\n\n", "abc", "\r\n\r\n", "x\n"] {
        let first = first_line(contents).unwrap();
        assert!(!first.contains('\n'), "{:?}", contents);
        assert!(contents.starts_with(&first), "{:?}", contents);
    }
}

#[test]
fn a_long_first_line_is_kept_whole() {
    let long = "ab".repeat(5000);
    assert_eq!(first_line(&format!("{}\nrest", long)), Ok(long.clone()));
    assert_eq!(first_line(&long), Ok(long));
}

#[test]
fn a_file_that_was_not_opened_cannot_be_read() {
    assert_eq!(read_line(&FileRead::Unopened), Err(ReadFileError::CannotReadFile));
}

#[test]
fn a_file_that_is_not_text_has_wrong_contents() {
    assert_eq!(read_line(&FileRead::Unreadable), Err(ReadFileError::WrongFileContents));
}

#[test]
fn a_file_that_was_read_gives_its_first_line() {
    assert_eq!(read_line(&FileRead::Contents("Dog\nCat".to_string())), ok("Dog"));
    assert_eq!(read_line(&FileRead::Contents("cAT".to_string())), ok("cAT"));
    assert_eq!(read_line(&FileRead::Contents("\nCat".to_string())), ok(""));
    assert_eq!(
        read_line(&FileRead::Contents(String::new())),
        Err(ReadFileError::WrongFileContents)
    );
}

#[test]
fn the_two_errors_differ() {
    assert_ne!(ReadFileError::CannotReadFile, ReadFileError::WrongFileContents);
    assert_eq!(format!("{:?}", ReadFileError::CannotReadFile), "CannotReadFile");
    assert_eq!(format!("{:?}", ReadFileError::WrongFileContents), "WrongFileContents");
}

#[test]
fn same_text_compares_every_character() {
    assert!(same_text("", ""));
    assert!(same_text("dog", "dog"));
    assert!(same_text("é🐕", "é🐕"));
    assert!(!same_text("dog", "dot"));
    assert!(!same_text("dog", "Dog"));
    assert!(!same_text("dog", "do"));
    assert!(!same_text("do", "dog"));
    assert!(!same_text("", " "));
    assert!(!same_text("e\u{301}", "é"));
    assert!(!same_text("🐕", "🐈"));
}
