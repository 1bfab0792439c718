use animal_sounds::{answer, get_animal, report, Animal, FileRead, ReadFileError, ANIMAL_FILE};

fn file(contents: &str) -> FileRead {
    FileRead::Contents(contents.to_string())
}

fn printed(text: &str) -> Result<String, ReadFileError> {
    Ok(text.to_string())
}

#[test]
fn the_animal_is_looked_for_in_one_file() {
    assert_eq!(ANIMAL_FILE, "animal.txt");
}

#[test]
fn each_animal_has_its_sound() {
    assert_eq!(Animal::Dog.sound(), "woof");
    assert_eq!(Animal::Cat.sound(), "meow");
    assert_eq!(Animal::Jellyfish.sound(), "silence");
}

#[test]
fn report_says_what_was_heard() {
    assert_eq!(report(Some(Animal::Dog)), "I heard: woof!");
    assert_eq!(report(Some(Animal::Cat)), "I heard: meow!");
    assert_eq!(report(Some(Animal::Jellyfish)), "I heard: silence!");
    assert_eq!(report(None), "I heard nothing");
}

#[test]
fn report_is_built_around_the_sound() {
    for animal in [Animal::Dog, Animal::Cat, Animal::Jellyfish] {
        assert_eq!(report(Some(animal)), format!("I heard: {}!", animal.sound()));
    }
}

#[test]
fn a_file_with_dog_and_a_line_feed_answers_woof() {
    assert_eq!(answer(&file("Dog\n")), printed("I heard: woof!"));
}

#[test]
fn a_file_with_cat_in_mixed_case_answers_meow() {
    assert_eq!(answer(&file("cAT")), printed("I heard: meow!"));
}

#[test]
fn a_file_with_jellyfish_answers_silence() {
    assert_eq!(answer(&file("jellyfish")), printed("I heard: silence!"));
}

#[test]
fn a_file_with_dolphin_answers_nothing() {
    assert_eq!(answer(&file("dolphin")), printed("I heard nothing"));
}

#[test]
fn a_missing_file_is_an_error() {
    assert_eq!(answer(&FileRead::Unopened), Err(ReadFileError::CannotReadFile));
}

#[test]
fn an_empty_file_is_an_error() {
    assert_eq!(answer(&file("")), Err(ReadFileError::WrongFileContents));
}

#[test]
fn a_file_that_is_not_text_is_an_error() {
    assert_eq!(answer(&FileRead::Unreadable), Err(ReadFileError::WrongFileContents));
}

#[test]
fn only_the_first_line_is_heard() {
    assert_eq!(answer(&file("dolphin\ndog\n")), printed("I heard nothing"));
    assert_eq!(answer(&file("cat\ndog\n")), printed("I heard: meow!"));
    assert_eq!(answer(&file("\ndog\n")), printed("I heard nothing"));
    assert_eq!(answer(&file("  JellyFish \r\ndog")), printed("I heard: silence!"));
}

#[test]
fn an_empty_first_line_is_answered_not_refused() {
    assert_eq!(answer(&file("\n")), printed("I heard nothing"));
    assert_eq!(answer(&file("\r\n")), printed("I heard nothing"));
    assert_eq!(answer(&file(" ")), printed("I heard nothing"));
}

#[test]
fn answer_is_the_report_on_the_first_line() {
    for contents in ["Dog\n", "cAT", "jellyfish", "dolphin", "\n", "DOG\r\ncat", "🐕\n"] {
        let line = contents.split('\n').next().unwrap();
        assert_eq!(answer(&file(contents)), Ok(report(get_animal(line))), "{:?}", contents);
    }
}
