//! What is reported of the animal that was heard, and the answer to a file.

use crate::animal::{animal_in, get_animal, sound_of, Animal};
use crate::line::{line_chars, line_from, read_line, FileRead, ReadFileError};
use vstd::prelude::*;

verus! {

/// The name of the file that holds the animal, in the working directory.
pub const ANIMAL_FILE: &'static str = "animal.txt";

/// The line that reports what was heard: the sound of the animal, or that
/// there was no animal to hear.
pub open spec fn report_of(heard: Option<Animal>) -> Seq<char> {
    match heard {
        Some(animal) => "I heard: "@ + sound_of(animal) + "!"@,
        None => "I heard nothing"@,
    }
}

/// The answer to a file that was read: the report on the animal that its
/// first line names, or the error that kept the line from being read.
pub open spec fn answer_to(read: FileRead) -> Result<Seq<char>, ReadFileError> {
    match line_from(read) {
        Ok(line) => Ok(report_of(animal_in(line))),
        Err(error) => Err(error),
    }
}

/// The line to print for what was heard.
pub fn report(heard: Option<Animal>) -> (line: String)
    ensures
        line@ == report_of(heard),
{
    match heard {
        Some(animal) => {
            let mut line = "I heard: ".to_owned();
            line.append(animal.sound());
            line.append("!");
            line
        },
        None => "I heard nothing".to_owned(),
    }
}

/// The line to print for a file that was read, or the error to end with.
///
/// An error comes from reading alone. Once a line was read there is a report,
/// whether or not the line names an animal.
pub fn answer(read: &FileRead) -> (out: Result<String, ReadFileError>)
    ensures
        line_chars(out) == answer_to(*read),
{
    match read_line(read) {
        Ok(line) => Ok(report(get_animal(line.as_str()))),
        Err(error) => Err(error),
    }
}

} // verus!
