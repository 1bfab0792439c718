//! Hearing animals: a line of text names an animal, and the animal makes a sound.
//!
//! The library holds everything that is decided on the way from the contents
//! of a file to the line that is printed. Reading the file and printing the
//! line are left to the program that uses it.

pub mod animal;
pub mod line;
pub mod report;
pub mod text;

pub use animal::{get_animal, Animal};
pub use line::{first_line, read_line, FileRead, ReadFileError};
pub use report::{answer, report, ANIMAL_FILE};
