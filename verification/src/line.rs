//! The first line of a file's contents.
//!
//! The first line is what stands before the first line feed; contents
//! without a line feed are one line. Nothing is trimmed from the line: a
//! carriage return before the line feed stays in it, as white space at its
//! end. Contents without any character hold no line at all.

use vstd::prelude::*;
use vstd::std_specs::iter::IteratorSpec;

verus! {

/// Why no line could be had from a file.
#[derive(Debug, Clone, Copy, PartialEq, Eq, Structural)]
pub enum ReadFileError {
    /// The file could not be opened.
    CannotReadFile,
    /// The file was opened, but it holds no text, or no line.
    WrongFileContents,
}

/// What came of the attempt to read a file as text.
#[derive(Debug)]
pub enum FileRead {
    /// The file could not be opened.
    Unopened,
    /// The file was opened, but what it holds could not be read as text.
    Unreadable,
    /// The file was read to its end: the text that it holds.
    Contents(String),
}

/// Whether `end` is where the first line of `s` stops: no line feed stands
/// before it, and one stands at it unless `s` is over there.
pub open spec fn is_line_end(s: Seq<char>, end: int) -> bool {
    &&& 0 <= end <= s.len()
    &&& forall|i: int| 0 <= i < end ==> s[i] != '\n'
    &&& end < s.len() ==> s[end] == '\n'
}

/// The number of characters of `s` that stand before its first line feed:
/// all of them where it has none.
pub open spec fn line_end(s: Seq<char>) -> nat
    decreases s.len(),
{
    if s.len() == 0 || s[0] == '\n' {
        0
    } else {
        1 + line_end(s.drop_first())
    }
}

/// The first line of `s`: what stands before its first line feed, and all
/// of `s` where it has none.
pub open spec fn first_line_of(s: Seq<char>) -> Seq<char> {
    s.take(line_end(s) as int)
}

/// What reading the first line of `s` gives: the line, or the error for
/// contents without a line.
pub open spec fn line_in(s: Seq<char>) -> Result<Seq<char>, ReadFileError> {
    if s.len() == 0 {
        Err(ReadFileError::WrongFileContents)
    } else {
        Ok(first_line_of(s))
    }
}

/// The characters of a line that was read, or the error that came instead.
pub open spec fn line_chars(line: Result<String, ReadFileError>) -> Result<
    Seq<char>,
    ReadFileError,
> {
    match line {
        Ok(text) => Ok(text@),
        Err(error) => Err(error),
    }
}

/// What a file that was read gives: the first line of its contents, or the
/// error that says at which step no line was to be had.
pub open spec fn line_from(read: FileRead) -> Result<Seq<char>, ReadFileError> {
    match read {
        FileRead::Unopened => Err(ReadFileError::CannotReadFile),
        FileRead::Unreadable => Err(ReadFileError::WrongFileContents),
        FileRead::Contents(contents) => line_in(contents@),
    }
}

/// `line_end` is the one place where the first line stops.
pub proof fn lemma_line_end(s: Seq<char>, end: int)
    ensures
        is_line_end(s, line_end(s) as int),
        is_line_end(s, end) ==> end == line_end(s),
    decreases s.len(),
{
    if s.len() == 0 || s[0] == '\n' {
    } else {
        let rest = s.drop_first();
        lemma_line_end(rest, end - 1);
        let inner = line_end(rest) as int;
        assert forall|i: int| 0 <= i < inner + 1 implies s[i] != '\n' by {
            if i > 0 {
                assert(s[i] == rest[i - 1]);
            }
        }
        if is_line_end(s, end) {
            assert(end > 0);
            assert forall|i: int| 0 <= i < end - 1 implies rest[i] != '\n' by {
                assert(rest[i] == s[i + 1]);
            }
            assert(is_line_end(rest, end - 1));
        }
    }
}

/// The first line of a file's contents, as a string of its own.
///
/// Contents without any character have no line, which is an error. A line
/// may be empty: contents that begin with a line feed have the empty line as
/// their first.
pub fn first_line(contents: &str) -> (line: Result<String, ReadFileError>)
    ensures
        line_chars(line) == line_in(contents@),
{
    let len = contents.unicode_len();
    if len == 0 {
        return Err(ReadFileError::WrongFileContents);
    }
    let mut chars = contents.chars();
    let mut end: usize = 0;
    while end < len
        invariant_except_break
            chars.remaining() == contents@.skip(end as int),
        invariant
            len == contents@.len(),
            end <= len,
            forall|i: int| 0 <= i < end ==> contents@[i] != '\n',
        ensures
            is_line_end(contents@, end as int),
        decreases len - end,
    {
        broadcast use vstd::string::next_postcondition;

        let next = chars.next();
        assert(next == Some(contents@[end as int]));
        if next == Some('\n') {
            break;
        }
        assert(contents@.skip(end as int).drop_first() =~= contents@.skip(end + 1));
        end += 1;
    }
    proof {
        lemma_line_end(contents@, end as int);
    }
    Ok(contents.substring_char(0, end).to_owned())
}

/// The line that a file gives, once the attempt to read it has been made: the
/// first line of its contents, or the error for the step that failed.
pub fn read_line(read: &FileRead) -> (line: Result<String, ReadFileError>)
    ensures
        line_chars(line) == line_from(*read),
{
    match read {
        FileRead::Unopened => Err(ReadFileError::CannotReadFile),
        FileRead::Unreadable => Err(ReadFileError::WrongFileContents),
        FileRead::Contents(contents) => first_line(contents.as_str()),
    }
}

} // verus!
