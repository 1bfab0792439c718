//! The animals that can be heard: their names, their sounds, and how text
//! names one of them.

use crate::text::{
    is_blank, is_casing_of, is_small_letters, lemma_casing_lowercased, lemma_lowercased_casing,
    lemma_trimmed_of, lemma_trimmed_parts, lowercase, normal_form, same_text, trim, trimmed,
};
use vstd::prelude::*;
use vstd::utf8::is_ascii_chars;

verus! {

/// An animal that the library knows.
#[derive(Debug, Clone, Copy, PartialEq, Eq, Structural)]
pub enum Animal {
    Dog,
    Cat,
    Jellyfish,
}

/// The name of an animal, in small letters.
pub open spec fn name_of(animal: Animal) -> Seq<char> {
    match animal {
        Animal::Dog => "dog"@,
        Animal::Cat => "cat"@,
        Animal::Jellyfish => "jellyfish"@,
    }
}

/// The sound that an animal makes. A jellyfish makes none, which is heard
/// as silence.
pub open spec fn sound_of(animal: Animal) -> Seq<char> {
    match animal {
        Animal::Dog => "woof"@,
        Animal::Cat => "meow"@,
        Animal::Jellyfish => "silence"@,
    }
}

/// The animal whose name is exactly `name`, if there is one.
pub open spec fn animal_named(name: Seq<char>) -> Option<Animal> {
    if name == name_of(Animal::Dog) {
        Some(Animal::Dog)
    } else if name == name_of(Animal::Cat) {
        Some(Animal::Cat)
    } else if name == name_of(Animal::Jellyfish) {
        Some(Animal::Jellyfish)
    } else {
        None
    }
}

/// Whether `text` is `word` with white space before and after it, and `word`
/// is a casing of `name`.
pub open spec fn is_written(
    text: Seq<char>,
    name: Seq<char>,
    before: Seq<char>,
    word: Seq<char>,
    after: Seq<char>,
) -> bool {
    &&& text == before + word + after
    &&& is_blank(before)
    &&& is_blank(after)
    &&& is_casing_of(word, name)
}

/// Whether `text` writes `name`: in some casing, with any white space, or
/// none, around it.
pub open spec fn writes(text: Seq<char>, name: Seq<char>) -> bool {
    exists|before: Seq<char>, word: Seq<char>, after: Seq<char>|
        is_written(text, name, before, word, after)
}

/// The animal that `text` names, if it names one: the animal whose name is
/// the normal form of `text`.
pub open spec fn animal_in(text: Seq<char>) -> Option<Animal> {
    animal_named(normal_form(text))
}

/// Every animal has a name of its own, made of small letters.
pub proof fn lemma_names(animal: Animal, other: Animal)
    ensures
        name_of(animal).len() > 0,
        is_small_letters(name_of(animal)),
        name_of(animal) == name_of(other) ==> animal == other,
        animal_named(name_of(animal)) == Some(animal),
{
    reveal_strlit("dog");
    reveal_strlit("cat");
    reveal_strlit("jellyfish");
    assert("dog"@[0] != "cat"@[0]);
}

/// Text names an animal exactly when its normal form is that animal's name,
/// and names none exactly when its normal form is no animal's name.
pub proof fn lemma_animal_in(text: Seq<char>, animal: Animal)
    ensures
        animal_in(text) == Some(animal) <==> normal_form(text) == name_of(animal),
        animal_in(text) is None <==> forall|any: Animal| normal_form(text) != name_of(any),
{
    lemma_names(Animal::Dog, Animal::Cat);
    lemma_names(Animal::Dog, Animal::Jellyfish);
    lemma_names(Animal::Cat, Animal::Jellyfish);
}

/// Text writes a name of small letters exactly when the trimmed form of the
/// text is a casing of the name.
pub proof fn lemma_writes(text: Seq<char>, name: Seq<char>)
    requires
        is_small_letters(name),
    ensures
        writes(text, name) <==> is_casing_of(trimmed(text), name),
{
    if writes(text, name) {
        let (before, word, after) = choose|before: Seq<char>, word: Seq<char>, after: Seq<char>|
            is_written(text, name, before, word, after);
        if word.len() > 0 {
            assert('a' <= name[0] <= 'z');
            assert('a' <= name[name.len() - 1] <= 'z');
        }
        lemma_trimmed_of(before, word, after);
    }
    if is_casing_of(trimmed(text), name) {
        let (before, after) = lemma_trimmed_parts(text);
        assert(is_written(text, name, before, trimmed(text), after));
    }
}

/// Text that writes an animal's name, in any casing and with any white space
/// around it, names that animal.
pub proof fn lemma_written_name_is_heard(text: Seq<char>, animal: Animal)
    requires
        writes(text, name_of(animal)),
    ensures
        animal_in(text) == Some(animal),
{
    lemma_names(animal, animal);
    lemma_writes(text, name_of(animal));
    lemma_lowercased_casing(trimmed(text), name_of(animal));
}

/// Among the texts that are ASCII between the white space around them, an
/// animal is named by the texts that write its name and by no other.
pub proof fn lemma_heard_only_if_written(text: Seq<char>, animal: Animal)
    requires
        is_ascii_chars(trimmed(text)),
    ensures
        animal_in(text) == Some(animal) <==> writes(text, name_of(animal)),
{
    lemma_names(animal, animal);
    lemma_animal_in(text, animal);
    lemma_writes(text, name_of(animal));
    if is_casing_of(trimmed(text), name_of(animal)) {
        lemma_lowercased_casing(trimmed(text), name_of(animal));
    }
    if normal_form(text) == name_of(animal) {
        lemma_casing_lowercased(trimmed(text), name_of(animal));
    }
}

/// Text that is ASCII between the white space around it, and that writes no
/// animal's name, names no animal.
pub proof fn lemma_unwritten_is_unheard(text: Seq<char>)
    requires
        is_ascii_chars(trimmed(text)),
        forall|any: Animal| !writes(text, name_of(any)),
    ensures
        animal_in(text) is None,
{
    if animal_in(text) is Some {
        lemma_heard_only_if_written(text, animal_in(text)->Some_0);
    }
}

/// The animal that text names depends on the characters of the text alone:
/// the same text names the same animal, wherever and whenever it is asked.
pub proof fn lemma_same_text_same_animal(a: &str, b: &str)
    requires
        a@ == b@,
    ensures
        animal_in(a@) == animal_in(b@),
{
}

impl Animal {
    /// The animal whose name is exactly `name`: letter for letter, in small
    /// letters, with nothing around it.
    pub fn from_name(name: &str) -> (animal: Option<Animal>)
        ensures
            animal == animal_named(name@),
    {
        if same_text(name, "dog") {
            Some(Animal::Dog)
        } else if same_text(name, "cat") {
            Some(Animal::Cat)
        } else if same_text(name, "jellyfish") {
            Some(Animal::Jellyfish)
        } else {
            None
        }
    }

    /// The sound that the animal makes.
    pub fn sound(self) -> (sound: &'static str)
        ensures
            sound@ == sound_of(self),
    {
        match self {
            Animal::Dog => "woof",
            Animal::Cat => "meow",
            Animal::Jellyfish => "silence",
        }
    }
}

/// The animal that `text` names, whatever the case of its letters and
/// whatever white space stands around it; `None` for any other text.
pub fn get_animal(text: &str) -> (animal: Option<Animal>)
    ensures
        animal == animal_in(text@),
{
    let name = lowercase(trim(text));
    Animal::from_name(name.as_str())
}

} // verus!
