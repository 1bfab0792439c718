//! Text as a sequence of characters: comparison, white space, letter case.

use vstd::prelude::*;
use vstd::utf8::{encode_utf8, encode_utf8_decode_utf8, is_ascii_chars};

verus! {

/// Whether `c` is white space: one of the characters that Unicode gives the
/// property `White_Space`.
pub open spec fn is_white_space(c: char) -> bool {
    ||| '\u{9}' <= c <= '\u{d}'
    ||| c == ' '
    ||| c == '\u{85}'
    ||| c == '\u{a0}'
    ||| c == '\u{1680}'
    ||| '\u{2000}' <= c <= '\u{200a}'
    ||| c == '\u{2028}'
    ||| c == '\u{2029}'
    ||| c == '\u{202f}'
    ||| c == '\u{205f}'
    ||| c == '\u{3000}'
}

/// Whether `s` is made of white space alone.
pub open spec fn is_blank(s: Seq<char>) -> bool {
    forall|i: int| 0 <= i < s.len() ==> is_white_space(#[trigger] s[i])
}

/// `s` without the white space that it begins with.
pub open spec fn trimmed_start(s: Seq<char>) -> Seq<char>
    decreases s.len(),
{
    if s.len() > 0 && is_white_space(s.first()) {
        trimmed_start(s.drop_first())
    } else {
        s
    }
}

/// `s` without the white space that it ends with.
pub open spec fn trimmed_end(s: Seq<char>) -> Seq<char>
    decreases s.len(),
{
    if s.len() > 0 && is_white_space(s.last()) {
        trimmed_end(s.drop_last())
    } else {
        s
    }
}

/// `s` without the white space around it.
pub open spec fn trimmed(s: Seq<char>) -> Seq<char> {
    trimmed_end(trimmed_start(s))
}

/// The small letter for a capital letter of ASCII; any other character as it is.
pub open spec fn ascii_lowercase(c: char) -> char {
    if 'A' <= c <= 'Z' {
        ((c as u32) + 32) as char
    } else {
        c
    }
}

/// `s` with each capital letter of ASCII replaced by its small letter.
pub open spec fn ascii_lowercased(s: Seq<char>) -> Seq<char> {
    Seq::new(s.len(), |i: int| ascii_lowercase(s[i]))
}

/// The capital letter for a small letter of ASCII; any other character as it is.
pub open spec fn ascii_uppercase(c: char) -> char {
    if 'a' <= c <= 'z' {
        ((c as u32) - 32) as char
    } else {
        c
    }
}

/// Whether `s` is made of small letters of ASCII alone.
pub open spec fn is_small_letters(s: Seq<char>) -> bool {
    forall|i: int| 0 <= i < s.len() ==> 'a' <= #[trigger] s[i] <= 'z'
}

/// Whether `word` is `name` in some casing: character by character the same,
/// but that a small letter of `name` may stand in `word` as its capital.
pub open spec fn is_casing_of(word: Seq<char>, name: Seq<char>) -> bool {
    &&& word.len() == name.len()
    &&& forall|i: int|
        0 <= i < name.len() ==> #[trigger] word[i] == name[i] || word[i] == ascii_uppercase(
            name[i],
        )
}

/// The lowercase form that Unicode's case mapping gives the text `s`.
pub uninterp spec fn unicode_lowercased(s: Seq<char>) -> Seq<char>;

/// The lowercase form of `s`.
///
/// For text of ASCII alone it is spelled out: the capital letters become
/// small, and nothing else changes. For other text it is what Unicode's case
/// mapping makes of it.
pub open spec fn lowercased(s: Seq<char>) -> Seq<char> {
    if is_ascii_chars(s) {
        ascii_lowercased(s)
    } else {
        unicode_lowercased(s)
    }
}

/// The form in which text is compared with a name: without the white space
/// around it, and in lowercase.
pub open spec fn normal_form(s: Seq<char>) -> Seq<char> {
    lowercased(trimmed(s))
}

/// Calls `str::trim`.
///
/// Taken on trust, from its documentation: the result is the text without the
/// white space at its start and at its end, and white space is what has
/// Unicode's property `White_Space`, which are the characters of
/// `is_white_space`.
#[verifier::external_body]
pub(crate) fn trim(text: &str) -> (inner: &str)
    ensures
        inner@ == trimmed(text@),
{
    text.trim()
}

/// Calls `str::to_lowercase`.
///
/// Taken on trust, from its documentation: the result is the lowercase form
/// that Unicode's case mapping gives the text. It depends on the characters
/// of the text alone, and is only named here. For text of ASCII alone the
/// mapping is stated: it turns the letters `A` to `Z` into `a` to `z` and
/// keeps every other character.
#[verifier::external_body]
pub(crate) fn lowercase(text: &str) -> (lower: String)
    ensures
        lower@ == unicode_lowercased(text@),
        is_ascii_chars(text@) ==> lower@ == ascii_lowercased(text@),
{
    text.to_lowercase()
}

/// Whether two strings hold the same characters.
pub fn same_text(a: &str, b: &str) -> (same: bool)
    ensures
        same == (a@ == b@),
{
    let x = a.as_bytes();
    let y = b.as_bytes();
    proof {
        // Characters are recovered from their bytes, so equal bytes mean equal text.
        encode_utf8_decode_utf8(a@);
        encode_utf8_decode_utf8(b@);
    }
    if x.len() != y.len() {
        return false;
    }
    let mut i: usize = 0;
    while i < x.len()
        invariant
            i <= x.len(),
            x.len() == y.len(),
            x@ == encode_utf8(a@),
            y@ == encode_utf8(b@),
            forall|j: int| 0 <= j < i ==> x@[j] == y@[j],
        decreases x.len() - i,
    {
        if x[i] != y[i] {
            return false;
        }
        i += 1;
    }
    assert(x@ =~= y@);
    true
}

/// White space at the start is all that `trimmed_start` takes away: `s` is
/// the white space returned, followed by `trimmed_start(s)`, which does not
/// begin with white space.
pub proof fn lemma_trimmed_start_parts(s: Seq<char>) -> (before: Seq<char>)
    ensures
        s == before + trimmed_start(s),
        is_blank(before),
        trimmed_start(s).len() > 0 ==> !is_white_space(trimmed_start(s).first()),
    decreases s.len(),
{
    if s.len() > 0 && is_white_space(s.first()) {
        let inner = lemma_trimmed_start_parts(s.drop_first());
        let before = seq![s.first()] + inner;
        assert(s =~= seq![s.first()] + s.drop_first());
        assert(s =~= before + trimmed_start(s));
        before
    } else {
        assert(s =~= Seq::<char>::empty() + s);
        Seq::empty()
    }
}

/// White space at the end is all that `trimmed_end` takes away: `s` is
/// `trimmed_end(s)`, which does not end with white space, followed by the
/// white space returned.
pub proof fn lemma_trimmed_end_parts(s: Seq<char>) -> (after: Seq<char>)
    ensures
        s == trimmed_end(s) + after,
        is_blank(after),
        trimmed_end(s).len() > 0 ==> !is_white_space(trimmed_end(s).last()),
        trimmed_end(s).len() > 0 ==> trimmed_end(s).first() == s.first(),
    decreases s.len(),
{
    if s.len() > 0 && is_white_space(s.last()) {
        let inner = lemma_trimmed_end_parts(s.drop_last());
        let after = inner + seq![s.last()];
        assert(s =~= s.drop_last() + seq![s.last()]);
        assert(s =~= trimmed_end(s) + after);
        after
    } else {
        assert(s =~= s + Seq::<char>::empty());
        Seq::empty()
    }
}

/// Text is white space, then its trimmed form, then white space; and the
/// trimmed form neither begins nor ends with white space.
pub proof fn lemma_trimmed_parts(s: Seq<char>) -> (around: (Seq<char>, Seq<char>))
    ensures
        s == around.0 + trimmed(s) + around.1,
        is_blank(around.0),
        is_blank(around.1),
        trimmed(s).len() > 0 ==> !is_white_space(trimmed(s).first()) && !is_white_space(
            trimmed(s).last(),
        ),
{
    let before = lemma_trimmed_start_parts(s);
    let after = lemma_trimmed_end_parts(trimmed_start(s));
    assert(s =~= before + trimmed(s) + after);
    (before, after)
}

/// White space before text that does not begin with white space is what
/// `trimmed_start` takes away.
pub proof fn lemma_trimmed_start_of(before: Seq<char>, rest: Seq<char>)
    requires
        is_blank(before),
        rest.len() > 0 ==> !is_white_space(rest.first()),
    ensures
        trimmed_start(before + rest) == rest,
    decreases before.len(),
{
    if before.len() == 0 {
        assert(before + rest =~= rest);
    } else {
        assert((before + rest).first() == before[0]);
        assert((before + rest).drop_first() =~= before.drop_first() + rest);
        lemma_trimmed_start_of(before.drop_first(), rest);
    }
}

/// White space after text that does not end with white space is what
/// `trimmed_end` takes away.
pub proof fn lemma_trimmed_end_of(rest: Seq<char>, after: Seq<char>)
    requires
        is_blank(after),
        rest.len() > 0 ==> !is_white_space(rest.last()),
    ensures
        trimmed_end(rest + after) == rest,
    decreases after.len(),
{
    if after.len() == 0 {
        assert(rest + after =~= rest);
    } else {
        assert((rest + after).last() == after.last());
        assert((rest + after).drop_last() =~= rest + after.drop_last());
        lemma_trimmed_end_of(rest, after.drop_last());
    }
}

/// A word that neither begins nor ends with white space is the trimmed form
/// of any text that puts white space around it. The empty word is the
/// trimmed form of text that is white space only.
pub proof fn lemma_trimmed_of(before: Seq<char>, word: Seq<char>, after: Seq<char>)
    requires
        is_blank(before),
        is_blank(after),
        word.len() > 0 ==> !is_white_space(word.first()) && !is_white_space(word.last()),
    ensures
        trimmed(before + word + after) == word,
{
    if word.len() == 0 {
        let blank = before + after;
        assert(before + word + after =~= blank + word);
        lemma_trimmed_start_of(blank, word);
    } else {
        assert(before + word + after =~= before + (word + after));
        assert((word + after).first() == word.first());
        lemma_trimmed_start_of(before, word + after);
        lemma_trimmed_end_of(word, after);
    }
}

/// A casing of a name in small letters has that name as its lowercase form.
pub proof fn lemma_lowercased_casing(word: Seq<char>, name: Seq<char>)
    requires
        is_small_letters(name),
        is_casing_of(word, name),
    ensures
        is_ascii_chars(word),
        lowercased(word) == name,
{
    assert forall|i: int| 0 <= i < word.len() implies '\0' <= #[trigger] word[i] <= '\u{7f}'
        && ascii_lowercase(word[i]) == name[i] by {
        assert('a' <= name[i] <= 'z');
    }
    assert(ascii_lowercased(word) =~= name);
}

/// Text of ASCII whose lowercase form is a name is a casing of that name.
pub proof fn lemma_casing_lowercased(word: Seq<char>, name: Seq<char>)
    requires
        is_ascii_chars(word),
        lowercased(word) == name,
    ensures
        is_casing_of(word, name),
{
    assert forall|i: int| 0 <= i < name.len() implies #[trigger] word[i] == name[i] || word[i]
        == ascii_uppercase(name[i]) by {
        assert(name[i] == ascii_lowercase(word[i]));
    }
}

} // verus!
