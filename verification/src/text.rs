//! Functions on strings, stated over sequences of characters.

use vstd::prelude::*;
#[allow(unused_imports)]
use vstd::utf8::{decode_utf8, is_ascii_chars, valid_utf8};

verus! {

/// The characters that Unicode gives the property `White_Space`.
pub open spec fn is_whitespace(c: char) -> bool {
    let code = c as u32;
    ||| 0x09 <= code <= 0x0d
    ||| code == 0x20
    ||| code == 0x85
    ||| code == 0xa0
    ||| code == 0x1680
    ||| 0x2000 <= code <= 0x200a
    ||| code == 0x2028
    ||| code == 0x2029
    ||| code == 0x202f
    ||| code == 0x205f
    ||| code == 0x3000
}

/// `text` without the whitespace at its start.
pub open spec fn trimmed_front(text: Seq<char>) -> Seq<char>
    decreases text.len(),
{
    if text.len() > 0 && is_whitespace(text.first()) {
        trimmed_front(text.drop_first())
    } else {
        text
    }
}

/// `text` without the whitespace at its end.
pub open spec fn trimmed_back(text: Seq<char>) -> Seq<char>
    decreases text.len(),
{
    if text.len() > 0 && is_whitespace(text.last()) {
        trimmed_back(text.drop_last())
    } else {
        text
    }
}

/// `text` without the whitespace at either end.
pub open spec fn trimmed(text: Seq<char>) -> Seq<char> {
    trimmed_back(trimmed_front(text))
}

/// `str::trim`. Trusted: it takes the whitespace off both ends, where whitespace
/// is Unicode's `White_Space`.
pub assume_specification[ str::trim ](text: &str) -> (trim: &str)
    ensures
        trim@ == trimmed(text@),
;

/// A text of whitespace alone trims to nothing, and no other text does.
pub proof fn trims_to_nothing(text: Seq<char>)
    ensures
        trimmed(text).len() == 0 <==> (forall|i: int|
            0 <= i < text.len() ==> is_whitespace(#[trigger] text[i])),
    decreases text.len(),
{
    if text.len() > 0 && is_whitespace(text.first()) {
        let rest = text.drop_first();
        trims_to_nothing(rest);
        if trimmed(text).len() == 0 {
            assert forall|i: int| 0 <= i < text.len() implies is_whitespace(#[trigger] text[i]) by {
                if i > 0 {
                    assert(text[i] == rest[i - 1]);
                }
            }
        } else {
            let i = choose|i: int| 0 <= i < rest.len() && !is_whitespace(#[trigger] rest[i]);
            assert(text[i + 1] == rest[i]);
        }
    } else if text.len() > 0 {
        trimmed_back_keeps_front(text);
        assert(!is_whitespace(text[0]));
    }
}

/// Trimming the end never takes a first character that is not whitespace.
proof fn trimmed_back_keeps_front(text: Seq<char>)
    requires
        text.len() > 0,
        !is_whitespace(text.first()),
    ensures
        trimmed_back(text).len() > 0,
    decreases text.len(),
{
    if is_whitespace(text.last()) {
        assert(text.len() > 1);
        trimmed_back_keeps_front(text.drop_last());
    }
}

/// A text is whitespace, the trimmed text, and whitespace again, and the trimmed
/// text, if there is anything in it, starts and ends with something else.
pub proof fn trimmed_is_the_middle(text: Seq<char>)
    ensures
        exists|before: Seq<char>, after: Seq<char>| #[trigger]
            (before + trimmed(text) + after) == text && all_whitespace(before) && all_whitespace(
                after,
            ),
        trimmed(text).len() > 0 ==> !is_whitespace(trimmed(text).first()) && !is_whitespace(
            trimmed(text).last(),
        ),
{
    trimmed_front_drops_whitespace(text);
    let middle = trimmed_front(text);
    trimmed_back_drops_whitespace(middle);
    let before = text.subrange(0, text.len() - middle.len());
    let after = middle.subrange(trimmed(text).len() as int, middle.len() as int);
    assert(before + trimmed(text) + after =~= text);
}

/// Every character of the text is whitespace.
pub open spec fn all_whitespace(text: Seq<char>) -> bool {
    forall|i: int| 0 <= i < text.len() ==> is_whitespace(#[trigger] text[i])
}

proof fn trimmed_front_drops_whitespace(text: Seq<char>)
    ensures
        trimmed_front(text).len() <= text.len(),
        trimmed_front(text) == text.subrange(
            text.len() - trimmed_front(text).len(),
            text.len() as int,
        ),
        all_whitespace(text.subrange(0, text.len() - trimmed_front(text).len())),
        trimmed_front(text).len() > 0 ==> !is_whitespace(trimmed_front(text).first()),
    decreases text.len(),
{
    if text.len() > 0 && is_whitespace(text.first()) {
        let rest = text.drop_first();
        trimmed_front_drops_whitespace(rest);
        let kept = trimmed_front(rest);
        let dropped = text.subrange(0, text.len() - kept.len());
        assert(kept =~= text.subrange(text.len() - kept.len(), text.len() as int));
        assert forall|i: int| 0 <= i < dropped.len() implies is_whitespace(#[trigger] dropped[i]) by {
            if i > 0 {
                assert(rest.subrange(0, rest.len() - kept.len())[i - 1] == dropped[i]);
            }
        }
    } else {
        assert(text.subrange(0, text.len() as int) =~= text);
    }
}

proof fn trimmed_back_drops_whitespace(text: Seq<char>)
    ensures
        trimmed_back(text).len() <= text.len(),
        trimmed_back(text) == text.subrange(0, trimmed_back(text).len() as int),
        all_whitespace(text.subrange(trimmed_back(text).len() as int, text.len() as int)),
        trimmed_back(text).len() > 0 ==> !is_whitespace(trimmed_back(text).last()),
    decreases text.len(),
{
    if text.len() > 0 && is_whitespace(text.last()) {
        let rest = text.drop_last();
        trimmed_back_drops_whitespace(rest);
        let kept = trimmed_back(rest);
        let dropped = text.subrange(kept.len() as int, text.len() as int);
        assert(kept =~= text.subrange(0, kept.len() as int));
        assert forall|i: int| 0 <= i < dropped.len() implies is_whitespace(#[trigger] dropped[i]) by {
            if i < dropped.len() - 1 {
                assert(rest.subrange(kept.len() as int, rest.len() as int)[i] == dropped[i]);
            }
        }
    } else {
        assert(text.subrange(0, text.len() as int) =~= text);
    }
}

/// Whether `pattern` stands in `text` from position `at` on.
pub open spec fn occurs_at(pattern: Seq<char>, text: Seq<char>, at: int) -> bool {
    0 <= at <= text.len() - pattern.len() && text.subrange(at, at + pattern.len()) == pattern
}

/// Whether `pattern` stands somewhere in `text`.
pub open spec fn occurs(pattern: Seq<char>, text: Seq<char>) -> bool {
    exists|at: int| #[trigger] occurs_at(pattern, text, at)
}

/// A pattern stands at a position exactly if the text there agrees with it
/// character by character.
pub proof fn occurs_at_compares_characters(pattern: Seq<char>, text: Seq<char>, at: int)
    ensures
        occurs_at(pattern, text, at) <==> 0 <= at && at + pattern.len() <= text.len() && (forall|
            i: int,
        |
            0 <= i < pattern.len() ==> text[at + i] == #[trigger] pattern[i]),
        occurs_at(pattern, text, at) ==> occurs(pattern, text),
{
    if 0 <= at && at + pattern.len() <= text.len() {
        let part = text.subrange(at, at + pattern.len());
        if forall|i: int| 0 <= i < pattern.len() ==> text[at + i] == #[trigger] pattern[i] {
            assert(part =~= pattern);
        }
        if part == pattern {
            assert forall|i: int| 0 <= i < pattern.len() implies text[at + i]
                == #[trigger] pattern[i] by {
                assert(part[i] == text[at + i]);
            }
        }
    }
}

/// A pattern occurs in a text exactly if the text is something, the pattern, and
/// something more.
pub proof fn occurs_means_in_between(pattern: Seq<char>, text: Seq<char>)
    ensures
        occurs(pattern, text) <==> exists|before: Seq<char>, after: Seq<char>|
            text == #[trigger] (before + pattern + after),
{
    if occurs(pattern, text) {
        let at = choose|at: int| #[trigger] occurs_at(pattern, text, at);
        let before = text.subrange(0, at);
        let after = text.subrange(at + pattern.len(), text.len() as int);
        assert(text.subrange(at, at + pattern.len()) == pattern);
        assert(text =~= before + text.subrange(at, at + pattern.len()) + after);
        assert(text == before + pattern + after);
    }
    assert forall|before: Seq<char>, after: Seq<char>|
        text == #[trigger] (before + pattern + after) implies occurs(pattern, text) by {
        assert(text.subrange(before.len() as int, (before.len() + pattern.len()) as int) =~= pattern);
        assert(occurs_at(pattern, text, before.len() as int));
    }
}

/// Calls `str::contains` with a string as the pattern. Trusted: it tells whether
/// the pattern occurs in the text.
#[verifier::external_body]
pub(crate) fn contains(text: &str, pattern: &str) -> (found: bool)
    ensures
        found == occurs(pattern@, text@),
{
    text.contains(pattern)
}

/// The lowercase letter for an ASCII capital, any other character unchanged.
pub open spec fn ascii_lower(c: char) -> char {
    if 'A' <= c <= 'Z' {
        (c as u32 + 32) as char
    } else {
        c
    }
}

/// The capital for an ASCII letter in lower case, any other character unchanged.
pub open spec fn ascii_upper(c: char) -> char {
    if 'a' <= c <= 'z' {
        (c as u32 - 32) as char
    } else {
        c
    }
}

/// `text` with its ASCII letters as capitals.
pub open spec fn ascii_uppercase(text: Seq<char>) -> Seq<char> {
    text.map_values(|c: char| ascii_upper(c))
}

/// `text` with its ASCII capitals in lower case.
pub open spec fn ascii_lowercase(text: Seq<char>) -> Seq<char> {
    text.map_values(|c: char| ascii_lower(c))
}

/// What `str::to_lowercase` makes of a text.
pub uninterp spec fn lowercase(text: Seq<char>) -> Seq<char>;

/// `text` in lower case. ASCII letters are put in lower case first: that changes
/// nothing in what the others become.
pub open spec fn lowered(text: Seq<char>) -> Seq<char> {
    if is_ascii_chars(text) {
        ascii_lowercase(text)
    } else {
        lowercase(ascii_lowercase(text))
    }
}

/// Texts that differ in ASCII capitals at most are the same in lower case.
pub proof fn ascii_capitals_are_lost(text: Seq<char>, other: Seq<char>)
    requires
        text.len() == other.len(),
        forall|i: int|
            0 <= i < text.len() ==> ascii_lower(#[trigger] text[i]) == ascii_lower(other[i]),
    ensures
        lowered(text) == lowered(other),
{
    assert(ascii_lowercase(text) =~= ascii_lowercase(other));
    assert forall|i: int| 0 <= i < text.len() implies ('\0' <= #[trigger] text[i] <= '\u{7f}'
        <==> '\0' <= other[i] <= '\u{7f}') by {
        assert(ascii_lower(text[i]) == ascii_lower(other[i]));
    }
    assert(is_ascii_chars(text) <==> is_ascii_chars(other)) by {
        if is_ascii_chars(text) {
            assert forall|i: int| 0 <= i < other.len() implies '\0' <= #[trigger] other[i]
                <= '\u{7f}' by {
                assert('\0' <= text[i] <= '\u{7f}');
            }
        }
    }
}

/// Calls `str::to_lowercase`. Trusted: it maps the text by Unicode's rules, which
/// are the same everywhere; of ASCII text it turns the capitals into the letters
/// `a` to `z` and keeps the rest; and it makes the same of a text whose ASCII
/// capitals are in lower case already. (One rule looks at the neighbours of a
/// letter, that for the Greek sigma at the end of a word; it asks whether they are
/// letters with a case, not which case they have.) Runs of ASCII characters stay
/// runs of their lower case, whatever stands around them.
#[verifier::external_body]
pub(crate) fn to_lowercase(text: &str) -> (lower: String)
    ensures
        lower@ == lowercase(text@),
        lower@ == lowercase(ascii_lowercase(text@)),
        is_ascii_chars(text@) ==> lower@ == ascii_lowercase(text@),
        forall|pattern: Seq<char>|
            is_ascii_chars(pattern) && occurs(pattern, ascii_lowercase(text@)) ==> #[trigger] occurs(
                pattern,
                lower@,
            ),
{
    text.to_lowercase()
}

/// What `String::from_utf8_lossy` makes of a sequence of bytes.
pub uninterp spec fn utf8_lossy(bytes: Seq<u8>) -> Seq<char>;

/// The text that `bytes` stand for, with replacement characters for what is not
/// valid UTF-8 in them.
pub open spec fn decoded(bytes: Seq<u8>) -> Seq<char> {
    if valid_utf8(bytes) {
        decode_utf8(bytes)
    } else {
        utf8_lossy(bytes)
    }
}

/// Calls `String::from_utf8_lossy`. Trusted: the result depends on the bytes
/// alone, and is what they encode where they are valid UTF-8.
#[verifier::external_body]
pub(crate) fn from_utf8_lossy(bytes: &[u8]) -> (text: String)
    ensures
        text@ == utf8_lossy(bytes@),
        valid_utf8(bytes@) ==> text@ == decode_utf8(bytes@),
{
    String::from_utf8_lossy(bytes).into_owned()
}

/// In lower case, ASCII text keeps its length and every character that is no
/// capital, and each capital becomes its small letter in place; other text is what
/// the lower case of Unicode makes of it.
pub proof fn lowered_keeps_ascii_in_place(text: Seq<char>)
    ensures
        is_ascii_chars(text) ==> lowered(text).len() == text.len(),
        is_ascii_chars(text) ==> forall|i: int|
            0 <= i < text.len() ==> #[trigger] lowered(text)[i] == (if 'A' <= text[i] <= 'Z' {
                (text[i] as u32 + 32) as char
            } else {
                text[i]
            }),
        !is_ascii_chars(text) ==> lowered(text) == lowercase(ascii_lowercase(text)),
{
}

/// Bytes that are valid UTF-8 stand for what they encode, others for what the
/// lossy conversion makes of them.
pub proof fn decoded_keeps_valid_text(bytes: Seq<u8>)
    ensures
        valid_utf8(bytes) ==> decoded(bytes) == decode_utf8(bytes),
        !valid_utf8(bytes) ==> decoded(bytes) == utf8_lossy(bytes),
{
}

} // verus!
