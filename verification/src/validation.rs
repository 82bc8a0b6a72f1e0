//! Acceptance rules for task titles, independent of where tasks are stored.
//!
//! A title is judged in three steps, in this order: it must not be blank, it
//! must not be longer than [`MAX_TITLE_CHARS`] characters, and each of its
//! characters must belong to the class that the chosen [`TitlePolicy`] admits.
//! A value that arrives as a number or a truth value is first turned into its
//! canonical text by [`coerce_title`].

use crate::text::{
    blank, chars_of, decimal, is_blank, is_plain, is_plain_char, is_whitespace, is_whitespace_char,
    signed_decimal, signed_text, unsigned_text,
};
use vstd::prelude::*;
use vstd::string::StringExecFns;

verus! {

/// Why a candidate title was turned down.
#[derive(Clone, Copy, Debug, PartialEq, Eq, Structural)]
pub enum ValidationError {
    /// Nothing is left of the title once it is trimmed.
    EmptyTitle,
    /// The title has more than [`MAX_TITLE_CHARS`] characters.
    TooLong,
    /// The title holds a character outside the admitted class.
    InvalidCharacters,
}

/// The class of characters that a title may hold.
#[derive(Clone, Copy, Debug, PartialEq, Eq, Structural)]
pub enum TitlePolicy {
    /// ASCII letters, ASCII digits and the space character.
    Strict,
    /// Alphanumeric characters of any script, and white space.
    Permissive,
}

/// The greatest number of characters that a title may have.
pub const MAX_TITLE_CHARS: usize = 255;

/// Whether `c` is alphanumeric in the sense of Unicode: what
/// `char::is_alphanumeric` answers for `c`.
pub uninterp spec fn unicode_alphanumeric(c: char) -> bool;

/// Calls `char::is_alphanumeric` of the standard library. Its answer depends
/// on `c` alone and is taken on trust as the meaning of
/// [`unicode_alphanumeric`].
#[verifier::external_body]
fn char_is_alphanumeric(c: char) -> (r: bool)
    ensures
        r == unicode_alphanumeric(c),
{
    c.is_alphanumeric()
}

/// Whether `policy` admits the character `c` in a title, given whether `c`
/// is alphanumeric in the sense of Unicode. The strict policy does not ask.
pub open spec fn permitted_given(policy: TitlePolicy, c: char, alphanumeric: bool) -> bool {
    match policy {
        TitlePolicy::Strict => is_plain(c),
        TitlePolicy::Permissive => is_plain(c) || is_whitespace(c) || alphanumeric,
    }
}

/// Whether `policy` admits the character `c` in a title.
pub open spec fn permitted(policy: TitlePolicy, c: char) -> bool {
    permitted_given(policy, c, unicode_alphanumeric(c))
}

/// Whether `policy` admits every character of `s`.
pub open spec fn all_permitted(policy: TitlePolicy, s: Seq<char>) -> bool {
    forall|i: int| 0 <= i < s.len() ==> permitted(policy, #[trigger] s[i])
}

/// The judgement on a candidate title: the first of the three rules that it
/// breaks, or `Ok` where it breaks none.
pub open spec fn title_verdict(policy: TitlePolicy, s: Seq<char>) -> Result<(), ValidationError> {
    if is_blank(s) {
        Err(ValidationError::EmptyTitle)
    } else if s.len() > MAX_TITLE_CHARS {
        Err(ValidationError::TooLong)
    } else if !all_permitted(policy, s) {
        Err(ValidationError::InvalidCharacters)
    } else {
        Ok(())
    }
}

/// The judgement of the strict character rule alone: a text passes where it
/// is not empty and holds only ASCII letters, ASCII digits and spaces.
pub open spec fn alphanumeric_verdict(s: Seq<char>) -> Result<(), ValidationError> {
    if s.len() > 0 && all_permitted(TitlePolicy::Strict, s) {
        Ok(())
    } else {
        Err(ValidationError::InvalidCharacters)
    }
}

/// The judgement of the permissive character rule alone: a text passes where
/// each of its characters is alphanumeric or white space. The empty text
/// passes.
pub open spec fn optional_alphanumeric_verdict(s: Seq<char>) -> Result<(), ValidationError> {
    if all_permitted(TitlePolicy::Permissive, s) {
        Ok(())
    } else {
        Err(ValidationError::InvalidCharacters)
    }
}

impl ValidationError {
    /// A short machine-readable name for the error.
    pub fn code(&self) -> (r: &'static str)
        ensures
            r@ == match *self {
                ValidationError::EmptyTitle => "empty_title"@,
                ValidationError::TooLong => "too_long"@,
                ValidationError::InvalidCharacters => "invalid_characters"@,
            },
    {
        match self {
            ValidationError::EmptyTitle => "empty_title",
            ValidationError::TooLong => "too_long",
            ValidationError::InvalidCharacters => "invalid_characters",
        }
    }
}

/// Decides [`permitted_given`].
pub fn char_permitted_given(policy: TitlePolicy, c: char, alphanumeric: bool) -> (r: bool)
    ensures
        r == permitted_given(policy, c, alphanumeric),
{
    match policy {
        TitlePolicy::Strict => is_plain_char(c),
        TitlePolicy::Permissive => is_plain_char(c) || is_whitespace_char(c) || alphanumeric,
    }
}

/// Decides [`permitted`].
pub fn char_permitted(policy: TitlePolicy, c: char) -> (r: bool)
    ensures
        r == permitted(policy, c),
{
    match policy {
        TitlePolicy::Strict => char_permitted_given(policy, c, false),
        TitlePolicy::Permissive => char_permitted_given(policy, c, char_is_alphanumeric(c)),
    }
}

fn chars_all_permitted(policy: TitlePolicy, s: &Vec<char>) -> (r: bool)
    ensures
        r == all_permitted(policy, s@),
{
    let mut i: usize = 0;
    while i < s.len()
        invariant
            i <= s.len(),
            forall|j: int| 0 <= j < i ==> permitted(policy, #[trigger] s@[j]),
        decreases s.len() - i,
    {
        if !char_permitted(policy, s[i]) {
            return false;
        }
        i += 1;
    }
    true
}

/// Checks `title` against the strict character rule.
pub fn validate_alphanumeric(title: &str) -> (r: Result<(), ValidationError>)
    ensures
        r == alphanumeric_verdict(title@),
{
    let chars = chars_of(title);
    if chars.len() > 0 && chars_all_permitted(TitlePolicy::Strict, &chars) {
        Ok(())
    } else {
        Err(ValidationError::InvalidCharacters)
    }
}

/// Checks `title` against the permissive character rule.
pub fn validate_optional_alphanumeric(title: &str) -> (r: Result<(), ValidationError>)
    ensures
        r == optional_alphanumeric_verdict(title@),
{
    let chars = chars_of(title);
    if chars_all_permitted(TitlePolicy::Permissive, &chars) {
        Ok(())
    } else {
        Err(ValidationError::InvalidCharacters)
    }
}

/// Judges a candidate title under `policy`.
pub fn validate_title(policy: TitlePolicy, title: &str) -> (r: Result<(), ValidationError>)
    ensures
        r == title_verdict(policy, title@),
{
    let chars = chars_of(title);
    if blank(&chars) {
        Err(ValidationError::EmptyTitle)
    } else if chars.len() > MAX_TITLE_CHARS {
        Err(ValidationError::TooLong)
    } else if !chars_all_permitted(policy, &chars) {
        Err(ValidationError::InvalidCharacters)
    } else {
        Ok(())
    }
}

/// A title as a client may send it: a text, or a number or truth value in
/// place of one.
#[derive(Debug)]
pub enum TitleInput {
    Text(String),
    Integer(i64),
    Unsigned(u64),
    Boolean(bool),
}

/// The text that stands for `input`: a text stands for itself, a number for
/// its decimal numeral, a truth value for the word `true` or `false`.
pub open spec fn canonical_text(input: TitleInput) -> Seq<char> {
    match input {
        TitleInput::Text(s) => s@,
        TitleInput::Integer(v) => signed_decimal(v as int),
        TitleInput::Unsigned(v) => decimal(v as nat),
        TitleInput::Boolean(b) => if b {
            seq!['t', 'r', 'u', 'e']
        } else {
            seq!['f', 'a', 'l', 's', 'e']
        },
    }
}

/// Turns `input` into the text that is then validated as a title.
pub fn coerce_title(input: TitleInput) -> (r: String)
    ensures
        r@ == canonical_text(input),
{
    match input {
        TitleInput::Text(s) => s,
        TitleInput::Integer(v) => signed_text(v),
        TitleInput::Unsigned(v) => unsigned_text(v),
        TitleInput::Boolean(b) => {
            proof {
                reveal_strlit("true");
                reveal_strlit("false");
            }
            let word = if b {
                String::from_str("true")
            } else {
                String::from_str("false")
            };
            word
        },
    }
}

/// Turns an optional `input` into an optional text: an absent value stays
/// absent, a present one is coerced by [`coerce_title`].
pub fn coerce_optional_title(input: Option<TitleInput>) -> (r: Option<String>)
    ensures
        input is None <==> r is None,
        input matches Some(given) ==> r matches Some(text) && text@ == canonical_text(given),
{
    match input {
        None => None,
        Some(given) => Some(coerce_title(given)),
    }
}

} // verus!
