//! The selection validator: per-field rules applied to free-text inputs
//! before they are accepted into a request.
//!
//! Group and artifact identifiers must be non-blank and must not contain a
//! space, since both are used as path and package fragments downstream.
//! Display-name texts (project name, description) are exempt: for those an
//! empty input means "use the catalog default" and is not an error.

use vstd::prelude::*;
use vstd::string::StrSliceExecFns;

verus! {

/// Why a free-text input was rejected.
#[derive(Clone, Copy, Debug, PartialEq, Eq, Structural)]
pub enum ValidationError {
    EmptyInput,
    ContainsWhitespace,
}

/// The characters the `required` rule discounts when deciding whether an
/// input is blank.
pub open spec fn is_blank_char(c: char) -> bool {
    c == ' ' || c == '\t' || c == '\n' || c == '\r'
}

/// Every character of `s` is blank; in particular the empty string is blank.
pub open spec fn is_blank(s: Seq<char>) -> bool {
    forall|i: int| 0 <= i < s.len() ==> is_blank_char(s[i])
}

/// The first rule an identifier breaks, if any: blankness before the
/// embedded space, mirroring the order in which the rules are applied.
pub open spec fn identifier_error(s: Seq<char>) -> Option<ValidationError> {
    if is_blank(s) {
        Some(ValidationError::EmptyInput)
    } else if s.contains(' ') {
        Some(ValidationError::ContainsWhitespace)
    } else {
        None
    }
}

impl ValidationError {
    /// The human-readable reason attached to the rejection.
    pub fn message(&self) -> (r: String)
        ensures
            *self == ValidationError::EmptyInput ==> r@ == "empty input"@,
            *self == ValidationError::ContainsWhitespace ==> r@ == "contains whitespace"@,
    {
        match self {
            ValidationError::EmptyInput => "empty input".to_owned(),
            ValidationError::ContainsWhitespace => "contains whitespace".to_owned(),
        }
    }
}

/// The `required` rule: rejects inputs whose trimmed form is empty.
pub fn required(input: &str) -> (r: Result<(), ValidationError>)
    ensures
        r is Ok <==> !is_blank(input@),
        r is Err ==> r == Err::<(), ValidationError>(ValidationError::EmptyInput),
{
    let n = input.unicode_len();
    let mut i: usize = 0;
    while i < n
        invariant
            i <= n,
            n == input@.len(),
            forall|j: int| 0 <= j < i ==> is_blank_char(input@[j]),
        decreases n - i,
    {
        let c = input.get_char(i);
        if !(c == ' ' || c == '\t' || c == '\n' || c == '\r') {
            return Ok(());
        }
        i = i + 1;
    }
    Err(ValidationError::EmptyInput)
}

/// The `no-whitespace` rule: rejects inputs that contain a space.
pub fn no_whitespace(input: &str) -> (r: Result<(), ValidationError>)
    ensures
        r is Ok <==> !input@.contains(' '),
        r is Err ==> r == Err::<(), ValidationError>(ValidationError::ContainsWhitespace),
{
    let n = input.unicode_len();
    let mut i: usize = 0;
    while i < n
        invariant
            i <= n,
            n == input@.len(),
            forall|j: int| 0 <= j < i ==> input@[j] != ' ',
        decreases n - i,
    {
        if input.get_char(i) == ' ' {
            return Err(ValidationError::ContainsWhitespace);
        }
        i = i + 1;
    }
    Ok(())
}

/// Both identifier rules in order: `required`, then `no-whitespace`.
pub fn validate_identifier(input: &str) -> (r: Result<(), ValidationError>)
    ensures
        r == match identifier_error(input@) {
            Option::None => Ok::<(), ValidationError>(()),
            Option::Some(e) => Err::<(), ValidationError>(e),
        },
{
    match required(input) {
        Err(e) => Err(e),
        Ok(()) => match no_whitespace(input) {
            Err(e) => Err(e),
            Ok(()) => Ok(()),
        },
    }
}

} // verus!
