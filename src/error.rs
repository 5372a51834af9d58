use vstd::prelude::*;
use vstd::string::*;

verus! {

/// Why a character or a string could not be read as a nucleobase.
#[derive(Copy, Clone, Debug, PartialEq, Eq, Structural)]
pub enum ConversionError {
    /// The character is none of A, C, G, T, U in either case.
    InvalidCharacterError(char),
    /// The string does not hold exactly one character.
    StringLengthError,
}

/// Relies on `String::from(char)`: a string that holds that one character.
#[verifier::external_body]
fn char_string(c: char) -> (r: String)
    ensures
        r@ == seq![c],
{
    String::from(c)
}

impl ConversionError {
    /// The human-readable description of the error.
    pub open spec fn message(self) -> Seq<char> {
        match self {
            ConversionError::InvalidCharacterError(c) => "invalid character: cannot convert "@
                + seq![c] + " into a nucleobase"@,
            ConversionError::StringLengthError =>
                "cannot convert string of length greater than 1 character into a single nucleobase"@,
        }
    }

    /// Renders the error as a sentence for people to read.
    pub fn to_string(&self) -> (r: String)
        ensures
            r@ == self.message(),
    {
        match self {
            ConversionError::InvalidCharacterError(c) => {
                let mut s = String::from_str("invalid character: cannot convert ");
                let shown = char_string(*c);
                s.append(shown.as_str());
                s.append(" into a nucleobase");
                s
            },
            ConversionError::StringLengthError => String::from_str(
                "cannot convert string of length greater than 1 character into a single nucleobase",
            ),
        }
    }
}

} // verus!
