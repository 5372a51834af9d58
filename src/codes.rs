use vstd::prelude::*;
use vstd::string::*;

use crate::base::Nucleobase;
use crate::error::ConversionError;

verus! {

impl Nucleobase {
    /// The upper-case one-letter code of the base.
    pub open spec fn code(self) -> char {
        match self {
            Nucleobase::Adenine => 'A',
            Nucleobase::Cytosine => 'C',
            Nucleobase::Guanine => 'G',
            Nucleobase::Thymine => 'T',
            Nucleobase::Uracil => 'U',
        }
    }

    /// The lower-case one-letter code of the base.
    pub open spec fn lower_code(self) -> char {
        match self {
            Nucleobase::Adenine => 'a',
            Nucleobase::Cytosine => 'c',
            Nucleobase::Guanine => 'g',
            Nucleobase::Thymine => 't',
            Nucleobase::Uracil => 'u',
        }
    }

    /// The base whose code is `c` in either case, if there is one.
    pub open spec fn from_code(c: char) -> Option<Nucleobase> {
        if c == 'A' || c == 'a' {
            Some(Nucleobase::Adenine)
        } else if c == 'C' || c == 'c' {
            Some(Nucleobase::Cytosine)
        } else if c == 'G' || c == 'g' {
            Some(Nucleobase::Guanine)
        } else if c == 'T' || c == 't' {
            Some(Nucleobase::Thymine)
        } else if c == 'U' || c == 'u' {
            Some(Nucleobase::Uracil)
        } else {
            None
        }
    }

    /// Reading one character: the base it names, or the character itself as
    /// the error.
    pub open spec fn char_parsed(c: char) -> Result<Nucleobase, ConversionError> {
        match Nucleobase::from_code(c) {
            Some(b) => Ok(b),
            None => Err(ConversionError::InvalidCharacterError(c)),
        }
    }

    /// Reading a string: it must hold exactly one character, which is then
    /// read as by `char_parsed`.
    pub open spec fn text_parsed(s: Seq<char>) -> Result<Nucleobase, ConversionError> {
        if s.len() == 1 {
            Nucleobase::char_parsed(s[0])
        } else {
            Err(ConversionError::StringLengthError)
        }
    }

    /// The upper-case one-letter code of the base: A, C, G, T or U.
    pub fn letter_code(&self) -> (r: char)
        ensures
            r == self.code(),
    {
        match self {
            Nucleobase::Adenine => 'A',
            Nucleobase::Cytosine => 'C',
            Nucleobase::Guanine => 'G',
            Nucleobase::Thymine => 'T',
            Nucleobase::Uracil => 'U',
        }
    }

    /// The one-letter code as a string slice.
    pub fn as_str(&self) -> (r: &'static str)
        ensures
            r@ == seq![self.code()],
    {
        match self {
            Nucleobase::Adenine => {
                proof {
                    reveal_strlit("A");
                }
                "A"
            },
            Nucleobase::Cytosine => {
                proof {
                    reveal_strlit("C");
                }
                "C"
            },
            Nucleobase::Guanine => {
                proof {
                    reveal_strlit("G");
                }
                "G"
            },
            Nucleobase::Thymine => {
                proof {
                    reveal_strlit("T");
                }
                "T"
            },
            Nucleobase::Uracil => {
                proof {
                    reveal_strlit("U");
                }
                "U"
            },
        }
    }

    /// Renders the base as its upper-case one-letter code.
    pub fn to_string(&self) -> (r: String)
        ensures
            r@ == seq![self.code()],
    {
        String::from_str(self.as_str())
    }

    /// The base whose code is `c`, upper or lower case; `None` for any other
    /// character.
    pub fn from_letter_code(c: char) -> (r: Option<Nucleobase>)
        ensures
            r == Nucleobase::from_code(c),
    {
        match c {
            'A' | 'a' => Some(Nucleobase::Adenine),
            'C' | 'c' => Some(Nucleobase::Cytosine),
            'G' | 'g' => Some(Nucleobase::Guanine),
            'T' | 't' => Some(Nucleobase::Thymine),
            'U' | 'u' => Some(Nucleobase::Uracil),
            _ => None,
        }
    }

    /// Reads one character as a base, case-insensitively; any other character
    /// is returned in an `InvalidCharacterError`.
    pub fn from_char(c: char) -> (r: Result<Nucleobase, ConversionError>)
        ensures
            r == Nucleobase::char_parsed(c),
    {
        match Self::from_letter_code(c) {
            Some(b) => Ok(b),
            None => Err(ConversionError::InvalidCharacterError(c)),
        }
    }

    /// Reads a string of exactly one character as a base. A string of any
    /// other length gives `StringLengthError`; one unknown character gives
    /// `InvalidCharacterError` with that character.
    pub fn parse(s: &str) -> (r: Result<Nucleobase, ConversionError>)
        ensures
            r == Nucleobase::text_parsed(s@),
    {
        if s.unicode_len() == 1 {
            Self::from_char(s.get_char(0))
        } else {
            Err(ConversionError::StringLengthError)
        }
    }
}

impl core::convert::TryFrom<char> for Nucleobase {
    type Error = ConversionError;

    fn try_from(c: char) -> (r: Result<Nucleobase, ConversionError>) {
        Nucleobase::from_char(c)
    }
}

impl vstd::std_specs::convert::TryFromSpecImpl<char> for Nucleobase {
    open spec fn obeys_try_from_spec() -> bool {
        true
    }

    open spec fn try_from_spec(c: char) -> Result<Nucleobase, ConversionError> {
        Nucleobase::char_parsed(c)
    }
}

impl core::str::FromStr for Nucleobase {
    type Err = ConversionError;

    fn from_str(s: &str) -> (r: Result<Nucleobase, ConversionError>)
        ensures
            r == Nucleobase::text_parsed(s@),
    {
        Nucleobase::parse(s)
    }
}

impl core::convert::From<Nucleobase> for char {
    fn from(b: Nucleobase) -> (r: char) {
        b.letter_code()
    }
}

impl vstd::std_specs::convert::FromSpecImpl<Nucleobase> for char {
    open spec fn obeys_from_spec() -> bool {
        true
    }

    open spec fn from_spec(b: Nucleobase) -> char {
        b.code()
    }
}

} // verus!
