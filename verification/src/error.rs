//! The errors that can occur when walking a stack.

use crate::tagged_word::TaggedWord;
use crate::text::{digits, hex_text, number_text};
use vstd::string::StringExecFns;
use vstd::prelude::*;
use vstd::std_specs::convert::FromSpecImpl;

verus! {

/// The error of the standard library's input and output, `std::io::Error`,
/// carried without a look inside.
#[verifier::external_type_specification]
#[verifier::external_body]
pub struct ExIoError(std::io::Error);

/// The decoder's error, `gimli::Error`, carried without a look inside.
#[verifier::external_type_specification]
#[verifier::external_body]
pub struct ExDecoderError(gimli::Error);

/// The different kinds of errors that can occur when walking a stack.
#[derive(Debug)]
pub enum WalkError {
    /// The platform could not capture the registers of the running thread.
    Io(std::io::Error),
    /// An error parsing debug information with `gimli`.
    Gimli(gimli::Error),
    /// Expected a valid word, but found an invalid one.
    InvalidTaggedWord,
    /// There is no unwinding information for the given address.
    NoUnwindInfoForAddress(usize),
    /// An unknown DWARF register number.
    UnknownRegister(u16),
    /// A row gives a rule as a DWARF expression, which this walker does not
    /// evaluate.
    UnsupportedRule,
}

impl WalkError {
    /// A short description of the kind of error, without its details.
    ///
    /// The description of a failed capture is the operating system's own
    /// message for it.
    pub fn description(&self) -> (text: String)
        ensures
            match self {
                WalkError::Io(_) => true,
                WalkError::Gimli(_) => text@ == "Error parsing debug info"@,
                WalkError::InvalidTaggedWord => text@ == "Invalid tagged word"@,
                WalkError::NoUnwindInfoForAddress(_) => text@
                    == "Tried to walk across a frame we do not have unwind information for"@,
                WalkError::UnknownRegister(_) => text@ == "Unknown DWARF register number"@,
                WalkError::UnsupportedRule => text@
                    == "Found an unwind rule given as a DWARF expression"@,
            },
    {
        match self {
            WalkError::Io(e) => e.to_string(),
            WalkError::Gimli(_) => "Error parsing debug info".to_owned(),
            WalkError::InvalidTaggedWord => "Invalid tagged word".to_owned(),
            WalkError::NoUnwindInfoForAddress(_) => {
                "Tried to walk across a frame we do not have unwind information for".to_owned()
            },
            WalkError::UnknownRegister(_) => "Unknown DWARF register number".to_owned(),
            WalkError::UnsupportedRule => {
                "Found an unwind rule given as a DWARF expression".to_owned()
            },
        }
    }

    /// The message of the error, with its details.
    ///
    /// The message of a decoder's error ends with the decoder's own words,
    /// that of a failed capture is the operating system's.
    pub fn message(&self) -> (text: String)
        ensures
            match self {
                WalkError::Io(_) => true,
                WalkError::Gimli(_) => text@.len() >= "Error parsing debug info: "@.len()
                    && text@.subrange(0, "Error parsing debug info: "@.len() as int)
                    == "Error parsing debug info: "@,
                WalkError::InvalidTaggedWord => text@ == "Invalid tagged word"@,
                WalkError::NoUnwindInfoForAddress(addr) => text@ == "No unwind information for "@
                    + ("0x"@ + digits(*addr as nat, 16)),
                WalkError::UnknownRegister(register) => text@
                    == "Unknown DWARF register number: "@ + digits(*register as nat, 10),
                WalkError::UnsupportedRule => text@
                    == "Found an unwind rule given as a DWARF expression"@,
            },
    {
        match self {
            WalkError::Io(e) => e.to_string(),
            WalkError::Gimli(e) => {
                let words = e.to_string();
                let text = "Error parsing debug info: ".to_owned().concat(words.as_str());
                assert(text@.subrange(0, "Error parsing debug info: "@.len() as int)
                    =~= "Error parsing debug info: "@);
                text
            },
            WalkError::NoUnwindInfoForAddress(addr) => {
                let number = hex_text(*addr);
                "No unwind information for ".to_owned().concat(number.as_str())
            },
            WalkError::UnknownRegister(register) => {
                let number = number_text(*register as usize, 10);
                "Unknown DWARF register number: ".to_owned().concat(number.as_str())
            },
            _ => self.description(),
        }
    }
}

impl From<gimli::Error> for WalkError {
    fn from(g: gimli::Error) -> (e: WalkError)
        ensures
            e == WalkError::Gimli(g),
    {
        WalkError::Gimli(g)
    }
}

impl FromSpecImpl<gimli::Error> for WalkError {
    open spec fn obeys_from_spec() -> bool {
        true
    }

    open spec fn from_spec(g: gimli::Error) -> WalkError {
        WalkError::Gimli(g)
    }
}

/// A tagged word as the result of an operation that needs a known value: an
/// invalid word is the error `InvalidTaggedWord`.
impl From<TaggedWord> for Result<usize, WalkError> {
    fn from(w: TaggedWord) -> (r: Result<usize, WalkError>)
        ensures
            r == match w {
                TaggedWord::Valid(word) => Ok::<usize, WalkError>(word),
                TaggedWord::Invalid => Err(WalkError::InvalidTaggedWord),
            },
    {
        match w {
            TaggedWord::Valid(word) => Ok(word),
            TaggedWord::Invalid => Err(WalkError::InvalidTaggedWord),
        }
    }
}

impl FromSpecImpl<TaggedWord> for Result<usize, WalkError> {
    open spec fn obeys_from_spec() -> bool {
        true
    }

    open spec fn from_spec(w: TaggedWord) -> Result<usize, WalkError> {
        match w {
            TaggedWord::Valid(word) => Ok(word),
            TaggedWord::Invalid => Err(WalkError::InvalidTaggedWord),
        }
    }
}

} // verus!
