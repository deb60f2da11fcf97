//! The errors of the library.
use vstd::prelude::*;

verus! {

#[derive(Debug)]
pub enum Error {
    AdapterNotFound,
    Io(std::io::Error),
    BadDevice,
    UnknownMessage,
    WrongMessage,
    OversizedMessage,
    InvalidEnumValue { enum_name: &'static str, value: u32 },
    NotAcknowledged(&'static str, Option<usize>),
}

/// Why the bytes of a received message could not be read as a message.
#[derive(Debug, Clone, Copy, PartialEq, Eq)]
pub enum ParseFault {
    /// The bytes end before the message does.
    EndOfInput,
    /// A byte does not stand for any value of the enum it is read as.
    InvalidEnumValue { enum_name: &'static str, value: u32 },
    /// The message starts with an identifier that no message has.
    UnknownMessage,
}

impl Error {
    /// Whether `self` is the error that reports `fault`; never when there
    /// is no fault.
    pub open spec fn reports(self, fault: Option<ParseFault>) -> bool {
        match fault {
            Some(ParseFault::EndOfInput) => self is Io,
            Some(ParseFault::InvalidEnumValue { enum_name, value }) => self
                == Error::InvalidEnumValue { enum_name, value },
            Some(ParseFault::UnknownMessage) => self is UnknownMessage,
            None => false,
        }
    }
}

/// The first of two faults, checked in order.
pub open spec fn first_fault(a: Option<ParseFault>, b: Option<ParseFault>) -> Option<ParseFault> {
    if a is Some {
        a
    } else {
        b
    }
}

/// `EndOfInput` unless `s` holds at least `n` bytes.
pub open spec fn need(s: Seq<u8>, n: int) -> Option<ParseFault> {
    if s.len() < n {
        Some(ParseFault::EndOfInput)
    } else {
        None
    }
}

pub type Result<T, E = Error> = std::result::Result<T, E>;

} // verus!
