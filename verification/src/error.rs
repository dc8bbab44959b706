use vstd::prelude::*;
use vstd::string::*;

verus! {

/// Errors raised while decoding instruction data and account lists.
#[derive(Debug, Clone, PartialEq, Eq)]
pub enum ParseError {
    /// Fewer bytes than a field needs remain at `offset`.
    NotEnoughBytes { expected: usize, found: usize, offset: usize },
    /// A tag byte does not name any variant of `enum_name`.
    InvalidEnumVariant { variant: u8, enum_name: String },
    /// Bytes that cannot form an account address.
    InvalidPubkey(String),
    /// An account index beyond the end of the account list.
    InvalidAccountIndex { index: usize, max: usize },
    /// Data whose shape does not match what the instruction needs.
    InvalidDataFormat(String),
    /// A discriminator that names no known instruction.
    InvalidInstructionType(String),
    /// Bytes that do not form the Borsh record expected.
    BorshError(String),
}

/// The result of a decoding step.
pub type ParseResult<T> = Result<T, ParseError>;

/// Whether `r` is an `InvalidDataFormat` error carrying `msg`.
pub open spec fn format_error<T>(r: ParseResult<T>, msg: Seq<char>) -> bool {
    r matches Err(ParseError::InvalidDataFormat(m)) && m@ == msg
}

/// An `InvalidDataFormat` error carrying `msg`.
pub fn fail(msg: &str) -> (e: ParseError)
    ensures
        e matches ParseError::InvalidDataFormat(m) && m@ == msg@,
{
    ParseError::InvalidDataFormat(String::from_str(msg))
}

} // verus!
