//! The errors of the library.

use vstd::prelude::*;
use vstd::string::StringExecFns;
use crate::text::{decimal, decimal_text, natural_text, natural_to_string};

verus! {

/// Why a string is not the hexadecimal encoding of a byte sequence.
#[derive(Debug, Clone, PartialEq, Eq)]
pub enum HexFault {
    /// The byte at `index` is not a hexadecimal digit; `c` is that byte as a
    /// character.
    InvalidCharacter { c: char, index: usize },
    /// The string has an odd number of bytes.
    OddLength,
    /// The decoded length does not fit a container of fixed size. Decoding
    /// into a byte vector never reports this.
    InvalidLength,
}

/// What a request to the remote service was for.
#[derive(Debug, Clone, Copy, PartialEq, Eq)]
pub enum Request {
    UserSeed,
    QuestKeys,
    Input,
    Description,
    Answer,
}

/// Everything that can go wrong in the library.
#[derive(Debug, PartialEq, Eq)]
pub enum EcError {
    /// No authentication cookie was found.
    MissingCookie,
    /// The key lookup did not succeed: it answered with `status`, or could
    /// not be reached at all.
    KeyFetchError { status: Option<u16> },
    /// The key lookup answered with data of the wrong shape.
    MalformedKeyData,
    /// The ciphertext is not valid hexadecimal.
    InvalidEncoding { fault: HexFault },
    /// The key is `length` bytes long, which is none of 16, 24 and 32.
    UnsupportedKeySize { length: usize },
    /// The decrypted blocks do not end in valid padding.
    PaddingError,
    /// The decrypted bytes are not UTF-8; the first `valid_up_to` bytes are.
    EncodingError { valid_up_to: usize },
    /// Part `part` of a document could not be decrypted.
    AssemblyError { part: i32, cause: Box<EcError> },
    /// The payload is not a JSON document.
    MalformedPayload,
    /// The payload holds no ciphertext for `part`.
    MissingPart { part: i32 },
    /// The key of `part` has not been unlocked.
    KeyUnavailable { part: i32 },
    /// The answer was submitted before.
    AlreadySubmitted,
    /// A request answered with a status that is no success.
    HttpError { status: u16, request: Request },
}

impl Request {
    /// What the request does, in words.
    pub open spec fn task(self) -> Seq<char> {
        match self {
            Request::UserSeed => "fetch user seed"@,
            Request::QuestKeys => "fetch quest keys"@,
            Request::Input => "fetch input"@,
            Request::Description => "fetch description"@,
            Request::Answer => "submit answer"@,
        }
    }

    /// Says in words what the request does.
    pub fn task_name(&self) -> (name: &'static str)
        ensures
            name@ == self.task(),
    {
        match self {
            Request::UserSeed => "fetch user seed",
            Request::QuestKeys => "fetch quest keys",
            Request::Input => "fetch input",
            Request::Description => "fetch description",
            Request::Answer => "submit answer",
        }
    }
}

impl HexFault {
    /// The fault in words.
    pub open spec fn message_text(self) -> Seq<char> {
        match self {
            HexFault::InvalidCharacter { c, index } => "Invalid character '"@.push(c)
                + "' at position "@ + natural_text(index as nat),
            HexFault::OddLength => "Odd number of digits"@,
            HexFault::InvalidLength => "Invalid string length"@,
        }
    }

    /// Says in words what the fault is.
    pub fn message(&self) -> (message: String)
        ensures
            message@ == self.message_text(),
    {
        match self {
            HexFault::InvalidCharacter { c, index } => {
                let mut message = String::from_str("Invalid character '");
                message.push(*c);
                message.append("' at position ");
                message.append(natural_to_string(*index as u64).as_str());
                message
            },
            HexFault::OddLength => String::from_str("Odd number of digits"),
            HexFault::InvalidLength => String::from_str("Invalid string length"),
        }
    }
}

impl EcError {
    /// The error in words.
    pub open spec fn message_text(self) -> Seq<char>
        decreases self,
    {
        match self {
            EcError::MissingCookie => "Authentication failed: missing cookie"@,
            EcError::KeyFetchError { status: Some(status) } => "HTTP error: "@ + decimal_text(
                status as int,
            ) + " - Failed to fetch quest keys"@,
            EcError::KeyFetchError { status: None } =>
                "API request failed: the quest keys could not be reached"@,
            EcError::MalformedKeyData => "JSON parsing error: malformed quest keys"@,
            EcError::InvalidEncoding { fault } => "Hex decoding error: "@ + fault.message_text(),
            EcError::UnsupportedKeySize { length } => "Decryption failed: Invalid key length: "@
                + natural_text(length as nat) + " (must be 16, 24, or 32 bytes)"@,
            EcError::PaddingError => "Decryption failed: invalid padding"@,
            EcError::EncodingError { valid_up_to } =>
                "Decryption failed: UTF-8 conversion failed after "@ + natural_text(
                    valid_up_to as nat,
                ) + " bytes"@,
            EcError::AssemblyError { part, cause } => "Part "@ + decimal_text(part as int)
                + " could not be decrypted: "@ + cause.message_text(),
            EcError::MalformedPayload => "JSON parsing error: malformed payload"@,
            EcError::MissingPart { part } => "Decryption failed: Missing part "@ + decimal_text(
                part as int,
            ) + " in input"@,
            EcError::KeyUnavailable { part } => "Decryption failed: Part "@ + decimal_text(
                part as int,
            ) + " key not available yet"@,
            EcError::AlreadySubmitted => "Answer already submitted"@,
            EcError::HttpError { status, request } => "HTTP error: "@ + decimal_text(status as int)
                + " - Failed to "@ + request.task(),
        }
    }

    /// Says in words what went wrong.
    pub fn message(&self) -> (message: String)
        ensures
            message@ == self.message_text(),
        decreases self,
    {
        match self {
            EcError::MissingCookie => String::from_str("Authentication failed: missing cookie"),
            EcError::KeyFetchError { status: Some(status) } => {
                let mut message = String::from_str("HTTP error: ");
                message.append(decimal(*status as i64).as_str());
                message.append(" - Failed to fetch quest keys");
                message
            },
            EcError::KeyFetchError { status: None } => String::from_str(
                "API request failed: the quest keys could not be reached",
            ),
            EcError::MalformedKeyData => String::from_str(
                "JSON parsing error: malformed quest keys",
            ),
            EcError::InvalidEncoding { fault } => {
                let mut message = String::from_str("Hex decoding error: ");
                message.append(fault.message().as_str());
                message
            },
            EcError::UnsupportedKeySize { length } => {
                let mut message = String::from_str("Decryption failed: Invalid key length: ");
                message.append(natural_to_string(*length as u64).as_str());
                message.append(" (must be 16, 24, or 32 bytes)");
                message
            },
            EcError::PaddingError => String::from_str("Decryption failed: invalid padding"),
            EcError::EncodingError { valid_up_to } => {
                let mut message = String::from_str(
                    "Decryption failed: UTF-8 conversion failed after ",
                );
                message.append(natural_to_string(*valid_up_to as u64).as_str());
                message.append(" bytes");
                message
            },
            EcError::AssemblyError { part, cause } => {
                let mut message = String::from_str("Part ");
                message.append(decimal(*part as i64).as_str());
                message.append(" could not be decrypted: ");
                message.append(cause.message().as_str());
                message
            },
            EcError::MalformedPayload => String::from_str("JSON parsing error: malformed payload"),
            EcError::MissingPart { part } => {
                let mut message = String::from_str("Decryption failed: Missing part ");
                message.append(decimal(*part as i64).as_str());
                message.append(" in input");
                message
            },
            EcError::KeyUnavailable { part } => {
                let mut message = String::from_str("Decryption failed: Part ");
                message.append(decimal(*part as i64).as_str());
                message.append(" key not available yet");
                message
            },
            EcError::AlreadySubmitted => String::from_str("Answer already submitted"),
            EcError::HttpError { status, request } => {
                let mut message = String::from_str("HTTP error: ");
                message.append(decimal(*status as i64).as_str());
                message.append(" - Failed to ");
                message.append(request.task_name());
                message
            },
        }
    }
}

} // verus!
