use ec_cli::error::{EcError, HexFault, Request};

#[test]
fn messages_of_the_failures_of_decryption() {
    assert_eq!(
        EcError::InvalidEncoding { fault: HexFault::InvalidCharacter { c: 'g', index: 12 } }
            .message(),
        "Hex decoding error: Invalid character 'g' at position 12"
    );
    assert_eq!(
        EcError::InvalidEncoding { fault: HexFault::OddLength }.message(),
        "Hex decoding error: Odd number of digits"
    );
    assert_eq!(
        EcError::InvalidEncoding { fault: HexFault::InvalidLength }.message(),
        "Hex decoding error: Invalid string length"
    );
    assert_eq!(
        EcError::UnsupportedKeySize { length: 17 }.message(),
        "Decryption failed: Invalid key length: 17 (must be 16, 24, or 32 bytes)"
    );
    assert_eq!(
        EcError::UnsupportedKeySize { length: usize::MAX }.message(),
        format!(
            "Decryption failed: Invalid key length: {} (must be 16, 24, or 32 bytes)",
            usize::MAX
        )
    );
    assert_eq!(EcError::PaddingError.message(), "Decryption failed: invalid padding");
    assert_eq!(
        EcError::EncodingError { valid_up_to: 0 }.message(),
        "Decryption failed: UTF-8 conversion failed after 0 bytes"
    );
}

#[test]
fn message_of_a_failed_assembly_names_the_part_and_the_cause() {
    let error = EcError::AssemblyError { part: 2, cause: Box::new(EcError::PaddingError) };
    assert_eq!(
        error.message(),
        "Part 2 could not be decrypted: Decryption failed: invalid padding"
    );
    let nested = EcError::AssemblyError { part: 3, cause: Box::new(error) };
    assert_eq!(
        nested.message(),
        "Part 3 could not be decrypted: Part 2 could not be decrypted: \
         Decryption failed: invalid padding"
    );
}

#[test]
fn messages_of_the_failures_of_requests() {
    assert_eq!(EcError::MissingCookie.message(), "Authentication failed: missing cookie");
    assert_eq!(
        EcError::KeyFetchError { status: Some(503) }.message(),
        "HTTP error: 503 - Failed to fetch quest keys"
    );
    assert_eq!(
        EcError::KeyFetchError { status: None }.message(),
        "API request failed: the quest keys could not be reached"
    );
    assert_eq!(EcError::MalformedKeyData.message(), "JSON parsing error: malformed quest keys");
    assert_eq!(EcError::MalformedPayload.message(), "JSON parsing error: malformed payload");
    assert_eq!(EcError::AlreadySubmitted.message(), "Answer already submitted");
    assert_eq!(
        EcError::HttpError { status: 404, request: Request::Input }.message(),
        "HTTP error: 404 - Failed to fetch input"
    );
    assert_eq!(
        EcError::HttpError { status: 500, request: Request::Answer }.message(),
        "HTTP error: 500 - Failed to submit answer"
    );
    assert_eq!(Request::UserSeed.task_name(), "fetch user seed");
    assert_eq!(Request::QuestKeys.task_name(), "fetch quest keys");
    assert_eq!(Request::Description.task_name(), "fetch description");
}

#[test]
fn messages_of_the_failures_of_an_input() {
    assert_eq!(
        EcError::MissingPart { part: 3 }.message(),
        "Decryption failed: Missing part 3 in input"
    );
    assert_eq!(
        EcError::KeyUnavailable { part: 2 }.message(),
        "Decryption failed: Part 2 key not available yet"
    );
}
