//! What is done with the answers of the remote service once they are in
//! hand: the payload is told apart and parsed, its parts are decrypted and
//! joined into one document, and a status is turned into an outcome.

use vstd::prelude::*;
use vstd::string::StringExecFns;
use vstd::utf8::encode_utf8;
use crate::crypto::{decrypt_aes_cbc, decryption, is_outcome};
use crate::document::{leading_separator, separator_text};
use crate::error::{EcError, Request};
use crate::json::{held, json_members, member, parse_json, text_at, text_in};
use crate::models::{text_of, EncryptedPayload, PayloadView, QuestKeys};
use crate::text::{
    decimal,
    decimal_text,
    first_visible,
    strip_quotes,
    trim,
    trimmed,
    trimmed_start,
    unquoted,
};

verus! {

/// True when the first character of `body` that is no whitespace opens a
/// JSON object: such a payload maps part numbers to ciphertexts.
pub open spec fn is_part_mapping(body: Seq<char>) -> bool {
    trimmed_start(body).len() > 0 && trimmed_start(body)[0] == '{'
}

/// The payload that `body` holds. A body that opens a JSON object must
/// parse, and its members "1", "2" and "3" are the ciphertexts of the
/// parts, where they hold text; any other body is one ciphertext, with the
/// double quotes around it removed.
pub open spec fn payload_of(body: Seq<char>) -> Result<PayloadView, EcError> {
    if is_part_mapping(body) {
        match json_members(body) {
            None => Err(EcError::MalformedPayload),
            Some(members) => Ok(
                PayloadView::Parts {
                    part1: text_at(members, "1"@),
                    part2: text_at(members, "2"@),
                    part3: text_at(members, "3"@),
                },
            ),
        }
    } else {
        Ok(PayloadView::Legacy(unquoted(body)))
    }
}

/// Reads the body of an asset response as an encrypted payload.
pub fn parse_payload(body: &str) -> (r: Result<EncryptedPayload, EcError>)
    ensures
        match r {
            Ok(payload) => payload_of(body@) == Ok::<PayloadView, EcError>(payload@),
            Err(e) => payload_of(body@) == Err::<PayloadView, EcError>(e),
        },
{
    let opens_object = match first_visible(body) {
        Some(c) => c == '{',
        None => false,
    };
    if opens_object {
        match parse_json(body) {
            Err(_) => Err(EcError::MalformedPayload),
            Ok(value) => {
                let part1 = text_in(member(&value, "1"));
                let part2 = text_in(member(&value, "2"));
                let part3 = text_in(member(&value, "3"));
                Ok(EncryptedPayload::Parts { part1, part2, part3 })
            },
        }
    } else {
        Ok(EncryptedPayload::Legacy(strip_quotes(body)))
    }
}

/// True for what a member holds that may be missing but must be text where
/// it is there.
pub open spec fn is_optional_text(found: Option<Option<Seq<char>>>) -> bool {
    found != Some(None::<Seq<char>>)
}

/// The three keys that the answer `body` of a key lookup holds. The answer
/// must be a JSON object whose member `key1` is text; `key2` and `key3` may
/// be missing or `null`, and must be text where they are there. The third
/// key is not accepted without the second.
pub open spec fn quest_keys_of(body: Seq<char>) -> Option<
    (Seq<char>, Option<Seq<char>>, Option<Seq<char>>),
> {
    match json_members(body) {
        None => None,
        Some(members) => {
            let key2 = held(members, "key2"@);
            let key3 = held(members, "key3"@);
            match held(members, "key1"@) {
                Some(Some(key1)) => if is_optional_text(key2) && is_optional_text(key3) && (key3
                    is Some ==> key2 is Some) {
                    Some((key1, text_at(members, "key2"@), text_at(members, "key3"@)))
                } else {
                    None
                },
                _ => None,
            }
        },
    }
}

/// Reads the keys of a quest from the answer of a key lookup.
pub fn parse_quest_keys(body: &str) -> (r: Result<QuestKeys, EcError>)
    ensures
        match r {
            Ok(keys) => keys.well_formed() && quest_keys_of(body@) == Some(
                (keys.key1@, text_of(keys.key2), text_of(keys.key3)),
            ),
            Err(e) => e == EcError::MalformedKeyData && quest_keys_of(body@) is None,
        },
{
    let value = match parse_json(body) {
        Ok(value) => value,
        Err(_) => {
            return Err(EcError::MalformedKeyData);
        },
    };
    let key1 = match member(&value, "key1") {
        Some(Some(key1)) => key1,
        _ => {
            return Err(EcError::MalformedKeyData);
        },
    };
    let key2 = match member(&value, "key2") {
        Some(None) => {
            return Err(EcError::MalformedKeyData);
        },
        found => text_in(found),
    };
    let key3 = match member(&value, "key3") {
        Some(None) => {
            return Err(EcError::MalformedKeyData);
        },
        found => text_in(found),
    };
    QuestKeys::new(key1, key2, key3)
}

/// What decrypting `part` gives, or nothing where the payload holds no
/// ciphertext for it or its key is still locked.
pub open spec fn part_text(payload: PayloadView, keys: QuestKeys, part: int) -> Option<
    Result<Seq<char>, EcError>,
> {
    match (keys.key_at(part), payload.ciphertext(part)) {
        (Some(key), Some(ciphertext)) => Some(
            decryption(encode_utf8(ciphertext), encode_utf8(key)),
        ),
        _ => None,
    }
}

/// `document` with `part` joined to it: unchanged where the part is
/// skipped, followed by the part's separator and text where it decrypts,
/// and a failure that names the part where it does not. A document that
/// has failed stays failed.
pub open spec fn with_part(
    document: Result<Seq<char>, EcError>,
    payload: PayloadView,
    keys: QuestKeys,
    part: int,
) -> Result<Seq<char>, EcError> {
    match document {
        Err(e) => Err(e),
        Ok(text) => match part_text(payload, keys, part) {
            None => Ok(text),
            Some(Err(cause)) => Err(
                EcError::AssemblyError { part: part as i32, cause: Box::new(cause) },
            ),
            Some(Ok(decoded)) => Ok(text + leading_separator(part) + decoded),
        },
    }
}

/// The document that `payload` decrypts to under `keys`: parts 1, 2 and 3
/// joined in this order, or the failure of the first part that does not
/// decrypt.
pub open spec fn assembly(payload: PayloadView, keys: QuestKeys) -> Result<Seq<char>, EcError> {
    with_part(
        with_part(with_part(Ok(Seq::empty()), payload, keys, 1), payload, keys, 2),
        payload,
        keys,
        3,
    )
}

/// Joins `part` to `document`, if the payload holds it and its key is
/// there.
fn join_part(document: &mut String, payload: &EncryptedPayload, keys: &QuestKeys, part: i32) -> (r:
    Result<(), EcError>)
    requires
        1 <= part <= 3,
    ensures
        match r {
            Ok(()) => with_part(Ok(old(document)@), payload@, *keys, part as int) == Ok::<
                Seq<char>,
                EcError,
            >(final(document)@),
            Err(e) => with_part(Ok(old(document)@), payload@, *keys, part as int) == Err::<
                Seq<char>,
                EcError,
            >(e),
        },
{
    let key = match keys.key_for(part) {
        Some(key) => key,
        None => {
            return Ok(());
        },
    };
    let ciphertext = match payload.ciphertext(part) {
        Some(ciphertext) => ciphertext,
        None => {
            return Ok(());
        },
    };
    match decrypt_aes_cbc(ciphertext, key) {
        Err(cause) => Err(EcError::AssemblyError { part, cause: Box::new(cause) }),
        Ok(decoded) => {
            if part != 1 {
                document.append(separator_text(part).as_str());
            }
            document.append(decoded.as_str());
            assert(document@ =~= old(document)@ + leading_separator(part as int) + decoded@);
            Ok(())
        },
    }
}

/// Decrypts every part of `payload` whose key is there and joins the texts
/// into one document, each of parts 2 and 3 behind its separator. A part
/// without a key is skipped; a part that does not decrypt fails the whole
/// document.
pub fn assemble(payload: &EncryptedPayload, keys: &QuestKeys) -> (r: Result<String, EcError>)
    ensures
        is_outcome(r, assembly(payload@, *keys)),
{
    let mut document = String::new();
    match join_part(&mut document, payload, keys, 1) {
        Ok(()) => {},
        Err(e) => {
            return Err(e);
        },
    }
    match join_part(&mut document, payload, keys, 2) {
        Ok(()) => {},
        Err(e) => {
            return Err(e);
        },
    }
    match join_part(&mut document, payload, keys, 3) {
        Ok(()) => {},
        Err(e) => {
            return Err(e);
        },
    }
    Ok(document)
}

/// The puzzle input of `part`: the ciphertext that the payload holds for
/// it, decrypted with the key that `get_key` selects. The single ciphertext
/// of the legacy form serves every part.
pub open spec fn input_text(payload: PayloadView, keys: QuestKeys, part: int) -> Result<
    Seq<char>,
    EcError,
> {
    match keys.selected_key(part) {
        None => Err(EcError::KeyUnavailable { part: part as i32 }),
        Some(key) => {
            let stored = match payload {
                PayloadView::Legacy(ciphertext) => Some(ciphertext),
                _ => payload.ciphertext(part),
            };
            match stored {
                None => Err(EcError::MissingPart { part: part as i32 }),
                Some(ciphertext) => decryption(encode_utf8(ciphertext), encode_utf8(key)),
            }
        },
    }
}

/// Decrypts the puzzle input of `part`.
pub fn decrypt_input(payload: &EncryptedPayload, keys: &QuestKeys, part: i32) -> (r: Result<
    String,
    EcError,
>)
    ensures
        is_outcome(r, input_text(payload@, *keys, part as int)),
{
    let key = match keys.get_key(part) {
        Ok(key) => key,
        Err(_) => {
            return Err(EcError::KeyUnavailable { part });
        },
    };
    let stored = match payload {
        EncryptedPayload::Legacy(ciphertext) => Some(ciphertext.as_str()),
        _ => payload.ciphertext(part),
    };
    match stored {
        None => Err(EcError::MissingPart { part }),
        Some(ciphertext) => decrypt_aes_cbc(ciphertext, key),
    }
}

/// True for the statuses that report success: 200 to 299.
pub open spec fn is_success(status: u16) -> bool {
    200 <= status < 300
}

/// What a status means for a request: success carries on, and any other
/// status is the failure of that request. A failed key lookup has an error
/// of its own.
pub open spec fn status_outcome(status: u16, request: Request) -> Result<(), EcError> {
    if is_success(status) {
        Ok(())
    } else if request == Request::Answer && status == 409 {
        Err(EcError::AlreadySubmitted)
    } else if request == Request::QuestKeys {
        Err(EcError::KeyFetchError { status: Some(status) })
    } else {
        Err(EcError::HttpError { status, request })
    }
}

/// Turns the status of a response into the outcome of its request.
pub fn check_status(status: u16, request: Request) -> (r: Result<(), EcError>)
    ensures
        r == status_outcome(status, request),
{
    if 200 <= status && status < 300 {
        Ok(())
    } else {
        match request {
            Request::Answer => if status == 409 {
                Err(EcError::AlreadySubmitted)
            } else {
                Err(EcError::HttpError { status, request })
            },
            Request::QuestKeys => Err(EcError::KeyFetchError { status: Some(status) }),
            _ => Err(EcError::HttpError { status, request }),
        }
    }
}

/// What the answer of a key lookup means: `status` is the status it came
/// with, or nothing where the service could not be reached.
pub open spec fn key_lookup_outcome(status: Option<u16>) -> Result<(), EcError> {
    match status {
        Some(status) => status_outcome(status, Request::QuestKeys),
        None => Err(EcError::KeyFetchError { status: None }),
    }
}

/// Turns the answer of a key lookup, or the lack of one, into an outcome.
pub fn check_key_lookup(status: Option<u16>) -> (r: Result<(), EcError>)
    ensures
        r == key_lookup_outcome(status),
{
    match status {
        Some(status) => check_status(status, Request::QuestKeys),
        None => Err(EcError::KeyFetchError { status: None }),
    }
}

/// The address of the service.
pub const BASE_URL: &'static str = "https://everybody.codes";

/// The address from which the service hands out its assets.
pub const CDN_URL: &'static str = "https://everybody-codes.b-cdn.net";

/// The name under which the program speaks to the service.
pub const USER_AGENT: &'static str = "ec-cli/0.1.0";

/// A place where the authentication cookie may be found.
#[derive(Debug, Clone, Copy, PartialEq, Eq)]
pub enum CookieSource {
    /// The environment variable `EC_COOKIE`.
    Environment,
    /// The file `.everybodycodes.cookie` in the home directory.
    HomeFile,
    /// The file `everybodycodes/cookie` in the configuration directory.
    ConfigFile,
}

/// The place to look at once `source` has given nothing, or the failure
/// that ends the search.
pub open spec fn source_after(source: CookieSource) -> Result<CookieSource, EcError> {
    match source {
        CookieSource::Environment => Ok(CookieSource::HomeFile),
        CookieSource::HomeFile => Ok(CookieSource::ConfigFile),
        CookieSource::ConfigFile => Err(EcError::MissingCookie),
    }
}

/// The cookie in what was found at `source`: the value of the environment
/// variable as it is, the contents of a file without the whitespace around
/// them.
pub open spec fn cookie_text(source: CookieSource, found: Seq<char>) -> Seq<char> {
    if source == CookieSource::Environment {
        found
    } else {
        trimmed(found)
    }
}

/// The place where the cookie is looked for first.
pub fn first_cookie_source() -> (source: CookieSource)
    ensures
        source == CookieSource::Environment,
{
    CookieSource::Environment
}

/// The place to look at next, or `MissingCookie` when every place has been
/// tried.
pub fn next_cookie_source(source: CookieSource) -> (next: Result<CookieSource, EcError>)
    ensures
        next == source_after(source),
{
    match source {
        CookieSource::Environment => Ok(CookieSource::HomeFile),
        CookieSource::HomeFile => Ok(CookieSource::ConfigFile),
        CookieSource::ConfigFile => Err(EcError::MissingCookie),
    }
}

/// Reads the cookie from what was found at `source`.
pub fn cookie_from(source: CookieSource, found: &str) -> (cookie: String)
    ensures
        cookie@ == cookie_text(source, found@),
{
    match source {
        CookieSource::Environment => String::from_str(found),
        _ => trim(found),
    }
}

/// The header that carries the authentication cookie.
pub open spec fn cookie_header_text(cookie: Seq<char>) -> Seq<char> {
    "everybody-codes="@ + cookie
}

/// Where the signed-in user is described.
pub open spec fn user_url_text() -> Seq<char> {
    BASE_URL@ + "/api/user/me"@
}

/// Where the keys of a quest are looked up.
pub open spec fn quest_keys_url_text(year: int, day: int) -> Seq<char> {
    BASE_URL@ + "/api/event/"@ + decimal_text(year) + "/quest/"@ + decimal_text(day)
}

/// Where the encrypted input of a quest lies for the user with `seed`.
pub open spec fn input_url_text(year: int, day: int, seed: int) -> Seq<char> {
    CDN_URL@ + "/assets/"@ + decimal_text(year) + "/"@ + decimal_text(day) + "/input/"@
        + decimal_text(seed) + ".json"@
}

/// Where the encrypted description of a quest lies.
pub open spec fn description_url_text(year: int, day: int) -> Seq<char> {
    CDN_URL@ + "/assets/"@ + decimal_text(year) + "/"@ + decimal_text(day) + "/description.json"@
}

/// Where an answer to a part of a quest is sent.
pub open spec fn answer_url_text(year: int, day: int, part: int) -> Seq<char> {
    quest_keys_url_text(year, day) + "/part/"@ + decimal_text(part) + "/answer"@
}

/// Formats the authentication cookie for the `Cookie` header.
pub fn cookie_header(cookie: &str) -> (header: String)
    ensures
        header@ == cookie_header_text(cookie@),
{
    let mut header = String::from_str("everybody-codes=");
    header.append(cookie);
    header
}

/// The address at which the signed-in user is described.
pub fn user_url() -> (url: String)
    ensures
        url@ == user_url_text(),
{
    let mut url = String::from_str(BASE_URL);
    url.append("/api/user/me");
    url
}

/// The address at which the keys of a quest are looked up.
pub fn quest_keys_url(year: i32, day: i32) -> (url: String)
    ensures
        url@ == quest_keys_url_text(year as int, day as int),
{
    let mut url = String::from_str(BASE_URL);
    url.append("/api/event/");
    url.append(decimal(year as i64).as_str());
    url.append("/quest/");
    url.append(decimal(day as i64).as_str());
    url
}

/// The address of the encrypted input of a quest for the user with `seed`.
pub fn input_url(year: i32, day: i32, seed: i32) -> (url: String)
    ensures
        url@ == input_url_text(year as int, day as int, seed as int),
{
    let mut url = String::from_str(CDN_URL);
    url.append("/assets/");
    url.append(decimal(year as i64).as_str());
    url.append("/");
    url.append(decimal(day as i64).as_str());
    url.append("/input/");
    url.append(decimal(seed as i64).as_str());
    url.append(".json");
    url
}

/// The address of the encrypted description of a quest.
pub fn description_url(year: i32, day: i32) -> (url: String)
    ensures
        url@ == description_url_text(year as int, day as int),
{
    let mut url = String::from_str(CDN_URL);
    url.append("/assets/");
    url.append(decimal(year as i64).as_str());
    url.append("/");
    url.append(decimal(day as i64).as_str());
    url.append("/description.json");
    url
}

/// The address to which an answer to a part of a quest is sent.
pub fn answer_url(year: i32, day: i32, part: i32) -> (url: String)
    ensures
        url@ == answer_url_text(year as int, day as int, part as int),
{
    let mut url = quest_keys_url(year, day);
    url.append("/part/");
    url.append(decimal(part as i64).as_str());
    url.append("/answer");
    assert(url@ =~= answer_url_text(year as int, day as int, part as int));
    url
}

} // verus!
