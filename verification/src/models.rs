//! The data that travels between the remote service and the library.

use vstd::prelude::*;
use vstd::string::StringExecFns;
use crate::error::EcError;

verus! {

/// The signed-in user, as the remote service describes them.
#[derive(Debug, Clone, Copy, PartialEq, Eq)]
pub struct User {
    pub seed: i32,
}

/// The keys of one quest. `key1` is always there; `key2` and `key3` arrive
/// as the second and third part unlock.
#[derive(Debug, Clone, PartialEq, Eq)]
pub struct QuestKeys {
    pub key1: String,
    pub key2: Option<String>,
    pub key3: Option<String>,
}

/// The characters of an optional string.
pub open spec fn text_of(s: Option<String>) -> Option<Seq<char>> {
    match s {
        Some(t) => Some(t@),
        None => None,
    }
}

/// What `get_key` answers when the key of `part` is still locked.
pub open spec fn locked_message(part: int) -> Seq<char> {
    if part == 2 {
        "Part 2 key not available yet"@
    } else {
        "Part 3 key not available yet"@
    }
}

impl QuestKeys {
    /// Keys unlock in order: the third is never there without the second.
    pub open spec fn well_formed(&self) -> bool {
        self.key3 is Some ==> self.key2 is Some
    }

    /// The key that unlocks `part`, where `part` is one of 1, 2 and 3 and
    /// its key is there.
    pub open spec fn key_at(&self, part: int) -> Option<Seq<char>> {
        if part == 1 {
            Some(self.key1@)
        } else if part == 2 {
            text_of(self.key2)
        } else if part == 3 {
            text_of(self.key3)
        } else {
            None
        }
    }

    /// The key that `get_key` selects for `part`: that of part 2 or 3 where
    /// `part` names it, the first key for every other number.
    pub open spec fn selected_key(&self, part: int) -> Option<Seq<char>> {
        if part == 2 || part == 3 {
            self.key_at(part)
        } else {
            Some(self.key1@)
        }
    }

    /// How many parts the keys unlock.
    pub open spec fn available_parts(&self) -> int {
        1 + (if self.key2 is Some {
            1int
        } else {
            0int
        }) + (if self.key3 is Some {
            1int
        } else {
            0int
        })
    }

    /// Puts a key set together, and refuses one whose third key is there
    /// without the second.
    pub fn new(key1: String, key2: Option<String>, key3: Option<String>) -> (r: Result<
        QuestKeys,
        EcError,
    >)
        ensures
            match r {
                Ok(keys) => keys.well_formed() && keys.key1 == key1 && keys.key2 == key2
                    && keys.key3 == key3,
                Err(e) => e == EcError::MalformedKeyData && key3 is Some && key2 is None,
            },
    {
        if key3.is_some() && key2.is_none() {
            Err(EcError::MalformedKeyData)
        } else {
            Ok(QuestKeys { key1, key2, key3 })
        }
    }

    /// Tells whether the keys unlock in order.
    pub fn is_well_formed(&self) -> (b: bool)
        ensures
            b == self.well_formed(),
    {
        !(self.key3.is_some() && self.key2.is_none())
    }

    /// The key for `part`: the second and third key for parts 2 and 3, which
    /// may still be locked, and the first key for any other number.
    pub fn get_key(&self, part: i32) -> (r: Result<&str, String>)
        ensures
            match r {
                Ok(key) => self.selected_key(part as int) == Some(key@),
                Err(message) => self.selected_key(part as int) is None && message@
                    == locked_message(part as int),
            },
    {
        if part == 2 {
            match &self.key2 {
                Some(key) => Ok(key.as_str()),
                None => Err(String::from_str("Part 2 key not available yet")),
            }
        } else if part == 3 {
            match &self.key3 {
                Some(key) => Ok(key.as_str()),
                None => Err(String::from_str("Part 3 key not available yet")),
            }
        } else {
            Ok(self.key1.as_str())
        }
    }

    /// The key that unlocks `part`, if `part` is one of 1, 2 and 3 and its
    /// key is there.
    pub fn key_for(&self, part: i32) -> (r: Option<&str>)
        ensures
            match r {
                Some(key) => self.key_at(part as int) == Some(key@),
                None => self.key_at(part as int) is None,
            },
    {
        if part == 1 {
            Some(self.key1.as_str())
        } else if part == 2 {
            match &self.key2 {
                Some(key) => Some(key.as_str()),
                None => None,
            }
        } else if part == 3 {
            match &self.key3 {
                Some(key) => Some(key.as_str()),
                None => None,
            }
        } else {
            None
        }
    }

    /// Counts the parts that the keys unlock.
    pub fn available_part_count(&self) -> (n: usize)
        ensures
            n == self.available_parts(),
            1 <= n <= 3,
    {
        let mut n: usize = 1;
        if self.key2.is_some() {
            n = n + 1;
        }
        if self.key3.is_some() {
            n = n + 1;
        }
        n
    }
}

/// An answer on its way to the remote service.
#[derive(Debug, Clone, PartialEq, Eq)]
pub struct AnswerPayload {
    pub answer: String,
}

/// What the remote service says of a submitted answer.
#[derive(Debug, Clone, PartialEq, Eq)]
pub struct SubmitResponse {
    pub correct: bool,
    pub length_correct: bool,
    pub first_correct: bool,
    pub time: i64,
    pub global_place: i64,
    pub global_score: i64,
    pub message: String,
}

/// An encrypted asset as the remote service sends it: one ciphertext in
/// hex, or one per part number.
#[derive(Debug, Clone, PartialEq, Eq)]
pub enum EncryptedPayload {
    Legacy(String),
    Parts { part1: Option<String>, part2: Option<String>, part3: Option<String> },
}

/// An encrypted payload by the characters of its ciphertexts.
pub enum PayloadView {
    Legacy(Seq<char>),
    Parts { part1: Option<Seq<char>>, part2: Option<Seq<char>>, part3: Option<Seq<char>> },
}

impl View for EncryptedPayload {
    type V = PayloadView;

    open spec fn view(&self) -> PayloadView {
        match *self {
            EncryptedPayload::Legacy(text) => PayloadView::Legacy(text@),
            EncryptedPayload::Parts { part1, part2, part3 } => PayloadView::Parts {
                part1: text_of(part1),
                part2: text_of(part2),
                part3: text_of(part3),
            },
        }
    }
}

impl PayloadView {
    /// The ciphertext of `part`. The single ciphertext of the legacy form
    /// is that of part 1.
    pub open spec fn ciphertext(self, part: int) -> Option<Seq<char>> {
        match self {
            PayloadView::Legacy(text) => if part == 1 {
                Some(text)
            } else {
                None
            },
            PayloadView::Parts { part1, part2, part3 } => if part == 1 {
                part1
            } else if part == 2 {
                part2
            } else if part == 3 {
                part3
            } else {
                None
            },
        }
    }
}

impl EncryptedPayload {
    /// The ciphertext of `part`, if the payload holds one.
    pub fn ciphertext(&self, part: i32) -> (r: Option<&str>)
        ensures
            match r {
                Some(text) => self@.ciphertext(part as int) == Some(text@),
                None => self@.ciphertext(part as int) is None,
            },
    {
        let held = match self {
            EncryptedPayload::Legacy(text) => {
                if part == 1 {
                    return Some(text.as_str());
                }
                return None;
            },
            EncryptedPayload::Parts { part1, part2, part3 } => if part == 1 {
                part1
            } else if part == 2 {
                part2
            } else if part == 3 {
                part3
            } else {
                return None;
            },
        };
        match held {
            Some(text) => Some(text.as_str()),
            None => None,
        }
    }
}

/// The last sample found in the text of a part.
#[derive(Debug, Clone, PartialEq, Eq)]
pub struct Sample {
    pub part_number: i32,
    pub content: String,
}

/// The expected answer marked last in the text of a part, without the
/// whitespace around it.
#[derive(Debug, Clone, PartialEq, Eq)]
pub struct ExpectedAnswer {
    pub part_number: i32,
    pub value: String,
}

/// How a cached document compares with the parts that are unlocked now.
#[derive(Debug, Clone, Copy, PartialEq, Eq)]
pub struct CacheDecision {
    pub is_stale: bool,
    pub available_part_count: usize,
    pub cached_part_count: usize,
}

} // verus!
