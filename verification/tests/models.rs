use ec_cli::error::EcError;
use ec_cli::models::{EncryptedPayload, QuestKeys};

fn keys() -> QuestKeys {
    QuestKeys { key1: "one".to_string(), key2: Some("two".to_string()), key3: None }
}

#[test]
fn get_key_selects_by_part() {
    let keys = keys();
    assert_eq!(keys.get_key(1), Ok("one"));
    assert_eq!(keys.get_key(2), Ok("two"));
    assert_eq!(keys.get_key(3), Err("Part 3 key not available yet".to_string()));
    let keys = QuestKeys { key1: "one".to_string(), key2: None, key3: Some("three".to_string()) };
    assert_eq!(keys.get_key(2), Err("Part 2 key not available yet".to_string()));
    assert_eq!(keys.get_key(3), Ok("three"));
}

#[test]
fn get_key_falls_back_to_the_first_key() {
    let keys = keys();
    assert_eq!(keys.get_key(0), Ok("one"));
    assert_eq!(keys.get_key(4), Ok("one"));
    assert_eq!(keys.get_key(-1), Ok("one"));
}

#[test]
fn key_for_knows_three_parts() {
    let keys = keys();
    assert_eq!(keys.key_for(1), Some("one"));
    assert_eq!(keys.key_for(2), Some("two"));
    assert_eq!(keys.key_for(3), None);
    assert_eq!(keys.key_for(0), None);
    assert_eq!(keys.key_for(4), None);
}

#[test]
fn keys_unlock_in_order() {
    assert_eq!(
        QuestKeys::new("a".to_string(), None, None),
        Ok(QuestKeys { key1: "a".to_string(), key2: None, key3: None })
    );
    assert_eq!(
        QuestKeys::new("a".to_string(), Some("b".to_string()), Some("c".to_string())),
        Ok(QuestKeys {
            key1: "a".to_string(),
            key2: Some("b".to_string()),
            key3: Some("c".to_string())
        })
    );
    assert_eq!(
        QuestKeys::new("a".to_string(), None, Some("c".to_string())),
        Err(EcError::MalformedKeyData)
    );
    assert!(keys().is_well_formed());
    let out_of_order =
        QuestKeys { key1: "a".to_string(), key2: None, key3: Some("c".to_string()) };
    assert!(!out_of_order.is_well_formed());
}

#[test]
fn available_parts_are_counted() {
    assert_eq!(keys().available_part_count(), 2);
    assert_eq!(QuestKeys::new("a".to_string(), None, None).unwrap().available_part_count(), 1);
    let all = QuestKeys {
        key1: "a".to_string(),
        key2: Some("b".to_string()),
        key3: Some("c".to_string()),
    };
    assert_eq!(all.available_part_count(), 3);
}

#[test]
fn ciphertext_of_a_part() {
    let payload = EncryptedPayload::Parts {
        part1: Some("aa".to_string()),
        part2: None,
        part3: Some("cc".to_string()),
    };
    assert_eq!(payload.ciphertext(1), Some("aa"));
    assert_eq!(payload.ciphertext(2), None);
    assert_eq!(payload.ciphertext(3), Some("cc"));
    assert_eq!(payload.ciphertext(4), None);
    let payload = EncryptedPayload::Legacy("ff".to_string());
    assert_eq!(payload.ciphertext(1), Some("ff"));
    assert_eq!(payload.ciphertext(2), None);
}
