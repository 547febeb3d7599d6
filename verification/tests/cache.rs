use ec_cli::cache::{cache_decision, cached_part_count, is_stale};
use ec_cli::document::separator_text;
use ec_cli::models::{CacheDecision, QuestKeys};

fn keys(key2: bool, key3: bool) -> QuestKeys {
    QuestKeys {
        key1: "k1".to_string(),
        key2: if key2 { Some("k2".to_string()) } else { None },
        key3: if key3 { Some("k3".to_string()) } else { None },
    }
}

#[test]
fn two_part_cache_is_stale_once_the_third_key_is_there() {
    let cached = format!("part one{}part two", separator_text(2));
    assert!(is_stale(&cached, &keys(true, true)));
    assert!(!is_stale(&cached, &keys(true, false)));
}

#[test]
fn cache_is_not_stale_when_it_holds_more_than_is_unlocked() {
    let cached = format!("one{}two{}three", separator_text(2), separator_text(3));
    assert!(!is_stale(&cached, &keys(true, true)));
    assert!(!is_stale(&cached, &keys(true, false)));
    assert!(!is_stale(&cached, &keys(false, false)));
}

#[test]
fn one_part_cache_is_stale_with_any_further_key() {
    assert!(!is_stale("just part one", &keys(false, false)));
    assert!(is_stale("just part one", &keys(true, false)));
    assert!(is_stale("just part one", &keys(true, true)));
    assert!(is_stale("", &keys(true, false)));
}

#[test]
fn cache_decision_counts_both_sides() {
    let cached = format!("one{}two", separator_text(2));
    assert_eq!(
        cache_decision(&cached, &keys(true, true)),
        CacheDecision { is_stale: true, available_part_count: 3, cached_part_count: 2 }
    );
    assert_eq!(
        cache_decision(&cached, &keys(false, false)),
        CacheDecision { is_stale: false, available_part_count: 1, cached_part_count: 2 }
    );
    assert_eq!(
        cache_decision("one", &keys(false, true)),
        CacheDecision { is_stale: true, available_part_count: 2, cached_part_count: 1 }
    );
}

#[test]
fn cached_parts_are_counted_by_presence_of_the_marker() {
    assert_eq!(cached_part_count("x PART 2 y PART 2 z"), 2);
    assert_eq!(cached_part_count("x PART 3 y"), 2);
    assert_eq!(cached_part_count("x PART 3 y PART 2 "), 3);
    // The marker has a space on either side.
    assert_eq!(cached_part_count("xPART 2 y"), 1);
    assert_eq!(cached_part_count(" PART 2"), 1);
    assert_eq!(cached_part_count(" PART 2 "), 2);
    assert_eq!(cached_part_count(" PART  2 "), 1);
}
