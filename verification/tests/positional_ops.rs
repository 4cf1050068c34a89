use learndb::index::wrap_index;
use learndb::ops::delete_at;
use learndb::ops::get;
use learndb::ops::insert_at;
use learndb::ops::insert_position;
use learndb::ops::DelError;
use learndb::store::ListStore;

fn store_from(entries: &[&str]) -> ListStore {
    let mut s = ListStore::new();
    for e in entries {
        insert_at(&mut s, None, (*e).to_string());
    }
    s
}

fn entries_of(s: &ListStore) -> Vec<String> {
    let mut out = Vec::new();
    let len = s.length();
    for i in 0..len {
        out.push(s.get_at(i).unwrap());
    }
    out
}

#[test]
fn wrap_index_is_at_least_one() {
    assert!(wrap_index(0, 0) >= 1);
    assert!(wrap_index(-100, 3) >= 1);
    assert!(wrap_index(-1, 0) >= 1);
    assert!(wrap_index(7, 2) >= 1);
    assert!(wrap_index(isize::MIN, 5) >= 1);
    assert!(wrap_index(isize::MAX, 5) >= 1);
}

#[test]
fn wrap_index_first_and_last() {
    for len in [1isize, 2, 3, 10] {
        assert_eq!(wrap_index(1, len), 1);
        assert_eq!(wrap_index(-1, len), len);
    }
}

#[test]
fn wrap_index_counts_back_from_end() {
    assert_eq!(wrap_index(-2, 3), 2);
    assert_eq!(wrap_index(-3, 3), 1);
    assert_eq!(wrap_index(-5, 3), 1);
    assert_eq!(wrap_index(0, 4), 1);
    assert_eq!(wrap_index(6, 4), 6);
}

#[test]
fn insert_without_index_appends() {
    let mut s = ListStore::new();
    assert_eq!(insert_at(&mut s, None, "red".to_string()), (1, 1));
    assert_eq!(insert_at(&mut s, None, "blue".to_string()), (2, 2));
    assert_eq!(entries_of(&s), ["red", "blue"]);
}

#[test]
fn insert_at_front_shifts_the_rest() {
    let mut s = store_from(&["red", "blue"]);
    assert_eq!(insert_at(&mut s, Some(1), "green".to_string()), (1, 3));
    assert_eq!(entries_of(&s), ["green", "red", "blue"]);
}

#[test]
fn insert_in_the_middle_shifts_the_tail() {
    let mut s = store_from(&["a", "b", "c", "d"]);
    assert_eq!(insert_at(&mut s, Some(3), "x".to_string()), (3, 5));
    assert_eq!(entries_of(&s), ["a", "b", "x", "c", "d"]);
}

#[test]
fn insert_with_negative_index_counts_from_end() {
    let mut s = store_from(&["a", "b", "c"]);
    assert_eq!(insert_at(&mut s, Some(-1), "x".to_string()), (3, 4));
    assert_eq!(entries_of(&s), ["a", "b", "x", "c"]);
}

#[test]
fn insert_with_index_zero_clamps_to_front() {
    let mut s = store_from(&["a", "b"]);
    assert_eq!(insert_at(&mut s, Some(0), "x".to_string()), (1, 3));
    assert_eq!(entries_of(&s), ["x", "a", "b"]);
}

#[test]
fn insert_with_index_zero_on_empty_topic_appends() {
    let mut s = ListStore::new();
    assert_eq!(insert_at(&mut s, Some(0), "x".to_string()), (1, 1));
    assert_eq!(entries_of(&s), ["x"]);
}

#[test]
fn insert_past_the_end_behaves_as_append() {
    let mut with_index = store_from(&["a", "b"]);
    let mut without_index = store_from(&["a", "b"]);
    let r1 = insert_at(&mut with_index, Some(10), "x".to_string());
    let r2 = insert_at(&mut without_index, None, "x".to_string());
    assert_eq!(r1, r2);
    assert_eq!(r1, (3, 3));
    assert_eq!(entries_of(&with_index), entries_of(&without_index));
}

#[test]
fn insert_position_decides_append_or_in_place() {
    assert_eq!(insert_position(None, 2), 3);
    assert_eq!(insert_position(Some(10), 2), 3);
    assert_eq!(insert_position(Some(3), 2), 3);
    assert_eq!(insert_position(Some(2), 2), 2);
    assert_eq!(insert_position(Some(-1), 2), 2);
    assert_eq!(insert_position(Some(0), 0), 1);
}

#[test]
fn get_negative_index_reads_from_end() {
    let s = store_from(&["green", "red", "blue"]);
    let (position, length, entry) = get(&s, -1);
    assert_eq!(position, 3);
    assert_eq!(length, 3);
    assert_eq!(entry.as_deref(), Some("blue"));
}

#[test]
fn get_on_empty_topic_finds_nothing() {
    let s = ListStore::new();
    let (position, length, entry) = get(&s, 1);
    assert_eq!(position, 1);
    assert_eq!(length, 0);
    assert_eq!(entry, None);
}

#[test]
fn get_past_the_end_finds_nothing() {
    let s = store_from(&["a", "b"]);
    let (position, length, entry) = get(&s, 7);
    assert_eq!(position, 7);
    assert_eq!(length, 2);
    assert_eq!(entry, None);
}

#[test]
fn insert_then_get_round_trip() {
    for (entries, index) in [
        (&["a", "b", "c"][..], 1isize),
        (&["a", "b", "c"][..], 2),
        (&["a", "b", "c"][..], 3),
        (&["a"][..], -1),
        (&[][..], 1),
    ] {
        let mut s = store_from(entries);
        let before = s.length();
        let (position, length) = insert_at(&mut s, Some(index), "fact".to_string());
        assert_eq!(length as usize, before + 1);
        let (got_position, got_length, entry) = get(&s, position);
        assert_eq!(got_position, position);
        assert_eq!(got_length, length);
        assert_eq!(entry.as_deref(), Some("fact"));
    }
}

#[test]
fn delete_returns_what_get_reported() {
    for index in [1isize, 2, 3, -1, -2] {
        let mut s = store_from(&["a", "b", "c"]);
        let (_, before, seen) = get(&s, index);
        let deleted = delete_at(&mut s, index).unwrap();
        assert_eq!(Some(deleted.as_str()), seen.as_deref());
        assert_eq!(s.length() as isize, before - 1);
    }
}

#[test]
fn delete_middle_collapses_the_list() {
    let mut s = store_from(&["green", "red", "blue"]);
    assert_eq!(delete_at(&mut s, 2), Ok("red".to_string()));
    assert_eq!(entries_of(&s), ["green", "blue"]);
}

#[test]
fn delete_on_empty_topic_says_so() {
    let mut s = ListStore::new();
    assert_eq!(delete_at(&mut s, 1), Err(DelError::EmptyTopic));
    assert_eq!(s.length(), 0);
}

#[test]
fn delete_past_the_end_is_not_found() {
    let mut s = store_from(&["a"]);
    assert_eq!(delete_at(&mut s, 5), Err(DelError::PositionNotFound));
    assert_eq!(entries_of(&s), ["a"]);
}

#[test]
fn two_inserts_keep_both_facts() {
    let mut s = store_from(&["a", "b"]);
    insert_at(&mut s, Some(1), "first".to_string());
    insert_at(&mut s, Some(1), "second".to_string());
    let all = entries_of(&s);
    assert_eq!(all.len(), 4);
    assert!(all.iter().any(|e| e == "first"));
    assert!(all.iter().any(|e| e == "second"));
}

#[test]
fn store_insert_before_anchors_on_first_occurrence() {
    let mut s = store_from(&["a", "b", "a"]);
    assert!(s.insert_before(&"a".to_string(), "x".to_string()));
    assert_eq!(entries_of(&s), ["x", "a", "b", "a"]);
}

#[test]
fn store_insert_before_missing_pivot_changes_nothing() {
    let mut s = store_from(&["a", "b"]);
    assert!(!s.insert_before(&"zz".to_string(), "x".to_string()));
    assert_eq!(entries_of(&s), ["a", "b"]);
}

#[test]
fn store_remove_by_value_takes_first_occurrence() {
    let mut s = store_from(&["a", "b", "a"]);
    assert!(s.remove_by_value(&"a".to_string()));
    assert_eq!(entries_of(&s), ["b", "a"]);
    assert!(!s.remove_by_value(&"zz".to_string()));
    assert_eq!(entries_of(&s), ["b", "a"]);
}

#[test]
fn store_get_at_is_zero_based() {
    let s = store_from(&["a", "b"]);
    assert_eq!(s.get_at(0).as_deref(), Some("a"));
    assert_eq!(s.get_at(1).as_deref(), Some("b"));
    assert_eq!(s.get_at(2), None);
}
