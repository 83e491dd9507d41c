use studio::json::{object_get, object_insert, JsonNumber, JsonValue};
use studio::operators::{
    boolean_operator_from_key, boolean_operator_key, boolean_operator_options, compare_operator_from_key,
    compare_operator_key, compare_operator_options, math_operator_from_key, math_operator_key, math_operator_options,
    notification_level_from_key, notification_level_key, notification_level_options, BooleanOperator, CompareOperator,
    MathOperator, NotificationLevel,
};
use studio::patch_queue::{PatchQueue, PendingPatch, SaveFailure};

fn pending(program: &str, base_version: i64, payload: u32) -> PendingPatch<u32> {
    PendingPatch { api_base_url: "http://x".to_owned(), program_id: program.to_owned(), base_version, payload }
}

#[test]
fn batches_go_out_in_order_against_the_newest_version() {
    let mut q: PatchQueue<u32> = PatchQueue::new();
    assert!(q.submit(pending("p", 3, 1)));
    assert!(!q.submit(pending("p", 3, 2)));
    assert!(!q.submit(pending("other", 7, 3)));
    let first = q.next_batch().expect("queued");
    assert_eq!((first.program_id.as_str(), first.base_version, first.payload), ("p", 3, 1));
    q.record_saved("p", 5);
    let second = q.next_batch().expect("queued");
    assert_eq!((second.base_version, second.payload), (5, 2));
    q.record_saved("p", 4);
    let third = q.next_batch().expect("queued");
    assert_eq!((third.program_id.as_str(), third.base_version), ("other", 7));
    assert!(q.next_batch().is_none());
    assert!(q.submit(pending("p", 1, 9)));
    let again = q.next_batch().expect("queued");
    assert_eq!(again.base_version, 4);
}

#[test]
fn a_conflict_drops_the_programs_batches() {
    let mut q: PatchQueue<u32> = PatchQueue::new();
    q.submit(pending("p", 1, 1));
    q.submit(pending("p", 1, 2));
    q.submit(pending("other", 1, 3));
    q.submit(pending("p", 1, 4));
    let first = q.next_batch().expect("queued");
    assert_eq!(first.payload, 1);
    q.record_saved("p", 10);
    assert_eq!(q.record_failed("p", "draft version conflict: expected 10"), SaveFailure::Conflict);
    let next = q.next_batch().expect("the other program's batch stays");
    assert_eq!((next.program_id.as_str(), next.payload), ("other", 3));
    assert!(q.next_batch().is_none());
    q.submit(pending("p", 2, 5));
    assert_eq!(q.next_batch().expect("queued").base_version, 2);
}

#[test]
fn other_failures_keep_the_queue() {
    let mut q: PatchQueue<u32> = PatchQueue::new();
    q.submit(pending("p", 1, 1));
    q.submit(pending("p", 1, 2));
    q.next_batch();
    q.record_saved("p", 8);
    assert_eq!(q.record_failed("p", "network down"), SaveFailure::Other("network down".to_owned()));
    let next = q.next_batch().expect("still queued");
    assert_eq!((next.payload, next.base_version), (2, 1));
}

#[test]
fn operator_keys_round_trip() {
    for op in [CompareOperator::Equal, CompareOperator::NotEqual, CompareOperator::Greater, CompareOperator::GreaterOrEqual, CompareOperator::Less, CompareOperator::LessOrEqual, CompareOperator::Contains] {
        assert_eq!(compare_operator_from_key(compare_operator_key(op)), op);
    }
    for op in [BooleanOperator::And, BooleanOperator::Or, BooleanOperator::Not] {
        assert_eq!(boolean_operator_from_key(boolean_operator_key(op)), op);
    }
    for op in [MathOperator::Add, MathOperator::Subtract, MathOperator::Multiply, MathOperator::Divide, MathOperator::Remainder] {
        assert_eq!(math_operator_from_key(math_operator_key(op)), op);
    }
    for level in [NotificationLevel::Info, NotificationLevel::Success, NotificationLevel::Warning, NotificationLevel::Error] {
        assert_eq!(notification_level_from_key(notification_level_key(level)), level);
    }
    assert_eq!(compare_operator_options(CompareOperator::Less).iter().filter(|o| o.selected).count(), 1);
    assert_eq!(boolean_operator_options(BooleanOperator::Not).len(), 3);
    assert_eq!(math_operator_options(MathOperator::Add).len(), 5);
    assert_eq!(notification_level_options(NotificationLevel::Error).len(), 4);
}

#[test]
fn object_entries_read_back_what_was_written() {
    let mut entries = Vec::new();
    object_insert(&mut entries, "a".to_owned(), JsonValue::Bool(true));
    object_insert(&mut entries, "b".to_owned(), JsonValue::Null);
    object_insert(&mut entries, "a".to_owned(), JsonValue::Number(JsonNumber::NegInt(-3)));
    assert_eq!(entries.len(), 2);
    assert!(matches!(object_get(&entries, "a"), Some(JsonValue::Number(JsonNumber::NegInt(-3)))));
    assert!(matches!(object_get(&entries, "b"), Some(JsonValue::Null)));
    assert!(object_get(&entries, "c").is_none());
    assert_eq!(JsonValue::Bool(false).as_bool(), Some(false));
    assert_eq!(JsonValue::Null.as_bool(), None);
}
