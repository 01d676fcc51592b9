use neor::changefeed::{classify, member, skipped_count, FeedItem};
use neor::datum::Datum;

fn obj(k: &str, v: &str) -> Datum {
    Datum::Object(vec![(k.to_string(), Datum::Str(v.to_string()))])
}

#[test]
fn state_markers_are_recognised() {
    assert_eq!(classify(&obj("state", "initializing")), FeedItem::Initializing);
    assert_eq!(classify(&obj("state", "ready")), FeedItem::Ready);
    assert_eq!(classify(&obj("state", "other")), FeedItem::Change);
}

#[test]
fn overflow_notice_carries_its_count() {
    let d = obj("error", "Changefeed cache over array size limit, skipped 17 elements.");
    assert_eq!(classify(&d), FeedItem::Overflow(17));
}

#[test]
fn other_errors_are_ordinary_values() {
    assert_eq!(classify(&obj("error", "something else")), FeedItem::Change);
    assert_eq!(classify(&Datum::Number(3)), FeedItem::Change);
}

#[test]
fn change_documents_are_ordinary_values() {
    let change = Datum::Object(vec![
        ("new_val".to_string(), obj("id", "a")),
        ("old_val".to_string(), Datum::Null),
    ]);
    assert_eq!(classify(&change), FeedItem::Change);
}

#[test]
fn skipped_count_parses_the_message() {
    let p = "Changefeed cache over array size limit, skipped ";
    assert_eq!(skipped_count(&format!("{}0 elements.", p)), Some(0));
    assert_eq!(skipped_count(&format!("{}18446744073709551615 elements.", p)), Some(u64::MAX));
    assert_eq!(skipped_count(&format!("{}18446744073709551616 elements.", p)), None);
    assert_eq!(skipped_count(&format!("{} elements.", p)), None);
    assert_eq!(skipped_count(&format!("{}1x elements.", p)), None);
    assert_eq!(skipped_count("skipped 5 elements."), None);
}

#[test]
fn member_finds_the_first_match() {
    let ms = vec![
        ("a".to_string(), Datum::Number(1)),
        ("a".to_string(), Datum::Number(2)),
    ];
    assert!(matches!(member(&ms, "a"), Some(Datum::Number(1))));
    assert!(member(&ms, "b").is_none());
}
