use insert_only_set::tag_set::{Tag, TagSet};

#[test]
fn add_only_set_test_insert_and_contains() {
    let mut set = TagSet::new();

    assert!(!set.contains(Tag::Customer));
    assert!(!set.contains(Tag::Employee));

    set.insert_strict(Tag::Customer).expect("Failed to insert customer");
    assert!(set.contains(Tag::Customer));
    assert!(!set.contains(Tag::Employee));

    set.insert_strict(Tag::Employee).expect("Failed to insert employee");
    assert!(set.contains(Tag::Customer));
    assert!(set.contains(Tag::Employee));
}

#[test]
fn add_only_set_test_insert_once() {
    let mut set = TagSet::new();

    set.insert_strict(Tag::Customer).expect("Failed to insert customer");
    let result = set.insert_strict(Tag::Customer);
    assert!(result.is_err());
    assert_eq!(result.unwrap_err().message(), "Already set");
}

#[test]
fn add_only_set_test_iter() {
    let mut set = TagSet::new();

    assert!(set.iter().is_empty());

    set.insert_strict(Tag::Customer).expect("Failed to insert customer");
    let mut expected = vec![Tag::Customer];
    assert_eq!(set.iter(), expected);

    set.insert_strict(Tag::Employee).expect("Failed to insert employee");
    expected.push(Tag::Employee);
    let entries = set.iter();
    assert_eq!(entries, expected);
}
