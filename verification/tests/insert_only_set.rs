use insert_only_set::tag_set::{Tag, TagSet};

#[test]
fn insert_only_set_test_insert_and_contains() {
    let mut set = TagSet::new();

    assert!(!set.contains(Tag::Customer));
    assert!(!set.contains(Tag::Employee));

    assert!(set.insert(Tag::Customer));
    assert!(set.contains(Tag::Customer));
    assert!(!set.contains(Tag::Employee));

    assert!(set.insert(Tag::Employee));
    assert!(set.contains(Tag::Customer));
    assert!(set.contains(Tag::Employee));
}

#[test]
fn insert_only_set_test_insert_once() {
    let mut set = TagSet::new();

    assert!(set.insert(Tag::Customer));
    assert!(!set.insert(Tag::Customer));
}

#[test]
fn insert_only_set_test_iter() {
    let mut set = TagSet::new();

    assert!(set.iter().is_empty());

    set.insert(Tag::Customer);
    let mut expected = vec![Tag::Customer];
    assert_eq!(set.iter(), expected);

    set.insert(Tag::Employee);
    expected.push(Tag::Employee);
    assert_eq!(set.iter(), expected);
}
