use hackchat::registry::{Category, Registry};
use hackchat::roster::{append, position, remove_name};

fn list(names: &[&str]) -> Vec<String> {
    names.iter().map(|n| n.to_string()).collect()
}

#[test]
fn observers_come_in_registration_order() {
    let mut r = Registry::new();
    assert_eq!(r.subscribe(Category::Message), 0);
    assert_eq!(r.subscribe(Category::Join), 1);
    assert_eq!(r.subscribe(Category::Message), 2);
    assert_eq!(r.subscribe(Category::Leave), 3);
    assert_eq!(r.subscribe(Category::Message), 4);
    assert_eq!(r.len(), 5);
    assert_eq!(r.observers(Category::Message), vec![0, 2, 4]);
    assert_eq!(r.observers(Category::Join), vec![1]);
    assert_eq!(r.observers(Category::Leave), vec![3]);
    assert_eq!(r.observers(Category::Whisper), Vec::<usize>::new());
}

#[test]
fn empty_registry_has_no_observers() {
    let r = Registry::new();
    assert_eq!(r.len(), 0);
    assert!(r.observers(Category::Message).is_empty());
}

#[test]
fn unsubscribe_cancels_one_subscription() {
    let mut r = Registry::new();
    r.subscribe(Category::Join);
    r.subscribe(Category::Join);
    r.subscribe(Category::Join);
    assert!(r.unsubscribe(1));
    assert_eq!(r.observers(Category::Join), vec![0, 2]);
    assert!(!r.unsubscribe(1));
    assert!(!r.unsubscribe(3));
    assert_eq!(r.observers(Category::Join), vec![0, 2]);
    assert_eq!(r.subscribe(Category::Join), 3);
    assert_eq!(r.observers(Category::Join), vec![0, 2, 3]);
}

#[test]
fn append_adds_at_the_end() {
    let mut roster = list(&["a"]);
    append(&mut roster, "b".to_string());
    append(&mut roster, "a".to_string());
    assert_eq!(roster, list(&["a", "b", "a"]));
}

#[test]
fn position_finds_the_first_occurrence() {
    let roster = list(&["a", "b", "c", "b"]);
    assert_eq!(position(&roster, &"b".to_string()), Some(1));
    assert_eq!(position(&roster, &"a".to_string()), Some(0));
    assert_eq!(position(&roster, &"z".to_string()), None);
    assert_eq!(position(&Vec::new(), &"a".to_string()), None);
}

#[test]
fn remove_name_takes_out_the_first_occurrence_only() {
    let mut roster = list(&["a", "b", "c", "b"]);
    assert!(remove_name(&mut roster, &"b".to_string()));
    assert_eq!(roster, list(&["a", "c", "b"]));
    assert!(remove_name(&mut roster, &"b".to_string()));
    assert_eq!(roster, list(&["a", "c"]));
}

#[test]
fn remove_name_of_an_absent_name_changes_nothing() {
    let mut roster = list(&["a", "c"]);
    assert!(!remove_name(&mut roster, &"b".to_string()));
    assert_eq!(roster, list(&["a", "c"]));
}
