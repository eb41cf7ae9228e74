use sensd::container::{Collection, Container, Containerized};
use sensd::io::datum::Datum;
use sensd::io::event::IOEvent;
use sensd::io::metadata::IdType;

#[test]
fn add_get_remove() {
    let mut c: Container<&str, IdType> = Container::new();
    assert!(c.is_empty());
    assert!(c.add(1, "one"));
    assert!(c.add(2, "two"));
    assert_eq!(c.length(), 2);
    assert_eq!(c.get(1), Some(&"one"));
    assert_eq!(c.get(3), None);
    assert_eq!(c.remove(1), Some("one"));
    assert_eq!(c.remove(1), None);
    assert_eq!(c.length(), 1);
    assert!(!c.is_empty());
}

#[test]
fn add_existing_key_is_refused() {
    let mut c: Container<u8, IdType> = Container::new();
    assert!(c.add(5, 10));
    assert!(!c.add(5, 20));
    assert_eq!(c.get(5), Some(&10));
    assert_eq!(c.length(), 1);
}

#[test]
fn iter_visits_each_pair_once() {
    let mut c: Container<u32, IdType> = Container::new();
    for k in 0..10u32 {
        assert!(c.add(k, k * k));
    }
    let mut seen: Vec<(u32, u32)> = c.iter().map(|(k, v)| (*k, *v)).collect();
    seen.sort();
    let expected: Vec<(u32, u32)> = (0..10u32).map(|k| (k, k * k)).collect();
    assert_eq!(seen, expected);
}

#[test]
fn containerized_event_store_starts_empty() {
    let mut c: Container<IOEvent, IdType> = <IOEvent as Containerized<IOEvent, IdType>>::container();
    assert!(c.is_empty());
    assert!(c.add(0, IOEvent::with_timestamp(12, Datum::int32(Some(3)))));
    assert_eq!(c.get(0).unwrap().timestamp, 12);
}
