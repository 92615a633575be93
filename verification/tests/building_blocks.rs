use ownership_demo::numbers::decimal_string;
use ownership_demo::numbers::int_string;
use ownership_demo::ownership::BorrowState;
use ownership_demo::ownership::TextBinding;
use ownership_demo::text::calculate_length;
use ownership_demo::text::change;
use ownership_demo::text::extract_region;
use ownership_demo::text::first_word;
use ownership_demo::text::no_dangle;
use ownership_demo::text::takes_and_gives_back;

#[test]
fn takes_and_gives_back_returns_the_same_value() {
    let s = String::from("hello");
    let s2 = takes_and_gives_back(s);
    assert_eq!(s2, "hello");
}

#[test]
fn calculate_length_counts_characters() {
    assert_eq!(calculate_length(&String::from("hello")), 5);
    assert_eq!(calculate_length(&String::from("")), 0);
    assert_eq!(calculate_length(&String::from("hello world")), 11);
}

#[test]
fn change_appends_world() {
    let mut s = String::from("hello");
    change(&mut s);
    assert_eq!(s, "hello, world");
}

#[test]
fn no_dangle_returns_owned_hello() {
    assert_eq!(no_dangle(), "hello");
}

#[test]
fn first_word_stops_at_the_first_space() {
    assert_eq!(first_word("hello world"), "hello");
    assert_eq!(first_word("one two three"), "one");
    assert_eq!(first_word(" leading"), "");
}

#[test]
fn first_word_without_space_is_the_whole_text() {
    assert_eq!(first_word("hello"), "hello");
    assert_eq!(first_word(""), "");
}

#[test]
fn extract_region_before_the_space_and_in_full() {
    let s = "hello world";
    assert_eq!(extract_region(s, 0, 5), "hello");
    assert_eq!(extract_region(s, 0, 11), "hello world");
    assert_eq!(extract_region(s, 6, 11), "world");
    assert_eq!(extract_region(s, 3, 3), "");
}

#[test]
fn transfer_invalidates_the_source_binding() {
    let mut source = TextBinding::new(String::from("hello"));
    assert!(source.is_valid());
    let destination = source.transfer();
    assert!(!source.is_valid());
    assert!(destination.is_valid());
    assert_eq!(destination.read(), "hello");
}

#[test]
fn duplicate_leaves_both_bindings_valid_and_equal() {
    let original = TextBinding::new(String::from("hello"));
    let copy = original.duplicate();
    assert!(original.is_valid());
    assert!(copy.is_valid());
    assert_eq!(original.read(), copy.read());
}

#[test]
fn borrow_tracker_allows_readers_after_the_writer_ends() {
    let mut tracker = BorrowState::new();
    assert_eq!(tracker.live_readers(), 0);
    assert!(!tracker.has_writer());
    tracker.begin_exclusive();
    assert!(tracker.has_writer());
    assert_eq!(tracker.live_readers(), 0);
    tracker.end_exclusive();
    tracker.begin_shared();
    tracker.begin_shared();
    assert_eq!(tracker.live_readers(), 2);
    assert!(!tracker.has_writer());
    tracker.end_shared();
    tracker.end_shared();
    assert_eq!(tracker.live_readers(), 0);
    tracker.begin_exclusive();
    tracker.end_exclusive();
}

#[test]
fn decimal_string_renders_exact_digits() {
    assert_eq!(decimal_string(0), "0");
    assert_eq!(decimal_string(5), "5");
    assert_eq!(decimal_string(10), "10");
    assert_eq!(decimal_string(12345), "12345");
    assert_eq!(decimal_string(u64::MAX), "18446744073709551615");
}

#[test]
fn int_string_renders_signed_values() {
    assert_eq!(int_string(5), "5");
    assert_eq!(int_string(0), "0");
    assert_eq!(int_string(-1), "-1");
    assert_eq!(int_string(-42), "-42");
    assert_eq!(int_string(i32::MIN), "-2147483648");
    assert_eq!(int_string(i32::MAX), "2147483647");
}
