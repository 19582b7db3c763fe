use logic_quiz::counter::{read_counter, record_visit, result_class};
use logic_quiz::display::BodyClass;

#[test]
fn a_missing_counter_reads_as_zero() {
    assert_eq!(read_counter(None), 0);
}

#[test]
fn a_stored_counter_reads_as_its_number() {
    assert_eq!(read_counter(Some("5")), 5);
    assert_eq!(read_counter(Some("+20")), 20);
}

#[test]
fn an_unreadable_counter_reads_as_zero() {
    assert_eq!(read_counter(Some("")), 0);
    assert_eq!(read_counter(Some("abc")), 0);
    assert_eq!(read_counter(Some("-4")), 0);
    assert_eq!(read_counter(Some("99999999999999999999999")), 0);
}

#[test]
fn recording_a_visit_adds_one() {
    assert_eq!(record_visit(None), "1");
    assert_eq!(record_visit(Some("19")), "20");
    assert_eq!(record_visit(Some("junk")), "1");
    let stored = record_visit(Some("41"));
    assert_eq!(read_counter(Some(&stored)), 42);
}

#[test]
fn twenty_visits_from_empty_storage_read_twenty() {
    let mut stored: Option<String> = None;
    for _ in 0..20 {
        stored = Some(record_visit(stored.as_deref()));
    }
    assert_eq!(read_counter(stored.as_deref()), 20);
    assert_eq!(result_class(read_counter(stored.as_deref())), BodyClass::Green);
}

#[test]
fn result_is_green_only_after_exactly_twenty() {
    assert_eq!(result_class(20), BodyClass::Green);
    assert_eq!(result_class(19), BodyClass::Blue);
    assert_eq!(result_class(21), BodyClass::Blue);
    assert_eq!(result_class(0), BodyClass::Blue);
}

fn twenty_visits_from(start: Option<&str>) -> usize {
    let mut stored: Option<String> = start.map(String::from);
    for _ in 0..20 {
        stored = Some(record_visit(stored.as_deref()));
    }
    read_counter(stored.as_deref())
}

#[test]
fn a_sitting_started_over_ends_blue() {
    assert_eq!(twenty_visits_from(Some("5")), 25);
    assert_eq!(result_class(twenty_visits_from(Some("5"))), BodyClass::Blue);
    assert_eq!(result_class(twenty_visits_from(Some("20"))), BodyClass::Blue);
}

#[test]
fn a_sitting_from_a_zero_count_ends_green() {
    assert_eq!(result_class(twenty_visits_from(None)), BodyClass::Green);
    assert_eq!(result_class(twenty_visits_from(Some("0"))), BodyClass::Green);
    assert_eq!(result_class(twenty_visits_from(Some("junk"))), BodyClass::Green);
}
