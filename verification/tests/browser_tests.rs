use logic_quiz::browser::{window_or_error, PageError};

#[test]
fn a_missing_window_fails_with_the_pages_message() {
    assert_eq!(PageError::NoWindow.message(), "can't get window");
}

#[test]
fn no_window_found_is_the_no_window_error() {
    assert!(matches!(window_or_error(None), Err(PageError::NoWindow)));
}
