use logic_quiz::display::{result_text, watch_result, BodyClass};

#[test]
fn class_names_match_the_style_sheet() {
    assert_eq!(BodyClass::Black.name(), "black");
    assert_eq!(BodyClass::White.name(), "white");
    assert_eq!(BodyClass::Yellow.name(), "yellow");
    assert_eq!(BodyClass::Green.name(), "green");
    assert_eq!(BodyClass::Blue.name(), "blue");
    assert_eq!(BodyClass::Red.name(), "red");
}

#[test]
fn result_text_gives_the_mark_out_of_twenty() {
    assert_eq!(result_text(17), "Votre note est 17/20");
    assert_eq!(result_text(0), "Votre note est 0/20");
    assert_eq!(result_text(20), "Votre note est 20/20");
}

#[test]
fn watch_result_leaves_an_untouched_mark_alone() {
    let expected = result_text(12);
    assert_eq!(watch_result(&result_text(12), &expected), None);
}

#[test]
fn watch_result_turns_red_on_an_edited_mark() {
    let expected = result_text(12);
    assert_eq!(watch_result(&String::from("Votre note est 20/20"), &expected), Some(BodyClass::Red));
    assert_eq!(watch_result(&String::new(), &expected), Some(BodyClass::Red));
}
