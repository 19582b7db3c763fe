use logic_quiz::content::{good_answer, QUESTION_COUNT};
use logic_quiz::display::BodyClass;
use logic_quiz::quiz::{Quiz, Screen};

fn right_boxes(q: usize) -> [bool; 4] {
    let mut b = [false; 4];
    b[good_answer(q) - 1] = true;
    b
}

fn wrong_boxes(q: usize) -> [bool; 4] {
    let mut b = [false; 4];
    b[good_answer(q) % 4] = true;
    b
}

#[test]
fn a_new_sitting_is_on_the_rules_screen() {
    let q = Quiz::new();
    assert_eq!(q.page(), 0);
    assert_eq!(q.note(), 0);
    assert!(q.shows_next());
}

#[test]
fn the_first_click_shows_the_first_question_and_scores_nothing() {
    let mut q = Quiz::new();
    assert_eq!(q.next([true, true, true, true]), Screen::Question(0));
    assert_eq!(q.page(), 1);
    assert_eq!(q.note(), 0);
}

#[test]
fn a_right_answer_scores_one_point() {
    let mut q = Quiz::new();
    q.next([false; 4]);
    assert_eq!(q.next([false, true, false, false]), Screen::Question(1));
    assert_eq!(q.note(), 1);
}

#[test]
fn a_wrong_or_missing_answer_scores_nothing() {
    let mut q = Quiz::new();
    q.next([false; 4]);
    q.next([true, false, false, false]);
    assert_eq!(q.note(), 0);
    q.next([false; 4]);
    assert_eq!(q.note(), 0);
}

#[test]
fn ticking_every_box_counts_as_right() {
    let mut q = Quiz::new();
    q.next([false; 4]);
    q.next([true; 4]);
    assert_eq!(q.note(), 1);
}

#[test]
fn all_right_answers_give_twenty_out_of_twenty() {
    let mut q = Quiz::new();
    assert_eq!(q.next([false; 4]), Screen::Question(0));
    for k in 0..QUESTION_COUNT {
        let screen = q.next(right_boxes(k));
        if k + 1 < QUESTION_COUNT {
            assert_eq!(screen, Screen::Question(k + 1));
            assert!(q.shows_next());
        } else {
            assert_eq!(screen, Screen::Result(20));
            assert!(!q.shows_next());
        }
    }
    assert_eq!(q.note(), 20);
    assert_eq!(q.page(), 21);
}

#[test]
fn all_wrong_answers_give_zero() {
    let mut q = Quiz::new();
    q.next([false; 4]);
    for k in 0..QUESTION_COUNT {
        q.next(wrong_boxes(k));
    }
    assert_eq!(q.note(), 0);
    assert_eq!(q.next([true; 4]), Screen::Result(0));
}

#[test]
fn half_right_gives_ten() {
    let mut q = Quiz::new();
    q.next([false; 4]);
    for k in 0..QUESTION_COUNT {
        if k % 2 == 0 {
            q.next(right_boxes(k));
        } else {
            q.next(wrong_boxes(k));
        }
    }
    assert_eq!(q.note(), 10);
}

#[test]
fn clicks_after_the_result_change_nothing_but_the_page() {
    let mut q = Quiz::new();
    for _ in 0..21 {
        q.next([true; 4]);
    }
    assert_eq!(q.note(), 20);
    assert_eq!(q.next([true; 4]), Screen::Result(20));
    assert_eq!(q.next([false; 4]), Screen::Result(20));
    assert_eq!(q.page(), 23);
    assert!(!q.shows_next());
}

#[test]
fn a_question_turn_is_white_and_counts_the_visit() {
    let mut q = Quiz::new();
    let turn = q.click([false; 4], None);
    assert_eq!(turn.screen, Screen::Question(0));
    assert_eq!(turn.class, BodyClass::White);
    assert_eq!(turn.store_key, "counter");
    assert_eq!(turn.store_value, "1");
    assert!(turn.show_next);
    let turn = q.click([false, true, false, false], Some("1"));
    assert_eq!(turn.screen, Screen::Question(1));
    assert_eq!(turn.store_value, "2");
    assert_eq!(q.note(), 1);
}

#[test]
fn a_full_honest_sitting_ends_green() {
    let mut q = Quiz::new();
    let mut stored: Option<String> = None;
    let mut last = q.click([false; 4], stored.as_deref());
    stored = Some(last.store_value.clone());
    for k in 0..QUESTION_COUNT {
        last = q.click(right_boxes(k), stored.as_deref());
        if last.store_key == "counter" {
            stored = Some(last.store_value.clone());
        }
    }
    assert_eq!(last.screen, Screen::Result(20));
    assert_eq!(last.class, BodyClass::Green);
    assert_eq!(last.store_key, "note");
    assert_eq!(last.store_value, "20");
    assert!(!last.show_next);
    assert_eq!(stored.as_deref(), Some("20"));
}

#[test]
fn a_restarted_sitting_ends_blue() {
    let mut q = Quiz::new();
    for k in 0..=QUESTION_COUNT {
        let boxes = if k == 0 { [false; 4] } else { right_boxes(k - 1) };
        let turn = q.click(boxes, Some("25"));
        if k == QUESTION_COUNT {
            assert_eq!(turn.screen, Screen::Result(20));
            assert_eq!(turn.class, BodyClass::Blue);
        }
    }
}
