use vstd::prelude::*;
use crate::content::{QUESTION_COUNT, right_choice, good_answer};
use crate::counter::{counter_value, stored_text, read_counter, record_visit, result_class, result_colour};
use crate::decimal::{decimal, decimal_string};
use crate::display::BodyClass;

verus! {

/// Where a sitting stands. `page` counts the clicks on "next" so far: 0 is
/// the rules screen, 1 to 20 are the questions, anything beyond is the
/// result. `note` counts the right answers given so far.
pub struct QuizState {
    pub page: nat,
    pub note: nat,
}

/// A sitting before the first click.
pub open spec fn initial_state() -> QuizState {
    QuizState { page: 0, note: 0 }
}

/// How many questions have been answered once `page` clicks were made: the
/// click on a question's page answers it.
pub open spec fn answered(page: nat) -> nat {
    if page <= 1 {
        0
    } else if page - 1 <= QUESTION_COUNT {
        (page - 1) as nat
    } else {
        QUESTION_COUNT as nat
    }
}

/// The mark never exceeds the number of questions answered.
pub open spec fn well_formed(s: QuizState) -> bool {
    s.note <= answered(s.page)
}

/// Whether the click made on `page`, with the four boxes ticked as in
/// `checked`, earns a point: the page shows a question and the box of its
/// right choice is ticked.
pub open spec fn scores(page: nat, checked: Seq<bool>) -> bool {
    &&& 1 <= page <= QUESTION_COUNT
    &&& checked[right_choice(page - 1) - 1]
}

/// One click on "next".
pub open spec fn step(s: QuizState, checked: Seq<bool>) -> QuizState {
    QuizState {
        page: s.page + 1,
        note: if scores(s.page, checked) {
            s.note + 1
        } else {
            s.note
        },
    }
}

/// What the page shows after a click: a question, counted from 0, or the mark.
#[derive(Clone, Copy, Debug, PartialEq, Eq, Structural)]
pub enum Screen {
    Question(usize),
    Result(usize),
}

/// The screen of a state: question `page - 1` while `page` is 1 to 20,
/// the mark from then on.
pub open spec fn screen_of(s: QuizState) -> Screen {
    if 1 <= s.page <= QUESTION_COUNT {
        Screen::Question((s.page - 1) as usize)
    } else {
        Screen::Result(s.note as usize)
    }
}

/// The "next" button stays on the page until the result is shown.
pub open spec fn shows_next(s: QuizState) -> bool {
    s.page <= QUESTION_COUNT
}

/// The state after the clicks in `clicks`, made in turn from `s`; each click
/// is given by the four boxes ticked when it was made.
pub open spec fn run(s: QuizState, clicks: Seq<Seq<bool>>) -> QuizState
    decreases clicks.len(),
{
    if clicks.len() == 0 {
        s
    } else {
        step(run(s, clicks.drop_last()), clicks.last())
    }
}

/// How many of `clicks`, made from the start, answer a question rightly: the
/// click numbered `k` from 0 is made on page `k`.
pub open spec fn right_answers(clicks: Seq<Seq<bool>>) -> nat
    decreases clicks.len(),
{
    if clicks.len() == 0 {
        0
    } else {
        right_answers(clicks.drop_last()) + if scores((clicks.len() - 1) as nat, clicks.last()) {
            1nat
        } else {
            0nat
        }
    }
}

/// A click keeps the mark within the number of questions answered.
pub proof fn lemma_step_well_formed(s: QuizState, checked: Seq<bool>)
    requires
        well_formed(s),
    ensures
        well_formed(step(s, checked)),
{
}

/// Only a click on a question's page can earn a point: the click that leaves
/// the rules screen, and any click once the result is shown (such as the one
/// made when the tab is left), keep the mark as it is.
pub proof fn lemma_no_score_off_questions(s: QuizState, checked: Seq<bool>)
    requires
        s.page == 0 || s.page > QUESTION_COUNT,
    ensures
        step(s, checked).note == s.note,
        step(s, checked).page == s.page + 1,
{
}

/// The four boxes with only box `i` (from 0) ticked.
pub open spec fn only_box(i: int) -> Seq<bool> {
    Seq::new(4, |j: int| j == i)
}

/// On a question's page, a click earns a point exactly when the box of the
/// question's right choice is ticked, whatever the other boxes hold; with one
/// box ticked, it earns a point exactly when that box is the right one.
pub proof fn lemma_question_click_scores(s: QuizState, checked: Seq<bool>, i: int)
    requires
        1 <= s.page <= 20,
        checked.len() == 4,
        0 <= i < 4,
    ensures
        step(s, checked).page == s.page + 1,
        step(s, checked).note == s.note + if checked[right_choice(s.page - 1) - 1] {
            1int
        } else {
            0int
        },
        step(s, only_box(i)).note == s.note + if i + 1 == right_choice(s.page - 1) {
            1int
        } else {
            0int
        },
{
    crate::content::lemma_answer_key();
}

/// The "next" button is shown exactly while the page is at most 20: once the
/// result is shown it never comes back, and after any click it is there
/// exactly when a question is shown.
pub proof fn lemma_button_until_result(s: QuizState, checked: Seq<bool>)
    ensures
        shows_next(s) <==> s.page <= 20,
        s.page > 20 ==> !shows_next(step(s, checked)),
        shows_next(step(s, checked)) <==> screen_of(step(s, checked)) is Question,
{
}

/// Page `k` from 1 to 20 shows question `k - 1`; every later page shows the
/// mark reached.
pub proof fn lemma_screens(s: QuizState)
    ensures
        1 <= s.page <= 20 ==> screen_of(s) == Screen::Question((s.page - 1) as usize),
        s.page == 0 || s.page > 20 ==> screen_of(s) == Screen::Result(s.note as usize),
{
}

/// After any clicks from the start, the page counts the clicks and the mark
/// counts the right answers among them; it is out of 20 and never exceeds the
/// number of questions answered.
pub proof fn lemma_run_from_start(clicks: Seq<Seq<bool>>)
    ensures
        run(initial_state(), clicks) == (QuizState { page: clicks.len(), note: right_answers(clicks) }),
        right_answers(clicks) <= answered(clicks.len()),
        right_answers(clicks) <= QUESTION_COUNT,
        screen_of(run(initial_state(), clicks)) is Question <==> 1 <= clicks.len() <= QUESTION_COUNT,
    decreases clicks.len(),
{
    if clicks.len() > 0 {
        lemma_run_from_start(clicks.drop_last());
    }
}

/// What the page does after a click on "next", besides showing `screen`:
/// the colour it gives the body, the entry it writes to storage, and
/// whether the "next" button stays.
pub struct Turn {
    pub screen: Screen,
    pub class: BodyClass,
    pub store_key: &'static str,
    pub store_value: String,
    pub show_next: bool,
}

/// One sitting of the quiz.
pub struct Quiz {
    page: usize,
    note: usize,
}

impl Quiz {
    pub closed spec fn state(&self) -> QuizState {
        QuizState { page: self.page as nat, note: self.note as nat }
    }

    #[verifier::type_invariant]
    spec fn inv(self) -> bool {
        well_formed(self.state())
    }
}

impl View for Quiz {
    type V = QuizState;

    open spec fn view(&self) -> QuizState {
        self.state()
    }
}

impl Quiz {
    /// A sitting on the rules screen, with no point yet.
    pub fn new() -> (q: Quiz)
        ensures
            q@ == initial_state(),
    {
        Quiz { page: 0, note: 0 }
    }

    /// The number of clicks on "next" so far.
    pub fn page(&self) -> (r: usize)
        ensures
            r == self@.page,
    {
        self.page
    }

    /// The number of right answers so far.
    pub fn note(&self) -> (r: usize)
        ensures
            r == self@.note,
            well_formed(self@),
    {
        proof {
            use_type_invariant(self);
        }
        self.note
    }

    /// Whether the "next" button is shown under the current screen.
    pub fn shows_next(&self) -> (r: bool)
        ensures
            r == shows_next(self@),
            r <==> self@.page <= 20,
    {
        self.page <= QUESTION_COUNT
    }

    /// A click on "next", with the four boxes ticked as in `checked`: scores
    /// the answer to the question on the page, moves to the next page and
    /// says what it shows.
    pub fn next(&mut self, checked: [bool; 4]) -> (screen: Screen)
        requires
            old(self)@.page < usize::MAX,
        ensures
            final(self)@ == step(old(self)@, checked@),
            screen == screen_of(final(self)@),
            well_formed(final(self)@),
            final(self)@.page == old(self)@.page + 1,
            1 <= old(self)@.page <= 20 ==> final(self)@.note == old(self)@.note + if checked@[right_choice(
                old(self)@.page - 1,
            ) - 1] {
                1int
            } else {
                0int
            },
            !(1 <= old(self)@.page <= 20) ==> final(self)@.note == old(self)@.note,
    {
        proof {
            use_type_invariant(&*self);
        }
        let page = self.page;
        let mut note = self.note;
        if 1 <= page && page <= QUESTION_COUNT {
            let good = good_answer(page - 1);
            if checked[good - 1] {
                note = note + 1;
            }
        }
        let page = page + 1;
        *self = Quiz { page, note };
        if 1 <= page && page <= QUESTION_COUNT {
            Screen::Question(page - 1)
        } else {
            Screen::Result(note)
        }
    }
}

impl Quiz {
    /// A click on "next", given the text stored under "counter" before it.
    /// A question screen is white and adds one to the stored count; the
    /// result screen stores the mark under "note" and is green exactly when
    /// the stored count is twenty.
    pub fn click(&mut self, checked: [bool; 4], stored: Option<&str>) -> (turn: Turn)
        requires
            old(self)@.page < usize::MAX,
            screen_of(step(old(self)@, checked@)) is Question ==> counter_value(stored_text(stored))
                < usize::MAX,
        ensures
            final(self)@ == step(old(self)@, checked@),
            turn.screen == screen_of(final(self)@),
            turn.show_next == shows_next(final(self)@),
            turn.show_next <==> final(self)@.page <= 20,
            turn.show_next <==> turn.screen is Question,
            turn.screen is Question ==> {
                &&& turn.class == BodyClass::White
                &&& turn.store_key@ == "counter"@
                &&& turn.store_value@ == decimal(counter_value(stored_text(stored)) + 1)
            },
            turn.screen is Result ==> {
                &&& turn.class == result_colour(counter_value(stored_text(stored)))
                &&& turn.store_key@ == "note"@
                &&& turn.store_value@ == decimal(final(self)@.note)
            },
    {
        let screen = self.next(checked);
        let show_next = self.shows_next();
        match screen {
            Screen::Question(_) => Turn {
                screen,
                class: BodyClass::White,
                store_key: "counter",
                store_value: record_visit(stored),
                show_next,
            },
            Screen::Result(note) => Turn {
                screen,
                class: result_class(read_counter(stored)),
                store_key: "note",
                store_value: decimal_string(note),
                show_next,
            },
        }
    }
}

} // verus!
