use vstd::prelude::*;
use crate::content::QUESTION_COUNT;
use crate::decimal::{decimal, decimal_string, parse_decimal, parse_usize, lemma_parse_decimal_roundtrip};
use crate::display::BodyClass;

verus! {

// The browser's storage keeps, under the key "counter", how many times a
// question was put on screen. It survives a reload, so a sitting that was
// started over shows more than twenty.

/// The text stored under the key, if any, as characters.
pub open spec fn stored_text(stored: Option<&str>) -> Option<Seq<char>> {
    match stored {
        Some(s) => Some(s@),
        None => None,
    }
}

/// The count that a stored text stands for: a missing entry reads as "0",
/// and a text that is not a `usize` reads as 0.
pub open spec fn counter_value(stored: Option<Seq<char>>) -> nat {
    match parse_usize(stored.unwrap_or(seq!['0'])) {
        Some(n) => n,
        None => 0,
    }
}

/// The count that the stored text stands for.
pub fn read_counter(stored: Option<&str>) -> (r: usize)
    ensures
        r == counter_value(stored_text(stored)),
{
    let text = match stored {
        Some(s) => s,
        None => "0",
    };
    proof {
        reveal_strlit("0");
        assert("0"@ =~= seq!['0']);
    }
    match parse_decimal(text) {
        Some(n) => n,
        None => 0,
    }
}

/// The text to store when a question is put on screen: one more than the
/// count stored so far.
pub fn record_visit(stored: Option<&str>) -> (r: String)
    requires
        counter_value(stored_text(stored)) < usize::MAX,
    ensures
        r@ == decimal(counter_value(stored_text(stored)) + 1),
{
    let n = read_counter(stored);
    decimal_string(n + 1)
}

/// The colour of the result screen for a stored count: green when the
/// questions were put on screen exactly twenty times, blue otherwise.
pub open spec fn result_colour(count: nat) -> BodyClass {
    if count == QUESTION_COUNT {
        BodyClass::Green
    } else {
        BodyClass::Blue
    }
}

/// The colour of the result screen: green when the questions were put on
/// screen exactly as many times as there are questions, blue otherwise.
pub fn result_class(counter: usize) -> (r: BodyClass)
    ensures
        r == result_colour(counter as nat),
        r == BodyClass::Green || r == BodyClass::Blue,
        r == BodyClass::Green <==> counter == 20,
{
    if counter == QUESTION_COUNT {
        BodyClass::Green
    } else {
        BodyClass::Blue
    }
}

/// What storage holds after `k` questions were put on screen, starting
/// from an empty storage.
pub open spec fn after_visits(k: nat) -> Option<Seq<char>> {
    if k == 0 {
        None
    } else {
        Some(decimal(k))
    }
}

/// Recording a visit adds one to the count read back.
pub proof fn lemma_record_visit_counts(stored: Option<Seq<char>>)
    requires
        counter_value(stored) < usize::MAX,
    ensures
        counter_value(Some(decimal(counter_value(stored) + 1))) == counter_value(stored) + 1,
{
    lemma_parse_decimal_roundtrip(counter_value(stored) + 1);
}

/// From an empty storage, the count read back is the number of questions
/// put on screen; so the result is green exactly when that number is twenty.
pub proof fn lemma_count_from_empty(k: nat)
    requires
        k <= usize::MAX,
    ensures
        counter_value(after_visits(k)) == k,
        (counter_value(after_visits(k)) == QUESTION_COUNT) <==> k == QUESTION_COUNT,
{
    if k == 0 {
        lemma_parse_decimal_roundtrip(0);
        assert(decimal(0) =~= seq!['0']);
    } else {
        lemma_parse_decimal_roundtrip(k);
    }
}

/// What storage holds under the key after `k` questions were put on screen,
/// each turn writing the count it was told to, starting from `stored`.
pub open spec fn visits_from(stored: Option<Seq<char>>, k: nat) -> Option<Seq<char>>
    decreases k,
{
    if k == 0 {
        stored
    } else {
        Some(decimal(counter_value(visits_from(stored, (k - 1) as nat)) + 1))
    }
}

/// Each question put on screen adds one to the count read back.
pub proof fn lemma_visits_add_up(stored: Option<Seq<char>>, k: nat)
    requires
        counter_value(stored) + k <= usize::MAX,
    ensures
        counter_value(visits_from(stored, k)) == counter_value(stored) + k,
    decreases k,
{
    if k > 0 {
        lemma_visits_add_up(stored, (k - 1) as nat);
        lemma_record_visit_counts(visits_from(stored, (k - 1) as nat));
    }
}

/// A sitting puts the twenty questions on screen, so its result is green
/// exactly when the count read at its start was 0: storage held nothing, or
/// "0", or a text that is not a count. A sitting started over after another
/// one ends blue.
pub proof fn lemma_restart_detected(stored: Option<Seq<char>>)
    requires
        counter_value(stored) + QUESTION_COUNT <= usize::MAX,
    ensures
        counter_value(visits_from(stored, QUESTION_COUNT as nat)) == counter_value(stored) + QUESTION_COUNT,
        (result_colour(counter_value(visits_from(stored, QUESTION_COUNT as nat))) == BodyClass::Green)
            <==> counter_value(stored) == 0,
{
    lemma_visits_add_up(stored, QUESTION_COUNT as nat);
}

} // verus!
