use vstd::prelude::*;
use vstd::string::*;
use crate::decimal::{decimal, decimal_string, parse_usize, lemma_parse_decimal_roundtrip};

verus! {

/// The colour class of the page's body, which tells the supervisor at a
/// glance how the sitting went.
#[derive(Clone, Copy, Debug, PartialEq, Eq, Structural)]
pub enum BodyClass {
    /// The rules screen.
    Black,
    /// A question.
    White,
    /// The tab was left and the question skipped.
    Yellow,
    /// The result, after exactly the twenty questions were shown.
    Green,
    /// The result, when the questions were shown some other number of times.
    Blue,
    /// The mark shown on the page was edited.
    Red,
}

/// The name of the class, as the page's style sheet knows it.
pub open spec fn class_name(c: BodyClass) -> Seq<char> {
    match c {
        BodyClass::Black => "black"@,
        BodyClass::White => "white"@,
        BodyClass::Yellow => "yellow"@,
        BodyClass::Green => "green"@,
        BodyClass::Blue => "blue"@,
        BodyClass::Red => "red"@,
    }
}

/// The names of the classes in the page's style sheet.
pub proof fn lemma_class_names()
    ensures
        class_name(BodyClass::Black) == "black"@,
        class_name(BodyClass::White) == "white"@,
        class_name(BodyClass::Yellow) == "yellow"@,
        class_name(BodyClass::Green) == "green"@,
        class_name(BodyClass::Blue) == "blue"@,
        class_name(BodyClass::Red) == "red"@,
{
}

impl BodyClass {
    /// The name of the class, as the page's style sheet knows it.
    pub fn name(&self) -> (r: &'static str)
        ensures
            r@ == class_name(*self),
    {
        match self {
            BodyClass::Black => "black",
            BodyClass::White => "white",
            BodyClass::Yellow => "yellow",
            BodyClass::Green => "green",
            BodyClass::Blue => "blue",
            BodyClass::Red => "red",
        }
    }
}

/// The sentence that gives the mark, out of 20.
pub open spec fn result_sentence(note: nat) -> Seq<char> {
    "Votre note est "@ + decimal(note) + "/20"@
}

/// The sentence is "Votre note est ", then the mark, then "/20": reading
/// back the number between the two gives the mark.
pub proof fn lemma_result_sentence_reads_back(note: nat)
    requires
        note <= usize::MAX,
    ensures
        result_sentence(note).len() > 18,
        result_sentence(note).subrange(0, 15) == "Votre note est "@,
        result_sentence(note).subrange(result_sentence(note).len() - 3, result_sentence(note).len() as int)
            == "/20"@,
        parse_usize(result_sentence(note).subrange(15, result_sentence(note).len() - 3)) == Some(note),
{
    reveal_strlit("Votre note est ");
    reveal_strlit("/20");
    lemma_parse_decimal_roundtrip(note);
    let t = result_sentence(note);
    let d = decimal(note);
    assert(d.len() > 0) by {
        assert(parse_usize(d) is Some);
    }
    assert(t.subrange(0, 15) =~= "Votre note est "@);
    assert(t.subrange(t.len() - 3, t.len() as int) =~= "/20"@);
    assert(t.subrange(15, t.len() - 3) =~= d);
}

/// The sentence that gives the mark, out of 20.
pub fn result_text(note: usize) -> (r: String)
    ensures
        r@ == result_sentence(note as nat),
        r@.len() > 18,
        r@.subrange(0, 15) == "Votre note est "@,
        r@.subrange(r@.len() - 3, r@.len() as int) == "/20"@,
        parse_usize(r@.subrange(15, r@.len() - 3)) == Some(note as nat),
{
    proof {
        lemma_result_sentence_reads_back(note as nat);
    }
    let mut s = String::from_str("Votre note est ");
    s.append(decimal_string(note).as_str());
    s.append("/20");
    s
}

/// What the page's watch does on a tick: the text now shown against the
/// sentence that was put there; the body turns red when they differ.
pub fn watch_result(shown: &String, expected: &String) -> (r: Option<BodyClass>)
    ensures
        r == (if shown@ == expected@ {
            None
        } else {
            Some(BodyClass::Red)
        }),
{
    if (*shown).eq(expected) {
        None
    } else {
        Some(BodyClass::Red)
    }
}

} // verus!
