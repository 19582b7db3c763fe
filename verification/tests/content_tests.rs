use logic_quiz::content::{choice_labels, good_answer, question_html, QUESTION_COUNT};

#[test]
fn there_are_twenty_questions() {
    assert_eq!(QUESTION_COUNT, 20);
}

#[test]
fn right_choices_follow_the_answer_key() {
    let key = [2, 3, 4, 1, 2, 3, 3, 4, 2, 3, 3, 2, 4, 1, 4, 4, 2, 1, 3, 4];
    for q in 0..QUESTION_COUNT {
        assert_eq!(good_answer(q), key[q], "question {}", q);
        assert!(1 <= good_answer(q) && good_answer(q) <= 4);
    }
}

#[test]
fn questions_are_the_html_of_the_quiz() {
    assert_eq!(
        question_html(0),
        "Quel est ce symbole ?<br><img src=\"q0.png\" alt=\"image porte logique\" draggable=false>"
    );
    assert_eq!(question_html(10), "Combien de bits contiennent les octets ?");
    assert_eq!(question_html(19), "Que fait l'instruction d'assembleur \"HALT\"");
    assert!(question_html(7).contains("A = 1, B = 1 et Cin = 1"));
    assert!(question_html(15).contains("A = 1 et B = 1"));
}

#[test]
fn choices_are_offered_in_order() {
    assert_eq!(choice_labels(0), ("OU EXCLUSIF", "ET", "OU", "NON"));
    assert_eq!(choice_labels(5), ("OU EXCLUSIF", "ET", "OU", "NON"));
    assert_eq!(choice_labels(6), ("A = 0, B = 0", "A = 0, B = 1", "A = 1, B = 0", "A = 1, B = 1"));
    assert_eq!(choice_labels(10), ("2", "4", "8", "16"));
    assert_eq!(
        choice_labels(11),
        ("Comparer deux bits", "Stocker un bit", "Additionner 2 bits", "Autre chose")
    );
    assert_eq!(choice_labels(15), ("C = 0, D = 0", "C = 0, D = 1", "C = 1, D = 0", "C = 1, D = 1"));
    assert_eq!(
        choice_labels(19),
        (
            "Déclenche une interruption",
            "Eteint la machine",
            "Remet à 0 tous les registres",
            "Arrête l'exécution du programme"
        )
    );
}

#[test]
fn the_byte_question_expects_eight() {
    let labels = choice_labels(10);
    let chosen = [labels.0, labels.1, labels.2, labels.3][good_answer(10) - 1];
    assert_eq!(chosen, "8");
}

#[test]
fn the_halt_question_expects_stopping_the_program() {
    let labels = choice_labels(19);
    let chosen = [labels.0, labels.1, labels.2, labels.3][good_answer(19) - 1];
    assert_eq!(chosen, "Arrête l'exécution du programme");
}
