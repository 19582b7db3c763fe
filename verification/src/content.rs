use vstd::prelude::*;

verus! {

/// How many questions the quiz asks, and so what the mark is out of.
pub const QUESTION_COUNT: usize = 20;

// The questions, as HTML that the page shows as it stands.
pub const QUESTION_1: &'static str = "Quel est ce symbole ?<br><img src=\"q0.png\" alt=\"image porte logique\" draggable=false>";
pub const QUESTION_2: &'static str = "Et celui ci ?<br><img src=\"q1.png\" alt=\"image porte logique\" draggable=false>";
pub const QUESTION_3: &'static str = "Encore un dernier :<br><img src=\"q2.png\" alt=\"image porte logique\" draggable=false>";
pub const QUESTION_4: &'static str = "A quoi correspond cette table de vérité ?<br><img src=\"q3.png\" alt=\"image table de vérité\" draggable=false>";
pub const QUESTION_5: &'static str = "A quoi correspond cette autre table de vérité ?<br><img src=\"q4.png\" alt=\"image table de vérité\" draggable=false>";
pub const QUESTION_6: &'static str = "A quoi correspond cette dernière table de vérité ?<br><img src=\"q5.png\" alt=\"image table de vérité\" draggable=false>";
pub const QUESTION_7: &'static str = "Considérez ce circuit logique :<br><img src=\"q6-7-8-9.png\" alt=\"circuit logique\" draggable=false><br>Qu'obtient t'on avec A = 0, B = 1 et Cin = 0 ?<br>";
pub const QUESTION_8: &'static str = "Considérez de nouveau ce circuit logique :<br><img src=\"q6-7-8-9.png\" alt=\"circuit logique\" draggable=false><br>Qu'obtient t'on avec A = 1, B = 1 et Cin = 1 ?<br>";
pub const QUESTION_9: &'static str = "Considérez encore ce circuit logique :<br><img src=\"q6-7-8-9.png\" alt=\"circuit logique\" draggable=false><br>Qu'obtient t'on avec A = 1, B = 0 et Cin = 1 ?<br>";
pub const QUESTION_10: &'static str = "Considérez une dernière fois cce circuit logique :<br><img src=\"q6-7-8-9.png\" alt=\"circuit logique\" draggable=false><br>Qu'obtient t'on avec A = 0, B = 0 et Cin = 1 ?<br>";
pub const QUESTION_11: &'static str = "Combien de bits contiennent les octets ?";
pub const QUESTION_12: &'static str = "Quelle est l'utilité de ce circuit logique ?<br><img src=\"q11.jpg\" alt=\"image circuit logique\" draggable=false>";
pub const QUESTION_13: &'static str = "Considérez ce circuit logique :<br><img src=\"q12-13-14-15.png\" alt=\"circuit logique\" draggable=false><br>Qu'obtient t'on avec A = 0 et B = 0 ?<br>";
pub const QUESTION_14: &'static str = "Considérez de nouveau ce circuit logique :<br><img src=\"q12-13-14-15.png\" alt=\"circuit logique\" draggable=false><br>Qu'obtient t'on avec A = 0 et B = 1 ?<br>";
pub const QUESTION_15: &'static str = "Considérez encore ce circuit logique :<br><img src=\"q12-13-14-15.png\" alt=\"circuit logique\" draggable=false><br>Qu'obtient t'on avec A = 1 et B = 0 ?<br>";
pub const QUESTION_16: &'static str = "Considérez une dernière fois ce circuit logique :<br><img src=\"q12-13-14-15.png\" alt=\"circuit logique\" draggable=false><br>Qu'obtient t'on avec A = 1 et B = 1 ?<br>";
pub const QUESTION_17: &'static str = "Que fait l'instruction d'assembleur \"ADD R0, R1, #42\" ?";
pub const QUESTION_18: &'static str = "Que fait l'instruction d'assembleur \"STR R3, 654\"";
pub const QUESTION_19: &'static str = "Que fait l'instruction d'assembleur \"MOV R1, #42\"";
pub const QUESTION_20: &'static str = "Que fait l'instruction d'assembleur \"HALT\"";

// The labels of the four choices offered under the questions.
pub const GATE_XOR: &'static str = "OU EXCLUSIF";
pub const GATE_AND: &'static str = "ET";
pub const GATE_OR: &'static str = "OU";
pub const GATE_NOT: &'static str = "NON";
pub const INPUTS_A0_B0: &'static str = "A = 0, B = 0";
pub const INPUTS_A0_B1: &'static str = "A = 0, B = 1";
pub const INPUTS_A1_B0: &'static str = "A = 1, B = 0";
pub const INPUTS_A1_B1: &'static str = "A = 1, B = 1";
pub const BITS_2: &'static str = "2";
pub const BITS_4: &'static str = "4";
pub const BITS_8: &'static str = "8";
pub const BITS_16: &'static str = "16";
pub const PURPOSE_COMPARE: &'static str = "Comparer deux bits";
pub const PURPOSE_STORE: &'static str = "Stocker un bit";
pub const PURPOSE_ADD: &'static str = "Additionner 2 bits";
pub const PURPOSE_OTHER: &'static str = "Autre chose";
pub const OUTPUTS_C0_D0: &'static str = "C = 0, D = 0";
pub const OUTPUTS_C0_D1: &'static str = "C = 0, D = 1";
pub const OUTPUTS_C1_D0: &'static str = "C = 1, D = 0";
pub const OUTPUTS_C1_D1: &'static str = "C = 1, D = 1";
pub const ADD_R0_42_INTO_R1: &'static str = "Additionne R0 et 42 et place le résultat dans R1";
pub const ADD_R1_42_INTO_R0: &'static str = "Additionne R1 et 42 et place le résultat dans R0";
pub const ADD_R1_R0_INTO_RAM_42: &'static str = "Additionne R1 et R0 et place le résultat à l'adresse 42 de la RAM";
pub const COMPARE_R1_R0_42: &'static str = "Compare la valeur de R1 + R0 à 42";
pub const STORE_R3_AT_654: &'static str = "Place (entrepose) la valeur de R3 dans la RAM, à l'adresse 654";
pub const LOAD_654_INTO_R3: &'static str = "Charge la valeur à l'adresse 654 de la RAM dans R3";
pub const SUBTRACT_654_FROM_R3: &'static str = "Soustrait 654 à R3";
pub const COMPARE_R3_654: &'static str = "Compare R3 à 654";
pub const ADD_42_TO_R1: &'static str = "Ajoute 42 à R1";
pub const STORE_R1_AT_42: &'static str = "Place la valeur de R1 dans la RAM, à l'adresse 42";
pub const MEANING_OF_LIFE_INTO_R1: &'static str = "Donne la valeur du sens de la vie (42) à R1";
pub const MULTIPLY_R1_BY_42: &'static str = "Multiplie R1 par 42";
pub const RAISE_INTERRUPT: &'static str = "Déclenche une interruption";
pub const POWER_OFF: &'static str = "Eteint la machine";
pub const RESET_REGISTERS: &'static str = "Remet à 0 tous les registres";
pub const STOP_PROGRAM: &'static str = "Arrête l'exécution du programme";

/// The HTML of question `q`, counted from 0.
pub open spec fn question_text(q: int) -> Seq<char> {
    seq![
        QUESTION_1@,
        QUESTION_2@,
        QUESTION_3@,
        QUESTION_4@,
        QUESTION_5@,
        QUESTION_6@,
        QUESTION_7@,
        QUESTION_8@,
        QUESTION_9@,
        QUESTION_10@,
        QUESTION_11@,
        QUESTION_12@,
        QUESTION_13@,
        QUESTION_14@,
        QUESTION_15@,
        QUESTION_16@,
        QUESTION_17@,
        QUESTION_18@,
        QUESTION_19@,
        QUESTION_20@,
    ][q]
}

/// The labels of the four choices of question `q`, counted from 0, in the
/// order in which they are offered.
pub open spec fn choice_texts(q: int) -> (Seq<char>, Seq<char>, Seq<char>, Seq<char>) {
    seq![
        (GATE_XOR@, GATE_AND@, GATE_OR@, GATE_NOT@),
        (GATE_XOR@, GATE_AND@, GATE_OR@, GATE_NOT@),
        (GATE_XOR@, GATE_AND@, GATE_OR@, GATE_NOT@),
        (GATE_XOR@, GATE_AND@, GATE_OR@, GATE_NOT@),
        (GATE_XOR@, GATE_AND@, GATE_OR@, GATE_NOT@),
        (GATE_XOR@, GATE_AND@, GATE_OR@, GATE_NOT@),
        (INPUTS_A0_B0@, INPUTS_A0_B1@, INPUTS_A1_B0@, INPUTS_A1_B1@),
        (INPUTS_A0_B0@, INPUTS_A0_B1@, INPUTS_A1_B0@, INPUTS_A1_B1@),
        (INPUTS_A0_B0@, INPUTS_A0_B1@, INPUTS_A1_B0@, INPUTS_A1_B1@),
        (INPUTS_A0_B0@, INPUTS_A0_B1@, INPUTS_A1_B0@, INPUTS_A1_B1@),
        (BITS_2@, BITS_4@, BITS_8@, BITS_16@),
        (PURPOSE_COMPARE@, PURPOSE_STORE@, PURPOSE_ADD@, PURPOSE_OTHER@),
        (OUTPUTS_C0_D0@, OUTPUTS_C0_D1@, OUTPUTS_C1_D0@, OUTPUTS_C1_D1@),
        (OUTPUTS_C0_D0@, OUTPUTS_C0_D1@, OUTPUTS_C1_D0@, OUTPUTS_C1_D1@),
        (OUTPUTS_C0_D0@, OUTPUTS_C0_D1@, OUTPUTS_C1_D0@, OUTPUTS_C1_D1@),
        (OUTPUTS_C0_D0@, OUTPUTS_C0_D1@, OUTPUTS_C1_D0@, OUTPUTS_C1_D1@),
        (ADD_R0_42_INTO_R1@, ADD_R1_42_INTO_R0@, ADD_R1_R0_INTO_RAM_42@, COMPARE_R1_R0_42@),
        (STORE_R3_AT_654@, LOAD_654_INTO_R3@, SUBTRACT_654_FROM_R3@, COMPARE_R3_654@),
        (ADD_42_TO_R1@, STORE_R1_AT_42@, MEANING_OF_LIFE_INTO_R1@, MULTIPLY_R1_BY_42@),
        (RAISE_INTERRUPT@, POWER_OFF@, RESET_REGISTERS@, STOP_PROGRAM@),
    ][q]
}

/// The number, from 1 to 4, of the right choice of question `q`, counted from 0.
pub open spec fn right_choice(q: int) -> int {
    seq![
        2int,
        3,
        4,
        1,
        2,
        3,
        3,
        4,
        2,
        3,
        3,
        2,
        4,
        1,
        4,
        4,
        2,
        1,
        3,
        4,
    ][q]
}

/// The HTML of question `q`, counted from 0.
pub fn question_html(q: usize) -> (r: &'static str)
    requires
        q < QUESTION_COUNT,
    ensures
        r@ == question_text(q as int),
{
    match q {
        0 => QUESTION_1,
        1 => QUESTION_2,
        2 => QUESTION_3,
        3 => QUESTION_4,
        4 => QUESTION_5,
        5 => QUESTION_6,
        6 => QUESTION_7,
        7 => QUESTION_8,
        8 => QUESTION_9,
        9 => QUESTION_10,
        10 => QUESTION_11,
        11 => QUESTION_12,
        12 => QUESTION_13,
        13 => QUESTION_14,
        14 => QUESTION_15,
        15 => QUESTION_16,
        16 => QUESTION_17,
        17 => QUESTION_18,
        18 => QUESTION_19,
        _ => QUESTION_20,
    }
}

/// The labels of the four choices of question `q`, counted from 0.
pub fn choice_labels(q: usize) -> (r: (&'static str, &'static str, &'static str, &'static str))
    requires
        q < QUESTION_COUNT,
    ensures
        (r.0@, r.1@, r.2@, r.3@) == choice_texts(q as int),
{
    match q {
        0 | 1 | 2 | 3 | 4 | 5 => (GATE_XOR, GATE_AND, GATE_OR, GATE_NOT),
        6 | 7 | 8 | 9 => (INPUTS_A0_B0, INPUTS_A0_B1, INPUTS_A1_B0, INPUTS_A1_B1),
        10 => (BITS_2, BITS_4, BITS_8, BITS_16),
        11 => (PURPOSE_COMPARE, PURPOSE_STORE, PURPOSE_ADD, PURPOSE_OTHER),
        12 | 13 | 14 | 15 => (OUTPUTS_C0_D0, OUTPUTS_C0_D1, OUTPUTS_C1_D0, OUTPUTS_C1_D1),
        16 => (ADD_R0_42_INTO_R1, ADD_R1_42_INTO_R0, ADD_R1_R0_INTO_RAM_42, COMPARE_R1_R0_42),
        17 => (STORE_R3_AT_654, LOAD_654_INTO_R3, SUBTRACT_654_FROM_R3, COMPARE_R3_654),
        18 => (ADD_42_TO_R1, STORE_R1_AT_42, MEANING_OF_LIFE_INTO_R1, MULTIPLY_R1_BY_42),
        _ => (RAISE_INTERRUPT, POWER_OFF, RESET_REGISTERS, STOP_PROGRAM),
    }
}

/// The number, from 1 to 4, of the right choice of question `q`, counted from 0.
pub fn good_answer(q: usize) -> (r: usize)
    requires
        q < QUESTION_COUNT,
    ensures
        r == right_choice(q as int),
        1 <= r <= 4,
{
    match q {
        0 => 2,
        1 => 3,
        2 => 4,
        3 => 1,
        4 => 2,
        5 => 3,
        6 => 3,
        7 => 4,
        8 => 2,
        9 => 3,
        10 => 3,
        11 => 2,
        12 => 4,
        13 => 1,
        14 => 4,
        15 => 4,
        16 => 2,
        17 => 1,
        18 => 3,
        _ => 4,
    }
}

/// The quiz has twenty questions, and its answer key is, question by
/// question: 2, 3, 4, 1, 2, 3, 3, 4, 2, 3, 3, 2, 4, 1, 4, 4, 2, 1, 3, 4.
pub proof fn lemma_answer_key()
    ensures
        QUESTION_COUNT == 20,
        right_choice(0) == 2,
        right_choice(1) == 3,
        right_choice(2) == 4,
        right_choice(3) == 1,
        right_choice(4) == 2,
        right_choice(5) == 3,
        right_choice(6) == 3,
        right_choice(7) == 4,
        right_choice(8) == 2,
        right_choice(9) == 3,
        right_choice(10) == 3,
        right_choice(11) == 2,
        right_choice(12) == 4,
        right_choice(13) == 1,
        right_choice(14) == 4,
        right_choice(15) == 4,
        right_choice(16) == 2,
        right_choice(17) == 1,
        right_choice(18) == 3,
        right_choice(19) == 4,
{
}

/// The questions, in the order in which they are asked.
pub proof fn lemma_question_texts()
    ensures
        question_text(0) == "Quel est ce symbole ?<br><img src=\"q0.png\" alt=\"image porte logique\" draggable=false>"@,
        question_text(1) == "Et celui ci ?<br><img src=\"q1.png\" alt=\"image porte logique\" draggable=false>"@,
        question_text(2) == "Encore un dernier :<br><img src=\"q2.png\" alt=\"image porte logique\" draggable=false>"@,
        question_text(3) == "A quoi correspond cette table de vérité ?<br><img src=\"q3.png\" alt=\"image table de vérité\" draggable=false>"@,
        question_text(4) == "A quoi correspond cette autre table de vérité ?<br><img src=\"q4.png\" alt=\"image table de vérité\" draggable=false>"@,
        question_text(5) == "A quoi correspond cette dernière table de vérité ?<br><img src=\"q5.png\" alt=\"image table de vérité\" draggable=false>"@,
        question_text(6) == "Considérez ce circuit logique :<br><img src=\"q6-7-8-9.png\" alt=\"circuit logique\" draggable=false><br>Qu'obtient t'on avec A = 0, B = 1 et Cin = 0 ?<br>"@,
        question_text(7) == "Considérez de nouveau ce circuit logique :<br><img src=\"q6-7-8-9.png\" alt=\"circuit logique\" draggable=false><br>Qu'obtient t'on avec A = 1, B = 1 et Cin = 1 ?<br>"@,
        question_text(8) == "Considérez encore ce circuit logique :<br><img src=\"q6-7-8-9.png\" alt=\"circuit logique\" draggable=false><br>Qu'obtient t'on avec A = 1, B = 0 et Cin = 1 ?<br>"@,
        question_text(9) == "Considérez une dernière fois cce circuit logique :<br><img src=\"q6-7-8-9.png\" alt=\"circuit logique\" draggable=false><br>Qu'obtient t'on avec A = 0, B = 0 et Cin = 1 ?<br>"@,
        question_text(10) == "Combien de bits contiennent les octets ?"@,
        question_text(11) == "Quelle est l'utilité de ce circuit logique ?<br><img src=\"q11.jpg\" alt=\"image circuit logique\" draggable=false>"@,
        question_text(12) == "Considérez ce circuit logique :<br><img src=\"q12-13-14-15.png\" alt=\"circuit logique\" draggable=false><br>Qu'obtient t'on avec A = 0 et B = 0 ?<br>"@,
        question_text(13) == "Considérez de nouveau ce circuit logique :<br><img src=\"q12-13-14-15.png\" alt=\"circuit logique\" draggable=false><br>Qu'obtient t'on avec A = 0 et B = 1 ?<br>"@,
        question_text(14) == "Considérez encore ce circuit logique :<br><img src=\"q12-13-14-15.png\" alt=\"circuit logique\" draggable=false><br>Qu'obtient t'on avec A = 1 et B = 0 ?<br>"@,
        question_text(15) == "Considérez une dernière fois ce circuit logique :<br><img src=\"q12-13-14-15.png\" alt=\"circuit logique\" draggable=false><br>Qu'obtient t'on avec A = 1 et B = 1 ?<br>"@,
        question_text(16) == "Que fait l'instruction d'assembleur \"ADD R0, R1, #42\" ?"@,
        question_text(17) == "Que fait l'instruction d'assembleur \"STR R3, 654\""@,
        question_text(18) == "Que fait l'instruction d'assembleur \"MOV R1, #42\""@,
        question_text(19) == "Que fait l'instruction d'assembleur \"HALT\""@,
{
}

/// The labels of the four choices of each question, in the order in which
/// they are offered.
pub proof fn lemma_choice_texts()
    ensures
        choice_texts(0) == ("OU EXCLUSIF"@, "ET"@, "OU"@, "NON"@),
        choice_texts(1) == ("OU EXCLUSIF"@, "ET"@, "OU"@, "NON"@),
        choice_texts(2) == ("OU EXCLUSIF"@, "ET"@, "OU"@, "NON"@),
        choice_texts(3) == ("OU EXCLUSIF"@, "ET"@, "OU"@, "NON"@),
        choice_texts(4) == ("OU EXCLUSIF"@, "ET"@, "OU"@, "NON"@),
        choice_texts(5) == ("OU EXCLUSIF"@, "ET"@, "OU"@, "NON"@),
        choice_texts(6) == ("A = 0, B = 0"@, "A = 0, B = 1"@, "A = 1, B = 0"@, "A = 1, B = 1"@),
        choice_texts(7) == ("A = 0, B = 0"@, "A = 0, B = 1"@, "A = 1, B = 0"@, "A = 1, B = 1"@),
        choice_texts(8) == ("A = 0, B = 0"@, "A = 0, B = 1"@, "A = 1, B = 0"@, "A = 1, B = 1"@),
        choice_texts(9) == ("A = 0, B = 0"@, "A = 0, B = 1"@, "A = 1, B = 0"@, "A = 1, B = 1"@),
        choice_texts(10) == ("2"@, "4"@, "8"@, "16"@),
        choice_texts(11) == ("Comparer deux bits"@, "Stocker un bit"@, "Additionner 2 bits"@, "Autre chose"@),
        choice_texts(12) == ("C = 0, D = 0"@, "C = 0, D = 1"@, "C = 1, D = 0"@, "C = 1, D = 1"@),
        choice_texts(13) == ("C = 0, D = 0"@, "C = 0, D = 1"@, "C = 1, D = 0"@, "C = 1, D = 1"@),
        choice_texts(14) == ("C = 0, D = 0"@, "C = 0, D = 1"@, "C = 1, D = 0"@, "C = 1, D = 1"@),
        choice_texts(15) == ("C = 0, D = 0"@, "C = 0, D = 1"@, "C = 1, D = 0"@, "C = 1, D = 1"@),
        choice_texts(16) == ("Additionne R0 et 42 et place le résultat dans R1"@, "Additionne R1 et 42 et place le résultat dans R0"@, "Additionne R1 et R0 et place le résultat à l'adresse 42 de la RAM"@, "Compare la valeur de R1 + R0 à 42"@),
        choice_texts(17) == ("Place (entrepose) la valeur de R3 dans la RAM, à l'adresse 654"@, "Charge la valeur à l'adresse 654 de la RAM dans R3"@, "Soustrait 654 à R3"@, "Compare R3 à 654"@),
        choice_texts(18) == ("Ajoute 42 à R1"@, "Place la valeur de R1 dans la RAM, à l'adresse 42"@, "Donne la valeur du sens de la vie (42) à R1"@, "Multiplie R1 par 42"@),
        choice_texts(19) == ("Déclenche une interruption"@, "Eteint la machine"@, "Remet à 0 tous les registres"@, "Arrête l'exécution du programme"@),
{
}

} // verus!
