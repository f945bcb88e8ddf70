//! Questions: four kinds, a category label, a prompt, answer options and a
//! 1-based correct-answer index (for estimation questions the index encodes
//! the numeric correct value).

use vstd::prelude::*;

verus! {

/// The four kinds of rounds a question can open.
#[derive(Copy, Clone, PartialEq, Eq, Structural, Debug)]
pub enum QuestionType {
    NormalQuestion,
    BettingQuestion,
    EstimationQuestion,
    VersusQuestion,
}

/// One question record, immutable once loaded.
pub struct Question {
    pub question_type: QuestionType,
    pub category: String,
    pub question: String,
    pub answers: Vec<String>,
    pub correct_answer: usize,
}

/// Mathematical model of a question.
#[verifier::ext_equal]
pub struct QuestionV {
    pub question_type: QuestionType,
    pub category: Seq<char>,
    pub question: Seq<char>,
    pub answers: Seq<Seq<char>>,
    pub correct_answer: usize,
}

impl View for Question {
    type V = QuestionV;

    open spec fn view(&self) -> QuestionV {
        QuestionV {
            question_type: self.question_type,
            category: self.category@,
            question: self.question@,
            answers: self.answers@.map_values(|a: String| a@),
            correct_answer: self.correct_answer,
        }
    }
}

/// A question the lobby can play without going wrong: normal and betting
/// rounds show four options and point at one of them, so their joker hint
/// (two of the three wrong options) is always well defined.
pub open spec fn question_ok(q: QuestionV) -> bool {
    match q.question_type {
        QuestionType::NormalQuestion | QuestionType::BettingQuestion => {
            &&& q.answers.len() == 4
            &&& 1 <= q.correct_answer <= 4
        },
        QuestionType::EstimationQuestion | QuestionType::VersusQuestion => true,
    }
}

/// Model of a question list as it is stored.
pub open spec fn questions_view(qs: Seq<Question>) -> Seq<QuestionV> {
    qs.map_values(|q: Question| q@)
}

/// Every question of the list can be played (see [`question_ok`]).
pub open spec fn questions_ok(qs: Seq<QuestionV>) -> bool {
    forall|i: int| 0 <= i < qs.len() ==> question_ok(#[trigger] qs[i])
}

/// A copy of one question, equal to the given one in every field.
pub fn clone_question(q: &Question) -> (r: Question)
    ensures
        r@ == q@,
{
    let mut answers: Vec<String> = Vec::new();
    let mut i: usize = 0;
    while i < q.answers.len()
        invariant
            i <= q.answers@.len(),
            answers@.len() == i,
            answers@.map_values(|a: String| a@) =~= q.answers@.map_values(|a: String| a@).take(
                i as int,
            ),
        decreases q.answers@.len() - i,
    {
        answers.push(q.answers[i].clone());
        i = i + 1;
        proof {
            assert(answers@.map_values(|a: String| a@) =~= q.answers@.map_values(
                |a: String| a@,
            ).take(i as int));
        }
    }
    proof {
        assert(q.answers@.map_values(|a: String| a@).take(q.answers@.len() as int)
            =~= q.answers@.map_values(|a: String| a@));
    }
    Question {
        question_type: q.question_type,
        category: q.category.clone(),
        question: q.question.clone(),
        answers,
        correct_answer: q.correct_answer,
    }
}

} // verus!
