//! The verification questions and the choice of the one a user is asked.

use vstd::prelude::*;

verus! {

/// A verification question with its options and the indices of the correct
/// ones.
pub struct Question {
    pub text: String,
    pub options: Vec<String>,
    pub correct: Vec<usize>,
}

pub struct QuestionView {
    pub text: Seq<char>,
    pub options: Seq<Seq<char>>,
    pub correct: Seq<usize>,
}

impl DeepView for Question {
    type V = QuestionView;

    open spec fn deep_view(&self) -> QuestionView {
        QuestionView { text: self.text@, options: self.options.deep_view(), correct: self.correct@ }
    }
}

/// The index of the question asked of `user_id` at time `now_ms`: the
/// user's id plus the time, wrapped to `usize`, modulo the number of
/// questions.
pub open spec fn question_index(count: nat, user_id: i64, now_ms: u64) -> int {
    ((user_id as usize).wrapping_add(now_ms as usize) as int) % (count as int)
}

/// Picks the question asked of `user_id`, with its index; `None` when there
/// is no question.
pub fn pick_question(questions: &[Question], user_id: i64, now_ms: u64) -> (r: Option<(usize, &Question)>)
    ensures
        questions@.len() == 0 <==> r is None,
        r matches Some((i, q)) ==> i == question_index(questions@.len(), user_id, now_ms)
            && i < questions@.len() && q == &questions@[i as int],
{
    if questions.len() == 0 {
        return None;
    }
    let idx = (user_id as usize).wrapping_add(now_ms as usize) % questions.len();
    Some((idx, &questions[idx]))
}

/// Whether option `option` is one of the correct answers of `q`.
pub fn is_correct(q: &Question, option: usize) -> (r: bool)
    ensures
        r == q.correct@.contains(option),
{
    let mut i: usize = 0;
    while i < q.correct.len()
        invariant
            i <= q.correct.len(),
            forall|j: int| 0 <= j < i ==> q.correct@[j] != option,
        decreases q.correct.len() - i,
    {
        if q.correct[i] == option {
            return true;
        }
        i = i + 1;
    }
    false
}

} // verus!
