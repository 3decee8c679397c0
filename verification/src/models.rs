use vstd::prelude::*;

verus! {

/// Wall-clock instants are only carried through the library (they are
/// stamped on new rows), never inspected.
#[verifier::external_type_specification]
#[verifier::external_body]
pub struct ExSystemTime(std::time::SystemTime);

/// A row of the `users` table.
pub struct User {
    pub id: i32,
    pub username: String,
    pub email: String,
    pub password: String,
    pub token: String,
    pub created_at: std::time::SystemTime,
}

/// A user to be inserted into the `users` table.
pub struct NewUser {
    pub username: String,
    pub email: String,
    pub password: String,
    pub token: String,
    pub created_at: std::time::SystemTime,
}

/// A row of the `questions` table.
pub struct Question {
    pub id: i32,
    pub question_text: String,
    pub tags: String,
    pub created_at: std::time::SystemTime,
    pub user_id: i32,
}

/// A question to be inserted into the `questions` table.
pub struct NewQuestion {
    pub question_text: String,
    pub tags: String,
    pub created_at: std::time::SystemTime,
    pub user_id: i32,
}

/// A row of the `answers` table.
pub struct Answer {
    pub id: i32,
    pub answer_text: String,
    pub question_id: i32,
    pub user_id: i32,
    pub created_at: std::time::SystemTime,
}

/// An answer to be inserted into the `answers` table.
pub struct NewAnswer {
    pub answer_text: String,
    pub question_id: i32,
    pub user_id: i32,
    pub created_at: std::time::SystemTime,
}

/// A reaction (a like or a dislike) to be inserted into the `reactions` table.
pub struct NewReaction {
    pub object_type: String,
    pub object_id: i32,
    pub reaction_type: String,
    pub user_id: i32,
    pub created_at: std::time::SystemTime,
}

/// A question as the service shows it.
pub struct QuestionRow {
    pub question_id: i32,
    pub question_text: String,
    pub tags: String,
    pub user_id: i32,
}

/// An answer as the service shows it.
pub struct AnswerRow {
    pub answer_id: i32,
    pub answer_text: String,
    pub question_id: i32,
    pub user_id: i32,
}

pub open spec fn question_row(q: Question) -> QuestionRow {
    QuestionRow { question_id: q.id, question_text: q.question_text, tags: q.tags, user_id: q.user_id }
}

pub open spec fn answer_row(a: Answer) -> AnswerRow {
    AnswerRow { answer_id: a.id, answer_text: a.answer_text, question_id: a.question_id, user_id: a.user_id }
}

pub open spec fn question_rows(qs: Seq<Question>) -> Seq<QuestionRow> {
    qs.map_values(|q: Question| question_row(q))
}

pub open spec fn answer_rows(answers: Seq<Answer>) -> Seq<AnswerRow> {
    answers.map_values(|a: Answer| answer_row(a))
}

impl Question {
    /// The question as the service shows it.
    pub fn row(&self) -> (r: QuestionRow)
        ensures
            r == question_row(*self),
    {
        QuestionRow {
            question_id: self.id,
            question_text: self.question_text.clone(),
            tags: self.tags.clone(),
            user_id: self.user_id,
        }
    }
}

impl Answer {
    /// The answer as the service shows it.
    pub fn row(&self) -> (r: AnswerRow)
        ensures
            r == answer_row(*self),
    {
        AnswerRow {
            answer_id: self.id,
            answer_text: self.answer_text.clone(),
            question_id: self.question_id,
            user_id: self.user_id,
        }
    }
}

/// The questions as the service shows them, in the same order.
pub fn rows_of_questions(qs: &Vec<Question>) -> (rows: Vec<QuestionRow>)
    ensures
        rows@ == question_rows(qs@),
{
    let mut rows: Vec<QuestionRow> = Vec::new();
    let mut i: usize = 0;
    while i < qs.len()
        invariant
            0 <= i <= qs.len(),
            rows@ == question_rows(qs@.take(i as int)),
        decreases qs.len() - i,
    {
        rows.push(qs[i].row());
        assert(question_rows(qs@.take(i + 1)) =~= question_rows(qs@.take(i as int)).push(question_row(qs@[i as int])));
        i = i + 1;
    }
    assert(qs@.take(qs.len() as int) =~= qs@);
    rows
}

/// The answers as the service shows them, in the same order.
pub fn rows_of_answers(answers: &Vec<Answer>) -> (rows: Vec<AnswerRow>)
    ensures
        rows@ == answer_rows(answers@),
{
    let mut rows: Vec<AnswerRow> = Vec::new();
    let mut i: usize = 0;
    while i < answers.len()
        invariant
            0 <= i <= answers.len(),
            rows@ == answer_rows(answers@.take(i as int)),
        decreases answers.len() - i,
    {
        rows.push(answers[i].row());
        assert(answer_rows(answers@.take(i + 1)) =~= answer_rows(answers@.take(i as int)).push(answer_row(answers@[i as int])));
        i = i + 1;
    }
    assert(answers@.take(answers.len() as int) =~= answers@);
    rows
}

} // verus!
