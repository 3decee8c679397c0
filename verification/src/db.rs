use vstd::prelude::*;

use crate::models::{Answer, NewAnswer, NewQuestion, NewReaction, NewUser, Question, User};

verus! {

/// A database operation that an endpoint needs. Each is answered with a
/// [`DbReply`]: loads and lookups with the rows found (lookups with at most
/// the first one), updates with the changed row, inserts and deletes with
/// `Done`, and any operation that fails with `Failed`.
pub enum DbRequest {
    /// All questions.
    LoadQuestions,
    /// The first user with this name and this email.
    FindUser { username: String, email: String },
    /// The questions asked by a user.
    LoadQuestionsOfUser { user_id: i32 },
    /// The question with this id.
    FindQuestion { question_id: i32 },
    InsertQuestion { question: NewQuestion },
    /// The questions with this id that this user asked.
    LoadOwnedQuestions { user_id: i32, question_id: i32 },
    /// Sets the text of a question; answered with the changed question.
    SetQuestionText { question_id: i32, question_text: String },
    DeleteQuestion { question_id: i32 },
    /// The answers to a question.
    LoadAnswersOfQuestion { question_id: i32 },
    InsertAnswer { answer: NewAnswer },
    InsertReaction { reaction: NewReaction },
    /// The answers with this id that this user gave.
    LoadOwnedAnswers { user_id: i32, answer_id: i32 },
    /// Sets the text of an answer; answered with the changed answer.
    SetAnswerText { answer_id: i32, answer_text: String },
    DeleteAnswer { answer_id: i32 },
    /// The users with this name and this password.
    LoadUsersByLogin { username: String, password: String },
    /// The first user with this name and this password.
    FindUserByLogin { username: String, password: String },
    /// Stores a user's token; answered with the changed user.
    SetUserToken { user_id: i32, token: String },
    /// The users with this email and this name.
    LoadUsersByAccount { email: String, username: String },
    InsertUser { user: NewUser },
    /// Stores a user's password; answered with the changed user.
    SetUserPassword { user_id: i32, password: String },
}

/// What the database answered to a [`DbRequest`].
pub enum DbReply {
    Users(Vec<User>),
    Questions(Vec<Question>),
    Answers(Vec<Answer>),
    Done,
    Failed,
}

/// The users of a reply, if it holds users.
pub open spec fn users_of(r: DbReply) -> Option<Seq<User>> {
    match r {
        DbReply::Users(v) => Some(v@),
        _ => None,
    }
}

/// The questions of a reply, if it holds questions.
pub open spec fn questions_of(r: DbReply) -> Option<Seq<Question>> {
    match r {
        DbReply::Questions(v) => Some(v@),
        _ => None,
    }
}

/// The answers of a reply, if it holds answers.
pub open spec fn answers_of(r: DbReply) -> Option<Seq<Answer>> {
    match r {
        DbReply::Answers(v) => Some(v@),
        _ => None,
    }
}

/// The first user of a reply, if it holds one.
pub open spec fn first_user(r: DbReply) -> Option<User> {
    match r {
        DbReply::Users(v) => if v@.len() > 0 { Some(v@[0]) } else { None },
        _ => None,
    }
}

/// The first question of a reply, if it holds one.
pub open spec fn first_question(r: DbReply) -> Option<Question> {
    match r {
        DbReply::Questions(v) => if v@.len() > 0 { Some(v@[0]) } else { None },
        _ => None,
    }
}

/// The first answer of a reply, if it holds one.
pub open spec fn first_answer(r: DbReply) -> Option<Answer> {
    match r {
        DbReply::Answers(v) => if v@.len() > 0 { Some(v@[0]) } else { None },
        _ => None,
    }
}

impl DbReply {
    pub fn first_user(&self) -> (res: Option<&User>)
        ensures
            match res {
                Some(u) => first_user(*self) == Some(*u),
                None => first_user(*self) is None,
            },
    {
        match self {
            DbReply::Users(v) => if v.len() > 0 { Some(&v[0]) } else { None },
            _ => None,
        }
    }

    pub fn first_question(&self) -> (res: Option<&Question>)
        ensures
            match res {
                Some(q) => first_question(*self) == Some(*q),
                None => first_question(*self) is None,
            },
    {
        match self {
            DbReply::Questions(v) => if v.len() > 0 { Some(&v[0]) } else { None },
            _ => None,
        }
    }

    pub fn first_answer(&self) -> (res: Option<&Answer>)
        ensures
            match res {
                Some(a) => first_answer(*self) == Some(*a),
                None => first_answer(*self) is None,
            },
    {
        match self {
            DbReply::Answers(v) => if v.len() > 0 { Some(&v[0]) } else { None },
            _ => None,
        }
    }

    pub fn is_done(&self) -> (res: bool)
        ensures
            res == (*self is Done),
    {
        match self {
            DbReply::Done => true,
            _ => false,
        }
    }
}

} // verus!
