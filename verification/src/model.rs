use vstd::prelude::*;

use crate::db::{answers_of, questions_of, users_of, DbReply, DbRequest};
use crate::models::{Answer, Question, User};
use crate::plan::{plan, reaction_name, Plan};
use crate::session::Session;

verus! {

/// A user row as plain values.
pub struct UserRecord {
    pub id: i32,
    pub username: Seq<char>,
    pub email: Seq<char>,
    pub password: Seq<char>,
    pub token: Seq<char>,
    pub created_at: std::time::SystemTime,
}

/// A question row as plain values.
pub struct QuestionRecord {
    pub id: i32,
    pub question_text: Seq<char>,
    pub tags: Seq<char>,
    pub created_at: std::time::SystemTime,
    pub user_id: i32,
}

/// An answer row as plain values.
pub struct AnswerRecord {
    pub id: i32,
    pub answer_text: Seq<char>,
    pub question_id: i32,
    pub user_id: i32,
    pub created_at: std::time::SystemTime,
}

/// A reaction row as plain values.
pub struct ReactionRecord {
    pub object_type: Seq<char>,
    pub object_id: i32,
    pub reaction_type: Seq<char>,
    pub user_id: i32,
    pub created_at: std::time::SystemTime,
}

/// The four tables of the forum's database, each in the order of its rows.
pub struct DbState {
    pub users: Seq<UserRecord>,
    pub questions: Seq<QuestionRecord>,
    pub answers: Seq<AnswerRecord>,
    pub reactions: Seq<ReactionRecord>,
}

pub open spec fn user_record(u: User) -> UserRecord {
    UserRecord {
        id: u.id,
        username: u.username@,
        email: u.email@,
        password: u.password@,
        token: u.token@,
        created_at: u.created_at,
    }
}

pub open spec fn question_record(q: Question) -> QuestionRecord {
    QuestionRecord {
        id: q.id,
        question_text: q.question_text@,
        tags: q.tags@,
        created_at: q.created_at,
        user_id: q.user_id,
    }
}

pub open spec fn answer_record(a: Answer) -> AnswerRecord {
    AnswerRecord {
        id: a.id,
        answer_text: a.answer_text@,
        question_id: a.question_id,
        user_id: a.user_id,
        created_at: a.created_at,
    }
}

/// A reply that holds exactly these user rows, in this order.
pub open spec fn holds_users(r: DbReply, rows: Seq<UserRecord>) -> bool {
    users_of(r) matches Some(v) && v.map_values(|u: User| user_record(u)) == rows
}

/// A reply that holds exactly these question rows, in this order.
pub open spec fn holds_questions(r: DbReply, rows: Seq<QuestionRecord>) -> bool {
    questions_of(r) matches Some(v) && v.map_values(|q: Question| question_record(q)) == rows
}

/// A reply that holds exactly these answer rows, in this order.
pub open spec fn holds_answers(r: DbReply, rows: Seq<AnswerRecord>) -> bool {
    answers_of(r) matches Some(v) && v.map_values(|a: Answer| answer_record(a)) == rows
}

/// The first of some rows, if there is one.
pub open spec fn first_of<A>(rows: Seq<A>) -> Seq<A> {
    if rows.len() == 0 { rows } else { rows.take(1) }
}

/// Users with this name and email.
pub open spec fn by_account(username: Seq<char>, email: Seq<char>) -> spec_fn(UserRecord) -> bool {
    |u: UserRecord| u.username == username && u.email == email
}

/// Users with this name and password.
pub open spec fn by_login(username: Seq<char>, password: Seq<char>) -> spec_fn(UserRecord) -> bool {
    |u: UserRecord| u.username == username && u.password == password
}

pub open spec fn user_with_id(id: i32) -> spec_fn(UserRecord) -> bool {
    |u: UserRecord| u.id == id
}

pub open spec fn question_with_id(id: i32) -> spec_fn(QuestionRecord) -> bool {
    |q: QuestionRecord| q.id == id
}

pub open spec fn question_without_id(id: i32) -> spec_fn(QuestionRecord) -> bool {
    |q: QuestionRecord| q.id != id
}

pub open spec fn questions_of_user(user_id: i32) -> spec_fn(QuestionRecord) -> bool {
    |q: QuestionRecord| q.user_id == user_id
}

pub open spec fn owned_question(user_id: i32, id: i32) -> spec_fn(QuestionRecord) -> bool {
    |q: QuestionRecord| q.user_id == user_id && q.id == id
}

pub open spec fn answer_with_id(id: i32) -> spec_fn(AnswerRecord) -> bool {
    |a: AnswerRecord| a.id == id
}

pub open spec fn answer_without_id(id: i32) -> spec_fn(AnswerRecord) -> bool {
    |a: AnswerRecord| a.id != id
}

pub open spec fn answers_to(question_id: i32) -> spec_fn(AnswerRecord) -> bool {
    |a: AnswerRecord| a.question_id == question_id
}

pub open spec fn owned_answer(user_id: i32, id: i32) -> spec_fn(AnswerRecord) -> bool {
    |a: AnswerRecord| a.user_id == user_id && a.id == id
}

/// The users after the token of user `id` is set.
pub open spec fn set_token(users: Seq<UserRecord>, id: i32, token: Seq<char>) -> Seq<UserRecord> {
    users.map_values(with_token(id, token))
}

/// A user row after the token of user `id` is set.
pub open spec fn with_token(id: i32, token: Seq<char>) -> spec_fn(UserRecord) -> UserRecord {
    |u: UserRecord| if u.id == id { UserRecord { token, ..u } } else { u }
}

/// The users after the password of user `id` is set.
pub open spec fn set_password(users: Seq<UserRecord>, id: i32, password: Seq<char>) -> Seq<UserRecord> {
    users.map_values(|u: UserRecord| if u.id == id { UserRecord { password, ..u } } else { u })
}

/// The questions after the text of question `id` is set.
pub open spec fn set_question_text(qs: Seq<QuestionRecord>, id: i32, text: Seq<char>) -> Seq<QuestionRecord> {
    qs.map_values(|q: QuestionRecord| if q.id == id { QuestionRecord { question_text: text, ..q } } else { q })
}

/// The answers after the text of answer `id` is set.
pub open spec fn set_answer_text(answers: Seq<AnswerRecord>, id: i32, text: Seq<char>) -> Seq<AnswerRecord> {
    answers.map_values(|a: AnswerRecord| if a.id == id { AnswerRecord { answer_text: text, ..a } } else { a })
}

/// How the database carries out one request of a session: from state `db`
/// it answers `r` and moves to state `db2`. Loads answer the matching rows
/// in table order, lookups the first of them, updates the changed row,
/// inserts (with an id no row has) and deletes `Done`.
pub open spec fn performs(db: DbState, p: Plan, r: DbReply, db2: DbState) -> bool {
    match p {
        Plan::Ask(q) => match q {
            DbRequest::LoadQuestions => holds_questions(r, db.questions) && db2 == db,
            DbRequest::FindUser { username, email } =>
                holds_users(r, first_of(db.users.filter(by_account(username@, email@)))) && db2 == db,
            DbRequest::LoadQuestionsOfUser { user_id } =>
                holds_questions(r, db.questions.filter(questions_of_user(user_id))) && db2 == db,
            DbRequest::FindQuestion { question_id } =>
                holds_questions(r, first_of(db.questions.filter(question_with_id(question_id)))) && db2 == db,
            DbRequest::InsertQuestion { question } => r is Done && exists|id: i32|
                (forall|i: int| 0 <= i < db.questions.len() ==> db.questions[i].id != id)
                    && db2 == (DbState {
                    questions: db.questions.push(QuestionRecord {
                        id,
                        question_text: question.question_text@,
                        tags: question.tags@,
                        created_at: question.created_at,
                        user_id: question.user_id,
                    }),
                    ..db
                }),
            DbRequest::LoadOwnedQuestions { user_id, question_id } =>
                holds_questions(r, db.questions.filter(owned_question(user_id, question_id))) && db2 == db,
            DbRequest::SetQuestionText { question_id, question_text } =>
                db2 == (DbState { questions: set_question_text(db.questions, question_id, question_text@), ..db })
                    && holds_questions(r, first_of(db2.questions.filter(question_with_id(question_id)))),
            DbRequest::DeleteQuestion { question_id } => r is Done
                && db2 == (DbState { questions: db.questions.filter(question_without_id(question_id)), ..db }),
            DbRequest::LoadAnswersOfQuestion { question_id } =>
                holds_answers(r, db.answers.filter(answers_to(question_id))) && db2 == db,
            DbRequest::InsertAnswer { answer } => r is Done && exists|id: i32|
                (forall|i: int| 0 <= i < db.answers.len() ==> db.answers[i].id != id)
                    && db2 == (DbState {
                    answers: db.answers.push(AnswerRecord {
                        id,
                        answer_text: answer.answer_text@,
                        question_id: answer.question_id,
                        user_id: answer.user_id,
                        created_at: answer.created_at,
                    }),
                    ..db
                }),
            DbRequest::InsertReaction { reaction } => r is Done && db2 == (DbState {
                reactions: db.reactions.push(ReactionRecord {
                    object_type: reaction.object_type@,
                    object_id: reaction.object_id,
                    reaction_type: reaction.reaction_type@,
                    user_id: reaction.user_id,
                    created_at: reaction.created_at,
                }),
                ..db
            }),
            DbRequest::LoadOwnedAnswers { user_id, answer_id } =>
                holds_answers(r, db.answers.filter(owned_answer(user_id, answer_id))) && db2 == db,
            DbRequest::SetAnswerText { answer_id, answer_text } =>
                db2 == (DbState { answers: set_answer_text(db.answers, answer_id, answer_text@), ..db })
                    && holds_answers(r, first_of(db2.answers.filter(answer_with_id(answer_id)))),
            DbRequest::DeleteAnswer { answer_id } => r is Done
                && db2 == (DbState { answers: db.answers.filter(answer_without_id(answer_id)), ..db }),
            DbRequest::LoadUsersByLogin { username, password } =>
                holds_users(r, db.users.filter(by_login(username@, password@))) && db2 == db,
            DbRequest::FindUserByLogin { username, password } =>
                holds_users(r, first_of(db.users.filter(by_login(username@, password@)))) && db2 == db,
            DbRequest::SetUserToken { user_id, token } =>
                db2 == (DbState { users: set_token(db.users, user_id, token@), ..db })
                    && holds_users(r, first_of(db2.users.filter(user_with_id(user_id)))),
            DbRequest::LoadUsersByAccount { email, username } =>
                holds_users(r, db.users.filter(by_account(username@, email@))) && db2 == db,
            DbRequest::InsertUser { user } => r is Done && exists|id: i32|
                (forall|i: int| 0 <= i < db.users.len() ==> db.users[i].id != id)
                    && db2 == (DbState {
                    users: db.users.push(UserRecord {
                        id,
                        username: user.username@,
                        email: user.email@,
                        password: user.password@,
                        token: user.token@,
                        created_at: user.created_at,
                    }),
                    ..db
                }),
            DbRequest::SetUserPassword { user_id, password } =>
                db2 == (DbState { users: set_password(db.users, user_id, password@), ..db })
                    && holds_users(r, first_of(db2.users.filter(user_with_id(user_id)))),
        },
        Plan::AskSetToken { user_id, token } =>
            db2 == (DbState { users: set_token(db.users, user_id, token), ..db })
                && holds_users(r, first_of(db2.users.filter(user_with_id(user_id)))),
        Plan::AskInsertUser { username, email, password, token, created_at } => r is Done && exists|id: i32|
            (forall|i: int| 0 <= i < db.users.len() ==> db.users[i].id != id)
                && db2 == (DbState {
                users: db.users.push(UserRecord {
                    id,
                    username: username@,
                    email: email@,
                    password: password@,
                    token,
                    created_at,
                }),
                ..db
            }),
        Plan::AskReaction { object_id, user_id, like, created_at } => r is Done && db2 == (DbState {
            reactions: db.reactions.push(ReactionRecord {
                object_type: "question"@,
                object_id,
                reaction_type: reaction_name(like),
                user_id,
                created_at,
            }),
            ..db
        }),
        _ => false,
    }
}

/// A session served by the database: `h` are the replies to its steps, and
/// `dbs[i]` the database's state before step `i` (`dbs[h.len()]` the state
/// after the last reply).
pub open spec fn runs(s: Session, h: Seq<DbReply>, dbs: Seq<DbState>) -> bool {
    &&& dbs.len() == h.len() + 1
    &&& forall|i: int| 0 <= i < h.len() ==> #[trigger] performs(dbs[i], plan(s, h.take(i)), h[i], dbs[i + 1])
}

/// Filtering after appending a row.
pub proof fn lemma_filter_push<A>(s: Seq<A>, x: A, p: spec_fn(A) -> bool)
    ensures
        s.push(x).filter(p) == (if p(x) { s.filter(p).push(x) } else { s.filter(p) }),
{
    reveal(Seq::filter);
    assert(s.push(x).drop_last() =~= s);
}

/// A filter with no result holds no row that passes it.
pub proof fn lemma_filter_empty<A>(s: Seq<A>, p: spec_fn(A) -> bool, i: int)
    requires
        s.filter(p).len() == 0,
        0 <= i < s.len(),
    ensures
        !p(s[i]),
{
    if p(s[i]) {
        s.lemma_filter_contains(p, i);
    }
}

} // verus!
