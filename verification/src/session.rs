use vstd::prelude::*;

use crate::claims::{decode_claims, issue_token, token_claims, Claims};
use crate::db::{DbReply, DbRequest};
use crate::models::{rows_of_answers, rows_of_questions, NewAnswer, NewQuestion, NewReaction, NewUser};
use crate::number::parse_i32;
use crate::plan::{
    find_user, issued_tokens_accepted, plan, plan_change_password, plan_create_question, plan_delete_answer,
    plan_delete_question, plan_find_then, plan_get_answers, plan_get_question, plan_list_questions, plan_login,
    plan_logout, plan_my_questions, plan_react, plan_set_answer, plan_signup, plan_update_answer, plan_update_question,
    plan_with_user, reaction_name, step_matches, token_of,
};
use crate::reply::Reply;

verus! {

/// A request to one of the endpoints of the service, with its parameters.
/// The endpoints that need a user carry the raw token of the request.
pub enum Request {
    Index,
    ChangeProfilePicture,
    Login { username: String, password: String },
    Signup { username: String, password: String, confirm_password: String, email: String },
    ListQuestions { token: String },
    MyQuestions { token: String },
    GetQuestion { token: String, qid: String },
    CreateQuestion { token: String, question_text: String, tags: String },
    UpdateQuestion { token: String, qid: String, question_text: String, tags: String },
    DeleteQuestion { token: String, qid: String },
    GetAnswers { token: String, qid: String },
    SetAnswer { token: String, qid: String, answer_text: String },
    LikeQuestion { token: String, qid: String },
    DislikeQuestion { token: String, qid: String },
    UpdateAnswer { token: String, qid: String, answer_text: String },
    DeleteAnswer { token: String, qid: String },
    LikeAnswer { token: String, qid: String },
    DislikeAnswer { token: String, qid: String },
    ChangePassword { token: String, password: String, new_password: String, confirm_new_password: String },
    Logout { token: String },
    ForgotPassword { token: String },
}

/// Why an endpoint gives up without an answer (the service then fails the
/// request as a server error).
#[derive(Debug)]
pub enum Abort {
    /// The token is malformed, forged, or lacks one of the claims.
    TokenRejected,
    /// The id in the path is not a decimal `i32`.
    BadId,
    /// A database operation failed, or found no row where one was needed.
    DbFailure,
    /// A database reply came that the endpoint did not ask for.
    OutOfSequence,
}

/// The next thing an endpoint does.
pub enum Step {
    /// Ask the database; the reply is handed back to the endpoint.
    Query(DbRequest),
    /// Answer the request; the endpoint is done.
    Respond(Reply),
    /// Give up; the endpoint is done.
    Abort(Abort),
}

/// A request being served: the request, the claims of its token (where it
/// has a genuine one) and the time at which it came.
pub struct Session {
    pub request: Request,
    pub claims: Option<Claims>,
    pub now: std::time::SystemTime,
}

/// `s` when the endpoint has had `k` replies; any further reply is out of sequence.
fn at_reply(n: usize, k: usize, s: Step) -> (r: Step)
    ensures
        n == k ==> r == s,
        n != k ==> r == Step::Abort(Abort::OutOfSequence),
{
    if n == k {
        s
    } else {
        Step::Abort(Abort::OutOfSequence)
    }
}

fn find_user_request(c: &Claims) -> (q: DbRequest)
    ensures
        q == find_user(*c),
{
    DbRequest::FindUser { username: c.username.clone(), email: c.sub.clone() }
}

fn step_list_questions(h: &Vec<DbReply>) -> (step: Step)
    ensures
        step_matches(step, plan_list_questions(h@)),
{
    let n = h.len();
    if n == 0 {
        return Step::Query(DbRequest::LoadQuestions);
    }
    let s = match &h[0] {
        DbReply::Questions(qs) => Step::Respond(Reply::QuestionList(rows_of_questions(qs))),
        _ => Step::Abort(Abort::DbFailure),
    };
    at_reply(n, 1, s)
}

fn step_my_questions(c: &Claims, h: &Vec<DbReply>) -> (step: Step)
    ensures
        step_matches(step, plan_my_questions(*c, h@)),
{
    let n = h.len();
    if n == 0 {
        return Step::Query(find_user_request(c));
    }
    let u = match h[0].first_user() {
        Some(u) => u,
        None => return at_reply(n, 1, Step::Abort(Abort::DbFailure)),
    };
    if n == 1 {
        return Step::Query(DbRequest::LoadQuestionsOfUser { user_id: u.id });
    }
    let s = match &h[1] {
        DbReply::Questions(qs) => Step::Respond(Reply::QuestionList(rows_of_questions(qs))),
        _ => Step::Abort(Abort::DbFailure),
    };
    at_reply(n, 2, s)
}

fn step_get_question(qid: &String, h: &Vec<DbReply>) -> (step: Step)
    ensures
        step_matches(step, plan_get_question(*qid, h@)),
{
    let n = h.len();
    let id = match parse_i32(qid.as_str()) {
        Some(id) => id,
        None => return at_reply(n, 0, Step::Abort(Abort::BadId)),
    };
    if n == 0 {
        return Step::Query(DbRequest::FindQuestion { question_id: id });
    }
    let s = match h[0].first_question() {
        Some(q) => Step::Respond(Reply::QuestionDetail { qid: qid.clone(), row: q.row() }),
        None => Step::Abort(Abort::DbFailure),
    };
    at_reply(n, 1, s)
}

fn step_create_question(
    c: &Claims,
    question_text: &String,
    tags: &String,
    now: std::time::SystemTime,
    h: &Vec<DbReply>,
) -> (step: Step)
    ensures
        step_matches(step, plan_create_question(*c, *question_text, *tags, now, h@)),
{
    let n = h.len();
    if n == 0 {
        return Step::Query(find_user_request(c));
    }
    let u = match h[0].first_user() {
        Some(u) => u,
        None => return at_reply(n, 1, Step::Abort(Abort::DbFailure)),
    };
    if n == 1 {
        return Step::Query(DbRequest::InsertQuestion {
            question: NewQuestion {
                question_text: question_text.clone(),
                tags: tags.clone(),
                created_at: now,
                user_id: u.id,
            },
        });
    }
    let s = if h[1].is_done() {
        Step::Respond(Reply::QuestionCreated { question_text: question_text.clone(), tags: tags.clone() })
    } else {
        Step::Abort(Abort::DbFailure)
    };
    at_reply(n, 2, s)
}

fn step_update_question(c: &Claims, qid: &String, question_text: &String, h: &Vec<DbReply>) -> (step: Step)
    ensures
        step_matches(step, plan_update_question(*c, *qid, *question_text, h@)),
{
    let n = h.len();
    if n == 0 {
        return Step::Query(find_user_request(c));
    }
    let u = match h[0].first_user() {
        Some(u) => u,
        None => return at_reply(n, 1, Step::Abort(Abort::DbFailure)),
    };
    let id = match parse_i32(qid.as_str()) {
        Some(id) => id,
        None => return at_reply(n, 1, Step::Abort(Abort::BadId)),
    };
    if n == 1 {
        return Step::Query(DbRequest::LoadOwnedQuestions { user_id: u.id, question_id: id });
    }
    let owned = match &h[1] {
        DbReply::Questions(owned) => owned,
        _ => return at_reply(n, 2, Step::Abort(Abort::DbFailure)),
    };
    if owned.len() == 0 {
        return at_reply(n, 2, Step::Respond(Reply::QuestionEditDenied));
    }
    if n == 2 {
        return Step::Query(DbRequest::SetQuestionText { question_id: id, question_text: question_text.clone() });
    }
    let s = match h[2].first_question() {
        Some(q) => Step::Respond(Reply::QuestionUpdated { question_text: q.question_text.clone(), tags: q.tags.clone() }),
        None => Step::Abort(Abort::DbFailure),
    };
    at_reply(n, 3, s)
}

fn step_delete_question(c: &Claims, qid: &String, h: &Vec<DbReply>) -> (step: Step)
    ensures
        step_matches(step, plan_delete_question(*c, *qid, h@)),
{
    let n = h.len();
    if n == 0 {
        return Step::Query(find_user_request(c));
    }
    let u = match h[0].first_user() {
        Some(u) => u,
        None => return at_reply(n, 1, Step::Abort(Abort::DbFailure)),
    };
    let id = match parse_i32(qid.as_str()) {
        Some(id) => id,
        None => return at_reply(n, 1, Step::Abort(Abort::BadId)),
    };
    if n == 1 {
        return Step::Query(DbRequest::LoadOwnedQuestions { user_id: u.id, question_id: id });
    }
    let owned = match &h[1] {
        DbReply::Questions(owned) => owned,
        _ => return at_reply(n, 2, Step::Abort(Abort::DbFailure)),
    };
    if owned.len() == 0 {
        return at_reply(n, 2, Step::Respond(Reply::QuestionDeleteDenied));
    }
    if n == 2 {
        return Step::Query(DbRequest::DeleteQuestion { question_id: id });
    }
    let s = if h[2].is_done() {
        Step::Respond(Reply::QuestionDeleted { qid: qid.clone() })
    } else {
        Step::Abort(Abort::DbFailure)
    };
    at_reply(n, 3, s)
}

fn step_get_answers(qid: &String, h: &Vec<DbReply>) -> (step: Step)
    ensures
        step_matches(step, plan_get_answers(*qid, h@)),
{
    let n = h.len();
    let id = match parse_i32(qid.as_str()) {
        Some(id) => id,
        None => return at_reply(n, 0, Step::Abort(Abort::BadId)),
    };
    if n == 0 {
        return Step::Query(DbRequest::LoadAnswersOfQuestion { question_id: id });
    }
    let s = match &h[0] {
        DbReply::Answers(answers) => Step::Respond(Reply::AnswerList(rows_of_answers(answers))),
        _ => Step::Abort(Abort::DbFailure),
    };
    at_reply(n, 1, s)
}

fn step_set_answer(
    c: &Claims,
    qid: &String,
    answer_text: &String,
    now: std::time::SystemTime,
    h: &Vec<DbReply>,
) -> (step: Step)
    ensures
        step_matches(step, plan_set_answer(*c, *qid, *answer_text, now, h@)),
{
    let n = h.len();
    let id = match parse_i32(qid.as_str()) {
        Some(id) => id,
        None => return at_reply(n, 0, Step::Abort(Abort::BadId)),
    };
    if n == 0 {
        return Step::Query(find_user_request(c));
    }
    let u = match h[0].first_user() {
        Some(u) => u,
        None => return at_reply(n, 1, Step::Abort(Abort::DbFailure)),
    };
    if n == 1 {
        return Step::Query(DbRequest::InsertAnswer {
            answer: NewAnswer { answer_text: answer_text.clone(), question_id: id, user_id: u.id, created_at: now },
        });
    }
    let s = if h[1].is_done() {
        Step::Respond(Reply::AnswerCreated { answer_text: answer_text.clone(), question_id: id })
    } else {
        Step::Abort(Abort::DbFailure)
    };
    at_reply(n, 2, s)
}

fn reaction_type(like: bool) -> (r: String)
    ensures
        r@ == reaction_name(like),
{
    if like {
        String::from_str("like")
    } else {
        String::from_str("dislike")
    }
}

fn step_react(c: &Claims, qid: &String, like: bool, now: std::time::SystemTime, h: &Vec<DbReply>) -> (step: Step)
    ensures
        step_matches(step, plan_react(*c, *qid, like, now, h@)),
{
    let n = h.len();
    let id = match parse_i32(qid.as_str()) {
        Some(id) => id,
        None => return at_reply(n, 0, Step::Abort(Abort::BadId)),
    };
    if n == 0 {
        return Step::Query(find_user_request(c));
    }
    let u = match h[0].first_user() {
        Some(u) => u,
        None => return at_reply(n, 1, Step::Abort(Abort::DbFailure)),
    };
    if n == 1 {
        return Step::Query(DbRequest::InsertReaction {
            reaction: NewReaction {
                object_type: String::from_str("question"),
                object_id: id,
                reaction_type: reaction_type(like),
                user_id: u.id,
                created_at: now,
            },
        });
    }
    let s = if h[1].is_done() {
        Step::Respond(Reply::Reacted {
            object_type: String::from_str("question"),
            object_id: id,
            reaction_type: reaction_type(like),
        })
    } else {
        Step::Abort(Abort::DbFailure)
    };
    at_reply(n, 2, s)
}

fn step_update_answer(c: &Claims, qid: &String, answer_text: &String, h: &Vec<DbReply>) -> (step: Step)
    ensures
        step_matches(step, plan_update_answer(*c, *qid, *answer_text, h@)),
{
    let n = h.len();
    if n == 0 {
        return Step::Query(find_user_request(c));
    }
    let u = match h[0].first_user() {
        Some(u) => u,
        None => return at_reply(n, 1, Step::Abort(Abort::DbFailure)),
    };
    let id = match parse_i32(qid.as_str()) {
        Some(id) => id,
        None => return at_reply(n, 1, Step::Abort(Abort::BadId)),
    };
    if n == 1 {
        return Step::Query(DbRequest::LoadOwnedAnswers { user_id: u.id, answer_id: id });
    }
    let owned = match &h[1] {
        DbReply::Answers(owned) => owned,
        _ => return at_reply(n, 2, Step::Abort(Abort::DbFailure)),
    };
    if owned.len() == 0 {
        return at_reply(n, 2, Step::Respond(Reply::AnswerEditDenied));
    }
    if n == 2 {
        return Step::Query(DbRequest::SetAnswerText { answer_id: id, answer_text: answer_text.clone() });
    }
    let s = match h[2].first_answer() {
        Some(a) => Step::Respond(Reply::AnswerUpdated { answer_text: a.answer_text.clone() }),
        None => Step::Abort(Abort::DbFailure),
    };
    at_reply(n, 3, s)
}

fn step_delete_answer(c: &Claims, qid: &String, h: &Vec<DbReply>) -> (step: Step)
    ensures
        step_matches(step, plan_delete_answer(*c, *qid, h@)),
{
    let n = h.len();
    if n == 0 {
        return Step::Query(find_user_request(c));
    }
    let u = match h[0].first_user() {
        Some(u) => u,
        None => return at_reply(n, 1, Step::Abort(Abort::DbFailure)),
    };
    let id = match parse_i32(qid.as_str()) {
        Some(id) => id,
        None => return at_reply(n, 1, Step::Abort(Abort::BadId)),
    };
    if n == 1 {
        return Step::Query(DbRequest::LoadOwnedAnswers { user_id: u.id, answer_id: id });
    }
    let owned = match &h[1] {
        DbReply::Answers(owned) => owned,
        _ => return at_reply(n, 2, Step::Abort(Abort::DbFailure)),
    };
    if owned.len() == 0 {
        return at_reply(n, 2, Step::Respond(Reply::AnswerDeleteDenied));
    }
    if n == 2 {
        return Step::Query(DbRequest::DeleteAnswer { answer_id: id });
    }
    let s = if h[2].is_done() {
        Step::Respond(Reply::AnswerDeleted { qid: qid.clone() })
    } else {
        Step::Abort(Abort::DbFailure)
    };
    at_reply(n, 3, s)
}

fn step_find_then(c: &Claims, r: Reply, h: &Vec<DbReply>) -> (step: Step)
    ensures
        step_matches(step, plan_find_then(*c, r, h@)),
{
    let n = h.len();
    if n == 0 {
        return Step::Query(find_user_request(c));
    }
    let s = match h[0].first_user() {
        Some(_) => Step::Respond(r),
        None => Step::Abort(Abort::DbFailure),
    };
    at_reply(n, 1, s)
}

fn step_change_password(
    c: &Claims,
    password: &String,
    new_password: &String,
    confirm_new_password: &String,
    h: &Vec<DbReply>,
) -> (step: Step)
    ensures
        step_matches(step, plan_change_password(*c, *password, *new_password, *confirm_new_password, h@)),
{
    let n = h.len();
    if n == 0 {
        return Step::Query(find_user_request(c));
    }
    let u = match h[0].first_user() {
        Some(u) => u,
        None => return at_reply(n, 1, Step::Abort(Abort::DbFailure)),
    };
    if u.password != *password {
        return at_reply(n, 1, Step::Respond(Reply::InvalidAccount));
    }
    if *new_password != *confirm_new_password {
        return at_reply(n, 1, Step::Respond(Reply::NewPasswordMismatch));
    }
    if n == 1 {
        return Step::Query(DbRequest::SetUserPassword { user_id: u.id, password: new_password.clone() });
    }
    let s = match h[1].first_user() {
        Some(_) => Step::Respond(Reply::PasswordChanged),
        None => Step::Abort(Abort::DbFailure),
    };
    at_reply(n, 2, s)
}

fn step_logout(c: &Claims, h: &Vec<DbReply>) -> (step: Step)
    ensures
        step_matches(step, plan_logout(*c, h@)),
{
    let n = h.len();
    if n == 0 {
        return Step::Query(find_user_request(c));
    }
    let u = match h[0].first_user() {
        Some(u) => u,
        None => return at_reply(n, 1, Step::Abort(Abort::DbFailure)),
    };
    if n == 1 {
        return Step::Query(DbRequest::SetUserToken { user_id: u.id, token: String::new() });
    }
    let s = match h[1].first_user() {
        Some(_) => Step::Respond(Reply::LogoutSuccess),
        None => Step::Abort(Abort::DbFailure),
    };
    at_reply(n, 2, s)
}

fn step_login(username: &String, password: &String, h: &Vec<DbReply>) -> (step: Step)
    ensures
        step_matches(step, plan_login(*username, *password, h@)),
        issued_tokens_accepted(step),
{
    let n = h.len();
    if n == 0 {
        return Step::Query(DbRequest::LoadUsersByLogin { username: username.clone(), password: password.clone() });
    }
    let found = match &h[0] {
        DbReply::Users(found) => found,
        _ => return at_reply(n, 1, Step::Abort(Abort::DbFailure)),
    };
    if found.len() == 0 {
        return at_reply(n, 1, Step::Respond(Reply::LoginFailed));
    }
    if n == 1 {
        return Step::Query(DbRequest::FindUserByLogin { username: username.clone(), password: password.clone() });
    }
    let u = match h[1].first_user() {
        Some(u) => u,
        None => return at_reply(n, 2, Step::Abort(Abort::DbFailure)),
    };
    let token = issue_token(u.email.as_str(), u.username.as_str());
    if n == 2 {
        return Step::Query(DbRequest::SetUserToken { user_id: u.id, token });
    }
    let s = match h[2].first_user() {
        Some(_) => Step::Respond(Reply::LoginSuccess { token }),
        None => Step::Abort(Abort::DbFailure),
    };
    at_reply(n, 3, s)
}

fn step_signup(
    username: &String,
    password: &String,
    confirm_password: &String,
    email: &String,
    now: std::time::SystemTime,
    h: &Vec<DbReply>,
) -> (step: Step)
    ensures
        step_matches(step, plan_signup(*username, *password, *confirm_password, *email, now, h@)),
        issued_tokens_accepted(step),
{
    let n = h.len();
    if n == 0 {
        return Step::Query(DbRequest::LoadUsersByAccount { email: email.clone(), username: username.clone() });
    }
    let found = match &h[0] {
        DbReply::Users(found) => found,
        _ => return at_reply(n, 1, Step::Abort(Abort::DbFailure)),
    };
    if found.len() > 0 {
        return at_reply(n, 1, Step::Respond(Reply::SignupUnavailable));
    }
    if *password != *confirm_password {
        return at_reply(n, 1, Step::Respond(Reply::SignupPasswordMismatch));
    }
    let token = issue_token(email.as_str(), username.as_str());
    if n == 1 {
        return Step::Query(DbRequest::InsertUser {
            user: NewUser {
                username: username.clone(),
                email: email.clone(),
                password: password.clone(),
                token,
                created_at: now,
            },
        });
    }
    let s = if h[1].is_done() {
        Step::Respond(Reply::SignupSuccess { token })
    } else {
        Step::Abort(Abort::DbFailure)
    };
    at_reply(n, 2, s)
}

fn request_token(r: &Request) -> (res: Option<&String>)
    ensures
        match res {
            Some(t) => token_of(*r) == Some(*t),
            None => token_of(*r) is None,
        },
{
    match r {
        Request::Index | Request::ChangeProfilePicture | Request::Login { .. } | Request::Signup { .. } => None,
        Request::ListQuestions { token } => Some(token),
        Request::MyQuestions { token } => Some(token),
        Request::GetQuestion { token, .. } => Some(token),
        Request::CreateQuestion { token, .. } => Some(token),
        Request::UpdateQuestion { token, .. } => Some(token),
        Request::DeleteQuestion { token, .. } => Some(token),
        Request::GetAnswers { token, .. } => Some(token),
        Request::SetAnswer { token, .. } => Some(token),
        Request::LikeQuestion { token, .. } => Some(token),
        Request::DislikeQuestion { token, .. } => Some(token),
        Request::UpdateAnswer { token, .. } => Some(token),
        Request::DeleteAnswer { token, .. } => Some(token),
        Request::LikeAnswer { token, .. } => Some(token),
        Request::DislikeAnswer { token, .. } => Some(token),
        Request::ChangePassword { token, .. } => Some(token),
        Request::Logout { token } => Some(token),
        Request::ForgotPassword { token } => Some(token),
    }
}

impl Session {
    /// Starts serving a request that came at `now`: the request's token,
    /// where its endpoint needs one, is checked and its claims read.
    pub fn new(request: Request, now: std::time::SystemTime) -> (s: Session)
        ensures
            s.request == request,
            s.now == now,
            match token_of(request) {
                None => s.claims is None,
                Some(t) => match s.claims {
                    Some(c) => token_claims(t@) == Some(c@),
                    None => token_claims(t@) is None,
                },
            },
    {
        let claims = match request_token(&request) {
            Some(t) => decode_claims(t.as_str()),
            None => None,
        };
        Session { request, claims, now }
    }

    /// A session for a request whose token's claims were already read.
    pub fn from_parts(request: Request, claims: Option<Claims>, now: std::time::SystemTime) -> (s: Session)
        ensures
            s.request == request,
            s.claims == claims,
            s.now == now,
    {
        Session { request, claims, now }
    }

    fn step_with_user(&self, c: &Claims, h: &Vec<DbReply>) -> (step: Step)
        ensures
            step_matches(step, plan_with_user(self.request, *c, self.now, h@)),
    {
        match &self.request {
            Request::ListQuestions { .. } => step_list_questions(h),
            Request::MyQuestions { .. } => step_my_questions(c, h),
            Request::GetQuestion { qid, .. } => step_get_question(qid, h),
            Request::CreateQuestion { question_text, tags, .. } => step_create_question(c, question_text, tags, self.now, h),
            Request::UpdateQuestion { qid, question_text, .. } => step_update_question(c, qid, question_text, h),
            Request::DeleteQuestion { qid, .. } => step_delete_question(c, qid, h),
            Request::GetAnswers { qid, .. } => step_get_answers(qid, h),
            Request::SetAnswer { qid, answer_text, .. } => step_set_answer(c, qid, answer_text, self.now, h),
            Request::LikeQuestion { qid, .. } => step_react(c, qid, true, self.now, h),
            Request::DislikeQuestion { qid, .. } => step_react(c, qid, false, self.now, h),
            Request::UpdateAnswer { qid, answer_text, .. } => step_update_answer(c, qid, answer_text, h),
            Request::DeleteAnswer { qid, .. } => step_delete_answer(c, qid, h),
            Request::LikeAnswer { .. } => step_find_then(c, Reply::LikeAnswerStub, h),
            Request::DislikeAnswer { .. } => step_find_then(c, Reply::DislikeAnswerStub, h),
            Request::ForgotPassword { .. } => step_find_then(c, Reply::ForgotPasswordStub, h),
            Request::ChangePassword { password, new_password, confirm_new_password, .. } =>
                step_change_password(c, password, new_password, confirm_new_password, h),
            Request::Logout { .. } => step_logout(c, h),
            _ => Step::Abort(Abort::OutOfSequence),
        }
    }

    /// The next step of the endpoint, given the database replies to all
    /// its earlier steps, in order.
    pub fn next_step(&self, h: &Vec<DbReply>) -> (step: Step)
        ensures
            step_matches(step, plan(*self, h@)),
            self.request is Login || self.request is Signup ==> issued_tokens_accepted(step),
    {
        let n = h.len();
        match &self.request {
            Request::Index => at_reply(n, 0, Step::Respond(Reply::Welcome)),
            Request::ChangeProfilePicture => at_reply(n, 0, Step::Respond(Reply::ProfilePictureStub)),
            Request::Login { username, password } => step_login(username, password, h),
            Request::Signup { username, password, confirm_password, email } =>
                step_signup(username, password, confirm_password, email, self.now, h),
            _ => match &self.claims {
                None => at_reply(n, 0, Step::Abort(Abort::TokenRejected)),
                Some(c) => {
                    let skips = match &self.request {
                        Request::LikeAnswer { .. } | Request::DislikeAnswer { .. } | Request::ForgotPassword { .. } => true,
                        _ => false,
                    };
                    if !skips && !c.is_valid() {
                        at_reply(n, 0, Step::Respond(Reply::InvalidToken))
                    } else {
                        self.step_with_user(c, h)
                    }
                },
            },
        }
    }
}

} // verus!
