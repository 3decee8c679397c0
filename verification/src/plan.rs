use vstd::prelude::*;

use crate::claims::{hs256_token, token_claims, Claims, COMPANY, SECRET_KEY};
use crate::db::{answers_of, first_answer, first_question, first_user, questions_of, users_of, DbReply, DbRequest};
use crate::models::{answer_rows, question_row, question_rows, AnswerRow, NewAnswer, NewQuestion, QuestionRow};
use crate::number::spec_parse_i32;
use crate::reply::Reply;
use crate::session::{Abort, Request, Session, Step};

verus! {

/// The raw token that a request carries, if its endpoint needs a user.
pub open spec fn token_of(r: Request) -> Option<String> {
    match r {
        Request::Index | Request::ChangeProfilePicture | Request::Login { .. } | Request::Signup { .. } => None,
        Request::ListQuestions { token } => Some(token),
        Request::MyQuestions { token } => Some(token),
        Request::GetQuestion { token, .. } => Some(token),
        Request::CreateQuestion { token, .. } => Some(token),
        Request::UpdateQuestion { token, .. } => Some(token),
        Request::DeleteQuestion { token, .. } => Some(token),
        Request::GetAnswers { token, .. } => Some(token),
        Request::SetAnswer { token, .. } => Some(token),
        Request::LikeQuestion { token, .. } => Some(token),
        Request::DislikeQuestion { token, .. } => Some(token),
        Request::UpdateAnswer { token, .. } => Some(token),
        Request::DeleteAnswer { token, .. } => Some(token),
        Request::LikeAnswer { token, .. } => Some(token),
        Request::DislikeAnswer { token, .. } => Some(token),
        Request::ChangePassword { token, .. } => Some(token),
        Request::Logout { token } => Some(token),
        Request::ForgotPassword { token } => Some(token),
    }
}

/// The endpoints that need a user but do not check that the token was
/// issued by this service's company.
pub open spec fn skips_validity(r: Request) -> bool {
    r is LikeAnswer || r is DislikeAnswer || r is ForgotPassword
}

/// What the next step of an endpoint must be. Where a plan holds a text
/// that the library computes, it holds the text's characters.
pub enum Plan {
    Ask(DbRequest),
    AskSetToken { user_id: i32, token: Seq<char> },
    AskInsertUser { username: String, email: String, password: String, token: Seq<char>, created_at: std::time::SystemTime },
    AskReaction { object_id: i32, user_id: i32, like: bool, created_at: std::time::SystemTime },
    Answer(Reply),
    AnswerToken { signup: bool, token: Seq<char> },
    AnswerQuestions(Seq<QuestionRow>),
    AnswerAnswers(Seq<AnswerRow>),
    AnswerReacted { object_id: i32, like: bool },
    Stop(Abort),
}

/// The name of a reaction.
pub open spec fn reaction_name(like: bool) -> Seq<char> {
    if like { "like"@ } else { "dislike"@ }
}

/// Whether a step carries out a plan.
pub open spec fn step_matches(step: Step, p: Plan) -> bool {
    match p {
        Plan::Ask(q) => step == Step::Query(q),
        Plan::AskSetToken { user_id, token } => step matches Step::Query(DbRequest::SetUserToken { user_id: u, token: t })
            && u == user_id && t@ == token,
        Plan::AskInsertUser { username, email, password, token, created_at } =>
            step matches Step::Query(DbRequest::InsertUser { user }) && user.username == username && user.email == email
                && user.password == password && user.token@ == token && user.created_at == created_at,
        Plan::AskReaction { object_id, user_id, like, created_at } =>
            step matches Step::Query(DbRequest::InsertReaction { reaction }) && reaction.object_type@ == "question"@
                && reaction.object_id == object_id && reaction.reaction_type@ == reaction_name(like)
                && reaction.user_id == user_id && reaction.created_at == created_at,
        Plan::Answer(r) => step == Step::Respond(r),
        Plan::AnswerToken { signup, token } => if signup {
            step matches Step::Respond(Reply::SignupSuccess { token: t }) && t@ == token
        } else {
            step matches Step::Respond(Reply::LoginSuccess { token: t }) && t@ == token
        },
        Plan::AnswerQuestions(rows) => step matches Step::Respond(Reply::QuestionList(v)) && v@ == rows,
        Plan::AnswerAnswers(rows) => step matches Step::Respond(Reply::AnswerList(v)) && v@ == rows,
        Plan::AnswerReacted { object_id, like } => step matches Step::Respond(
            Reply::Reacted { object_type, object_id: o, reaction_type },
        ) && object_type@ == "question"@ && o == object_id && reaction_type@ == reaction_name(like),
        Plan::Stop(a) => step == Step::Abort(a),
    }
}

/// `p` when the endpoint has had `k` replies; any further reply is out of sequence.
pub open spec fn at(h: Seq<DbReply>, k: int, p: Plan) -> Plan {
    if h.len() == k { p } else { Plan::Stop(Abort::OutOfSequence) }
}

/// Looks up the user that the claims name.
pub open spec fn find_user(c: Claims) -> DbRequest {
    DbRequest::FindUser { username: c.username, email: c.sub }
}

/// The token issued to a user.
pub open spec fn user_token(email: Seq<char>, username: Seq<char>) -> Seq<char> {
    hs256_token(email, username, COMPANY@, SECRET_KEY@)
}

/// A token that this service accepts: genuine, and issued for its company.
pub open spec fn accepted_token(t: Seq<char>) -> bool {
    token_claims(t) matches Some(c) && c.is_valid()
}

/// Every token that a step stores for a user or answers is accepted.
pub open spec fn issued_tokens_accepted(step: Step) -> bool {
    match step {
        Step::Query(DbRequest::SetUserToken { token, .. }) => accepted_token(token@),
        Step::Query(DbRequest::InsertUser { user }) => accepted_token(user.token@),
        Step::Respond(Reply::LoginSuccess { token }) => accepted_token(token@),
        Step::Respond(Reply::SignupSuccess { token }) => accepted_token(token@),
        _ => true,
    }
}

/// `GET /question`: all questions.
pub open spec fn plan_list_questions(h: Seq<DbReply>) -> Plan {
    if h.len() == 0 {
        Plan::Ask(DbRequest::LoadQuestions)
    } else {
        match questions_of(h[0]) {
            Some(qs) => at(h, 1, Plan::AnswerQuestions(question_rows(qs))),
            None => at(h, 1, Plan::Stop(Abort::DbFailure)),
        }
    }
}

/// `GET /question/my`: the questions of the token's user.
pub open spec fn plan_my_questions(c: Claims, h: Seq<DbReply>) -> Plan {
    if h.len() == 0 {
        Plan::Ask(find_user(c))
    } else {
        match first_user(h[0]) {
            None => at(h, 1, Plan::Stop(Abort::DbFailure)),
            Some(u) => if h.len() == 1 {
                Plan::Ask(DbRequest::LoadQuestionsOfUser { user_id: u.id })
            } else {
                match questions_of(h[1]) {
                    Some(qs) => at(h, 2, Plan::AnswerQuestions(question_rows(qs))),
                    None => at(h, 2, Plan::Stop(Abort::DbFailure)),
                }
            },
        }
    }
}

/// `GET /question/<qid>`: one question.
pub open spec fn plan_get_question(qid: String, h: Seq<DbReply>) -> Plan {
    match spec_parse_i32(qid@) {
        None => at(h, 0, Plan::Stop(Abort::BadId)),
        Some(id) => if h.len() == 0 {
            Plan::Ask(DbRequest::FindQuestion { question_id: id })
        } else {
            match first_question(h[0]) {
                Some(q) => at(h, 1, Plan::Answer(Reply::QuestionDetail { qid, row: question_row(q) })),
                None => at(h, 1, Plan::Stop(Abort::DbFailure)),
            }
        },
    }
}

/// `POST /question`: a new question by the token's user.
pub open spec fn plan_create_question(
    c: Claims,
    question_text: String,
    tags: String,
    now: std::time::SystemTime,
    h: Seq<DbReply>,
) -> Plan {
    if h.len() == 0 {
        Plan::Ask(find_user(c))
    } else {
        match first_user(h[0]) {
            None => at(h, 1, Plan::Stop(Abort::DbFailure)),
            Some(u) => if h.len() == 1 {
                Plan::Ask(DbRequest::InsertQuestion {
                    question: NewQuestion { question_text, tags, created_at: now, user_id: u.id },
                })
            } else if h[1] is Done {
                at(h, 2, Plan::Answer(Reply::QuestionCreated { question_text, tags }))
            } else {
                at(h, 2, Plan::Stop(Abort::DbFailure))
            },
        }
    }
}

/// `PUT /question/<qid>`: the token's user rewrites one of their questions.
pub open spec fn plan_update_question(c: Claims, qid: String, question_text: String, h: Seq<DbReply>) -> Plan {
    if h.len() == 0 {
        Plan::Ask(find_user(c))
    } else {
        match first_user(h[0]) {
            None => at(h, 1, Plan::Stop(Abort::DbFailure)),
            Some(u) => match spec_parse_i32(qid@) {
                None => at(h, 1, Plan::Stop(Abort::BadId)),
                Some(id) => if h.len() == 1 {
                    Plan::Ask(DbRequest::LoadOwnedQuestions { user_id: u.id, question_id: id })
                } else {
                    match questions_of(h[1]) {
                        None => at(h, 2, Plan::Stop(Abort::DbFailure)),
                        Some(owned) => if owned.len() == 0 {
                            at(h, 2, Plan::Answer(Reply::QuestionEditDenied))
                        } else if h.len() == 2 {
                            Plan::Ask(DbRequest::SetQuestionText { question_id: id, question_text })
                        } else {
                            match first_question(h[2]) {
                                Some(q) => at(h, 3, Plan::Answer(
                                    Reply::QuestionUpdated { question_text: q.question_text, tags: q.tags },
                                )),
                                None => at(h, 3, Plan::Stop(Abort::DbFailure)),
                            }
                        },
                    }
                },
            },
        }
    }
}

/// `DELETE /question/<qid>`: the token's user deletes one of their questions.
pub open spec fn plan_delete_question(c: Claims, qid: String, h: Seq<DbReply>) -> Plan {
    if h.len() == 0 {
        Plan::Ask(find_user(c))
    } else {
        match first_user(h[0]) {
            None => at(h, 1, Plan::Stop(Abort::DbFailure)),
            Some(u) => match spec_parse_i32(qid@) {
                None => at(h, 1, Plan::Stop(Abort::BadId)),
                Some(id) => if h.len() == 1 {
                    Plan::Ask(DbRequest::LoadOwnedQuestions { user_id: u.id, question_id: id })
                } else {
                    match questions_of(h[1]) {
                        None => at(h, 2, Plan::Stop(Abort::DbFailure)),
                        Some(owned) => if owned.len() == 0 {
                            at(h, 2, Plan::Answer(Reply::QuestionDeleteDenied))
                        } else if h.len() == 2 {
                            Plan::Ask(DbRequest::DeleteQuestion { question_id: id })
                        } else if h[2] is Done {
                            at(h, 3, Plan::Answer(Reply::QuestionDeleted { qid }))
                        } else {
                            at(h, 3, Plan::Stop(Abort::DbFailure))
                        },
                    }
                },
            },
        }
    }
}

/// `GET /question/<qid>/answer`: the answers to a question.
pub open spec fn plan_get_answers(qid: String, h: Seq<DbReply>) -> Plan {
    match spec_parse_i32(qid@) {
        None => at(h, 0, Plan::Stop(Abort::BadId)),
        Some(id) => if h.len() == 0 {
            Plan::Ask(DbRequest::LoadAnswersOfQuestion { question_id: id })
        } else {
            match answers_of(h[0]) {
                Some(answers) => at(h, 1, Plan::AnswerAnswers(answer_rows(answers))),
                None => at(h, 1, Plan::Stop(Abort::DbFailure)),
            }
        },
    }
}

/// `POST /question/<qid>/answer`: the token's user answers a question.
pub open spec fn plan_set_answer(
    c: Claims,
    qid: String,
    answer_text: String,
    now: std::time::SystemTime,
    h: Seq<DbReply>,
) -> Plan {
    match spec_parse_i32(qid@) {
        None => at(h, 0, Plan::Stop(Abort::BadId)),
        Some(id) => if h.len() == 0 {
            Plan::Ask(find_user(c))
        } else {
            match first_user(h[0]) {
                None => at(h, 1, Plan::Stop(Abort::DbFailure)),
                Some(u) => if h.len() == 1 {
                    Plan::Ask(DbRequest::InsertAnswer {
                        answer: NewAnswer { answer_text, question_id: id, user_id: u.id, created_at: now },
                    })
                } else if h[1] is Done {
                    at(h, 2, Plan::Answer(Reply::AnswerCreated { answer_text, question_id: id }))
                } else {
                    at(h, 2, Plan::Stop(Abort::DbFailure))
                },
            }
        },
    }
}

/// `POST /question/<qid>/like` and `/dislike`: the token's user reacts to a question.
pub open spec fn plan_react(c: Claims, qid: String, like: bool, now: std::time::SystemTime, h: Seq<DbReply>) -> Plan {
    match spec_parse_i32(qid@) {
        None => at(h, 0, Plan::Stop(Abort::BadId)),
        Some(id) => if h.len() == 0 {
            Plan::Ask(find_user(c))
        } else {
            match first_user(h[0]) {
                None => at(h, 1, Plan::Stop(Abort::DbFailure)),
                Some(u) => if h.len() == 1 {
                    Plan::AskReaction { object_id: id, user_id: u.id, like, created_at: now }
                } else if h[1] is Done {
                    at(h, 2, Plan::AnswerReacted { object_id: id, like })
                } else {
                    at(h, 2, Plan::Stop(Abort::DbFailure))
                },
            }
        },
    }
}

/// `PUT /answer/<qid>`: the token's user rewrites one of their answers.
pub open spec fn plan_update_answer(c: Claims, qid: String, answer_text: String, h: Seq<DbReply>) -> Plan {
    if h.len() == 0 {
        Plan::Ask(find_user(c))
    } else {
        match first_user(h[0]) {
            None => at(h, 1, Plan::Stop(Abort::DbFailure)),
            Some(u) => match spec_parse_i32(qid@) {
                None => at(h, 1, Plan::Stop(Abort::BadId)),
                Some(id) => if h.len() == 1 {
                    Plan::Ask(DbRequest::LoadOwnedAnswers { user_id: u.id, answer_id: id })
                } else {
                    match answers_of(h[1]) {
                        None => at(h, 2, Plan::Stop(Abort::DbFailure)),
                        Some(owned) => if owned.len() == 0 {
                            at(h, 2, Plan::Answer(Reply::AnswerEditDenied))
                        } else if h.len() == 2 {
                            Plan::Ask(DbRequest::SetAnswerText { answer_id: id, answer_text })
                        } else {
                            match first_answer(h[2]) {
                                Some(a) => at(h, 3, Plan::Answer(Reply::AnswerUpdated { answer_text: a.answer_text })),
                                None => at(h, 3, Plan::Stop(Abort::DbFailure)),
                            }
                        },
                    }
                },
            },
        }
    }
}

/// `DELETE /answer/<qid>`: the token's user deletes one of their answers.
pub open spec fn plan_delete_answer(c: Claims, qid: String, h: Seq<DbReply>) -> Plan {
    if h.len() == 0 {
        Plan::Ask(find_user(c))
    } else {
        match first_user(h[0]) {
            None => at(h, 1, Plan::Stop(Abort::DbFailure)),
            Some(u) => match spec_parse_i32(qid@) {
                None => at(h, 1, Plan::Stop(Abort::BadId)),
                Some(id) => if h.len() == 1 {
                    Plan::Ask(DbRequest::LoadOwnedAnswers { user_id: u.id, answer_id: id })
                } else {
                    match answers_of(h[1]) {
                        None => at(h, 2, Plan::Stop(Abort::DbFailure)),
                        Some(owned) => if owned.len() == 0 {
                            at(h, 2, Plan::Answer(Reply::AnswerDeleteDenied))
                        } else if h.len() == 2 {
                            Plan::Ask(DbRequest::DeleteAnswer { answer_id: id })
                        } else if h[2] is Done {
                            at(h, 3, Plan::Answer(Reply::AnswerDeleted { qid }))
                        } else {
                            at(h, 3, Plan::Stop(Abort::DbFailure))
                        },
                    }
                },
            },
        }
    }
}

/// Endpoints that only look the token's user up, then answer `r`.
pub open spec fn plan_find_then(c: Claims, r: Reply, h: Seq<DbReply>) -> Plan {
    if h.len() == 0 {
        Plan::Ask(find_user(c))
    } else {
        match first_user(h[0]) {
            Some(_) => at(h, 1, Plan::Answer(r)),
            None => at(h, 1, Plan::Stop(Abort::DbFailure)),
        }
    }
}

/// `POST /change_password`: the token's user replaces their password.
pub open spec fn plan_change_password(
    c: Claims,
    password: String,
    new_password: String,
    confirm_new_password: String,
    h: Seq<DbReply>,
) -> Plan {
    if h.len() == 0 {
        Plan::Ask(find_user(c))
    } else {
        match first_user(h[0]) {
            None => at(h, 1, Plan::Stop(Abort::DbFailure)),
            Some(u) => if u.password@ != password@ {
                at(h, 1, Plan::Answer(Reply::InvalidAccount))
            } else if new_password@ != confirm_new_password@ {
                at(h, 1, Plan::Answer(Reply::NewPasswordMismatch))
            } else if h.len() == 1 {
                Plan::Ask(DbRequest::SetUserPassword { user_id: u.id, password: new_password })
            } else {
                match first_user(h[1]) {
                    Some(_) => at(h, 2, Plan::Answer(Reply::PasswordChanged)),
                    None => at(h, 2, Plan::Stop(Abort::DbFailure)),
                }
            },
        }
    }
}

/// `GET /logout`: the token's user's stored token is cleared.
pub open spec fn plan_logout(c: Claims, h: Seq<DbReply>) -> Plan {
    if h.len() == 0 {
        Plan::Ask(find_user(c))
    } else {
        match first_user(h[0]) {
            None => at(h, 1, Plan::Stop(Abort::DbFailure)),
            Some(u) => if h.len() == 1 {
                Plan::AskSetToken { user_id: u.id, token: Seq::empty() }
            } else {
                match first_user(h[1]) {
                    Some(_) => at(h, 2, Plan::Answer(Reply::LogoutSuccess)),
                    None => at(h, 2, Plan::Stop(Abort::DbFailure)),
                }
            },
        }
    }
}

/// `POST /login`: a user with this name and password gets a new token,
/// which is stored and answered.
pub open spec fn plan_login(username: String, password: String, h: Seq<DbReply>) -> Plan {
    if h.len() == 0 {
        Plan::Ask(DbRequest::LoadUsersByLogin { username, password })
    } else {
        match users_of(h[0]) {
            None => at(h, 1, Plan::Stop(Abort::DbFailure)),
            Some(found) => if found.len() == 0 {
                at(h, 1, Plan::Answer(Reply::LoginFailed))
            } else if h.len() == 1 {
                Plan::Ask(DbRequest::FindUserByLogin { username, password })
            } else {
                match first_user(h[1]) {
                    None => at(h, 2, Plan::Stop(Abort::DbFailure)),
                    Some(u) => if h.len() == 2 {
                        Plan::AskSetToken { user_id: u.id, token: user_token(u.email@, u.username@) }
                    } else {
                        match first_user(h[2]) {
                            Some(_) => at(h, 3, Plan::AnswerToken { signup: false, token: user_token(u.email@, u.username@) }),
                            None => at(h, 3, Plan::Stop(Abort::DbFailure)),
                        }
                    },
                }
            },
        }
    }
}

/// `POST /signup`: a new user, unless one with this email and name exists
/// or the password is not confirmed; the new user's token is answered.
pub open spec fn plan_signup(
    username: String,
    password: String,
    confirm_password: String,
    email: String,
    now: std::time::SystemTime,
    h: Seq<DbReply>,
) -> Plan {
    if h.len() == 0 {
        Plan::Ask(DbRequest::LoadUsersByAccount { email, username })
    } else {
        match users_of(h[0]) {
            None => at(h, 1, Plan::Stop(Abort::DbFailure)),
            Some(found) => if found.len() > 0 {
                at(h, 1, Plan::Answer(Reply::SignupUnavailable))
            } else if password@ != confirm_password@ {
                at(h, 1, Plan::Answer(Reply::SignupPasswordMismatch))
            } else if h.len() == 1 {
                Plan::AskInsertUser { username, email, password, token: user_token(email@, username@), created_at: now }
            } else if h[1] is Done {
                at(h, 2, Plan::AnswerToken { signup: true, token: user_token(email@, username@) })
            } else {
                at(h, 2, Plan::Stop(Abort::DbFailure))
            },
        }
    }
}

/// The endpoints that need a user, once the token's claims are accepted.
pub open spec fn plan_with_user(r: Request, c: Claims, now: std::time::SystemTime, h: Seq<DbReply>) -> Plan {
    match r {
        Request::ListQuestions { .. } => plan_list_questions(h),
        Request::MyQuestions { .. } => plan_my_questions(c, h),
        Request::GetQuestion { qid, .. } => plan_get_question(qid, h),
        Request::CreateQuestion { question_text, tags, .. } => plan_create_question(c, question_text, tags, now, h),
        Request::UpdateQuestion { qid, question_text, .. } => plan_update_question(c, qid, question_text, h),
        Request::DeleteQuestion { qid, .. } => plan_delete_question(c, qid, h),
        Request::GetAnswers { qid, .. } => plan_get_answers(qid, h),
        Request::SetAnswer { qid, answer_text, .. } => plan_set_answer(c, qid, answer_text, now, h),
        Request::LikeQuestion { qid, .. } => plan_react(c, qid, true, now, h),
        Request::DislikeQuestion { qid, .. } => plan_react(c, qid, false, now, h),
        Request::UpdateAnswer { qid, answer_text, .. } => plan_update_answer(c, qid, answer_text, h),
        Request::DeleteAnswer { qid, .. } => plan_delete_answer(c, qid, h),
        Request::LikeAnswer { .. } => plan_find_then(c, Reply::LikeAnswerStub, h),
        Request::DislikeAnswer { .. } => plan_find_then(c, Reply::DislikeAnswerStub, h),
        Request::ForgotPassword { .. } => plan_find_then(c, Reply::ForgotPasswordStub, h),
        Request::ChangePassword { password, new_password, confirm_new_password, .. } =>
            plan_change_password(c, password, new_password, confirm_new_password, h),
        Request::Logout { .. } => plan_logout(c, h),
        _ => Plan::Stop(Abort::OutOfSequence),
    }
}

/// The next step of a session that has had the database replies `h`.
pub open spec fn plan(s: Session, h: Seq<DbReply>) -> Plan {
    match s.request {
        Request::Index => at(h, 0, Plan::Answer(Reply::Welcome)),
        Request::ChangeProfilePicture => at(h, 0, Plan::Answer(Reply::ProfilePictureStub)),
        Request::Login { username, password } => plan_login(username, password, h),
        Request::Signup { username, password, confirm_password, email } =>
            plan_signup(username, password, confirm_password, email, s.now, h),
        _ => match s.claims {
            None => at(h, 0, Plan::Stop(Abort::TokenRejected)),
            Some(c) => if !skips_validity(s.request) && !c@.is_valid() {
                at(h, 0, Plan::Answer(Reply::InvalidToken))
            } else {
                plan_with_user(s.request, c, s.now, h)
            },
        },
    }
}

} // verus!
