use vstd::prelude::*;

use crate::db::{answers_of, first_user, questions_of, users_of, DbReply, DbRequest};
use crate::number::spec_parse_i32;
use crate::reply::Reply;
use crate::plan::{find_user, plan, skips_validity, token_of, user_token, Plan};
use crate::session::{Abort, Request, Session};

verus! {

/// Whether a step ends the endpoint.
pub open spec fn is_final(p: Plan) -> bool {
    !(p is Ask || p is AskSetToken || p is AskInsertUser || p is AskReaction)
}

/// Whether a step changes the database.
pub open spec fn is_write(p: Plan) -> bool {
    ||| p is AskSetToken
    ||| p is AskInsertUser
    ||| p is AskReaction
    ||| p matches Plan::Ask(q) && (q is InsertQuestion || q is SetQuestionText || q is DeleteQuestion
        || q is InsertAnswer || q is InsertReaction || q is SetAnswerText || q is DeleteAnswer
        || q is SetUserToken || q is InsertUser || q is SetUserPassword)
}

/// Once an endpoint has answered or given up, any further database reply
/// is out of sequence: an endpoint never asks anything after its end.
pub proof fn law_final_steps_are_final(s: Session, h: Seq<DbReply>, r: DbReply)
    requires
        is_final(plan(s, h)),
    ensures
        plan(s, h.push(r)) == Plan::Stop(Abort::OutOfSequence),
{
    let h2 = h.push(r);
    assert(forall|i: int| 0 <= i < h.len() ==> h2[i] == h[i]);
}

/// A request whose token is not genuine is refused before the database is
/// asked anything.
pub proof fn law_rejected_token_asks_nothing(s: Session, h: Seq<DbReply>)
    requires
        token_of(s.request) is Some,
        s.claims is None,
    ensures
        h.len() == 0 ==> plan(s, h) == Plan::Stop(Abort::TokenRejected),
        h.len() > 0 ==> plan(s, h) == Plan::Stop(Abort::OutOfSequence),
{
}

/// A genuine token that was not issued for this service's company is
/// answered "Invalid token" before the database is asked anything, on every
/// endpoint that checks it.
pub proof fn law_invalid_claims_ask_nothing(s: Session, h: Seq<DbReply>)
    requires
        token_of(s.request) is Some,
        !skips_validity(s.request),
        s.claims matches Some(c) && !c@.is_valid(),
    ensures
        h.len() == 0 ==> plan(s, h) == Plan::Answer(Reply::InvalidToken),
        h.len() > 0 ==> plan(s, h) == Plan::Stop(Abort::OutOfSequence),
{
}

/// The endpoints that only read never change the database.
pub proof fn law_readers_never_write(s: Session, h: Seq<DbReply>)
    requires
        s.request is Index || s.request is ChangeProfilePicture || s.request is ListQuestions
            || s.request is MyQuestions || s.request is GetQuestion || s.request is GetAnswers
            || s.request is LikeAnswer || s.request is DislikeAnswer || s.request is ForgotPassword,
    ensures
        !is_write(plan(s, h)),
{
}

/// A question's text is only rewritten for the user that the token names,
/// after the database confirmed that this user asked the question with the
/// id of the request, and it is set to the text of the request.
pub proof fn law_only_owner_edits_question(s: Session, h: Seq<DbReply>, question_id: i32, question_text: String)
    requires
        plan(s, h) == Plan::Ask(DbRequest::SetQuestionText { question_id, question_text }),
    ensures
        s.request matches Request::UpdateQuestion { qid, question_text: text, .. }
            && spec_parse_i32(qid@) == Some(question_id) && question_text == text,
        s.claims matches Some(c) && c@.is_valid() && plan(s, h.take(0)) == Plan::Ask(find_user(c)),
        h.len() == 2,
        first_user(h[0]) matches Some(u)
            && plan(s, h.take(1)) == Plan::Ask(DbRequest::LoadOwnedQuestions { user_id: u.id, question_id }),
        questions_of(h[1]) matches Some(owned) && owned.len() > 0,
{
    assert(h.take(0) =~= Seq::<DbReply>::empty());
    assert(h.take(1) =~= seq![h[0]]);
}

/// A question is only deleted for the user that the token names, after the
/// database confirmed that this user asked the question with the id of the
/// request.
pub proof fn law_only_owner_deletes_question(s: Session, h: Seq<DbReply>, question_id: i32)
    requires
        plan(s, h) == Plan::Ask(DbRequest::DeleteQuestion { question_id }),
    ensures
        s.request matches Request::DeleteQuestion { qid, .. } && spec_parse_i32(qid@) == Some(question_id),
        s.claims matches Some(c) && c@.is_valid() && plan(s, h.take(0)) == Plan::Ask(find_user(c)),
        h.len() == 2,
        first_user(h[0]) matches Some(u)
            && plan(s, h.take(1)) == Plan::Ask(DbRequest::LoadOwnedQuestions { user_id: u.id, question_id }),
        questions_of(h[1]) matches Some(owned) && owned.len() > 0,
{
    assert(h.take(0) =~= Seq::<DbReply>::empty());
    assert(h.take(1) =~= seq![h[0]]);
}

/// An answer's text is only rewritten for the user that the token names,
/// after the database confirmed that this user gave the answer with the id
/// of the request, and it is set to the text of the request.
pub proof fn law_only_owner_edits_answer(s: Session, h: Seq<DbReply>, answer_id: i32, answer_text: String)
    requires
        plan(s, h) == Plan::Ask(DbRequest::SetAnswerText { answer_id, answer_text }),
    ensures
        s.request matches Request::UpdateAnswer { qid, answer_text: text, .. }
            && spec_parse_i32(qid@) == Some(answer_id) && answer_text == text,
        s.claims matches Some(c) && c@.is_valid() && plan(s, h.take(0)) == Plan::Ask(find_user(c)),
        h.len() == 2,
        first_user(h[0]) matches Some(u)
            && plan(s, h.take(1)) == Plan::Ask(DbRequest::LoadOwnedAnswers { user_id: u.id, answer_id }),
        answers_of(h[1]) matches Some(owned) && owned.len() > 0,
{
    assert(h.take(0) =~= Seq::<DbReply>::empty());
    assert(h.take(1) =~= seq![h[0]]);
}

/// An answer is only deleted for the user that the token names, after the
/// database confirmed that this user gave the answer with the id of the
/// request.
pub proof fn law_only_owner_deletes_answer(s: Session, h: Seq<DbReply>, answer_id: i32)
    requires
        plan(s, h) == Plan::Ask(DbRequest::DeleteAnswer { answer_id }),
    ensures
        s.request matches Request::DeleteAnswer { qid, .. } && spec_parse_i32(qid@) == Some(answer_id),
        s.claims matches Some(c) && c@.is_valid() && plan(s, h.take(0)) == Plan::Ask(find_user(c)),
        h.len() == 2,
        first_user(h[0]) matches Some(u)
            && plan(s, h.take(1)) == Plan::Ask(DbRequest::LoadOwnedAnswers { user_id: u.id, answer_id }),
        answers_of(h[1]) matches Some(owned) && owned.len() > 0,
{
    assert(h.take(0) =~= Seq::<DbReply>::empty());
    assert(h.take(1) =~= seq![h[0]]);
}

/// New questions and answers are stamped with the id of the user that the
/// token names, and with the time of the request.
pub proof fn law_new_rows_belong_to_token_user(s: Session, h: Seq<DbReply>)
    requires
        plan(s, h) matches Plan::Ask(q) && (q is InsertQuestion || q is InsertAnswer),
    ensures
        s.claims matches Some(c) && c@.is_valid() && plan(s, h.take(0)) == Plan::Ask(find_user(c)),
        h.len() == 1,
        first_user(h[0]) matches Some(u) && (match plan(s, h) {
            Plan::Ask(DbRequest::InsertQuestion { question }) => question.user_id == u.id && question.created_at == s.now,
            Plan::Ask(DbRequest::InsertAnswer { answer }) => answer.user_id == u.id && answer.created_at == s.now,
            _ => false,
        }),
{
    assert(h.take(0) =~= Seq::<DbReply>::empty());
}

/// A reaction is recorded for the user that the token names.
pub proof fn law_reactions_belong_to_token_user(s: Session, h: Seq<DbReply>)
    requires
        plan(s, h) is AskReaction,
    ensures
        s.claims matches Some(c) && c@.is_valid() && plan(s, h.take(0)) == Plan::Ask(find_user(c)),
        h.len() == 1,
        first_user(h[0]) matches Some(u) && plan(s, h)->AskReaction_user_id == u.id,
{
    assert(h.take(0) =~= Seq::<DbReply>::empty());
}

/// A password is only replaced when the request gives the user's current
/// password and confirms the new one, and it is replaced by the new one.
pub proof fn law_password_change_needs_old_password(s: Session, h: Seq<DbReply>, user_id: i32, password: String)
    requires
        plan(s, h) == Plan::Ask(DbRequest::SetUserPassword { user_id, password }),
    ensures
        s.request matches Request::ChangePassword { password: old, new_password, confirm_new_password, .. }
            && password == new_password && new_password@ == confirm_new_password@
            && h.len() == 1 && (first_user(h[0]) matches Some(u) && u.id == user_id && u.password@ == old@),
        s.claims matches Some(c) && c@.is_valid() && plan(s, h.take(0)) == Plan::Ask(find_user(c)),
{
    assert(h.take(0) =~= Seq::<DbReply>::empty());
}

/// Logging out clears the stored token of the user that the token names.
pub proof fn law_logout_clears_token(s: Session, h: Seq<DbReply>)
    requires
        s.request is Logout,
        plan(s, h) is AskSetToken,
    ensures
        plan(s, h)->AskSetToken_token == Seq::<char>::empty(),
        s.claims matches Some(c) && c@.is_valid() && plan(s, h.take(0)) == Plan::Ask(find_user(c)),
        h.len() == 1,
        first_user(h[0]) matches Some(u) && plan(s, h)->AskSetToken_user_id == u.id,
{
    assert(h.take(0) =~= Seq::<DbReply>::empty());
}

/// Login answers a token only after a user with the request's name and
/// password was found and that very token, issued for that user, was
/// stored for them.
pub proof fn law_login_answers_the_stored_token(s: Session, h: Seq<DbReply>)
    requires
        plan(s, h) matches Plan::AnswerToken { signup, .. } && !signup,
    ensures
        s.request matches Request::Login { username, password } && h.len() == 3
            && (users_of(h[0]) matches Some(found) && found.len() > 0)
            && plan(s, h.take(1)) == Plan::Ask(DbRequest::FindUserByLogin { username, password })
            && (first_user(h[1]) matches Some(u)
                && plan(s, h.take(2)) == (Plan::AskSetToken { user_id: u.id, token: plan(s, h)->AnswerToken_token })
                && plan(s, h)->AnswerToken_token == user_token(u.email@, u.username@)),
{
    assert(h.take(1) =~= seq![h[0]]);
    assert(h.take(2) =~= seq![h[0], h[1]]);
}

/// Signup creates a user only when no user with the request's email and
/// name exists and the password is confirmed; the token answered is the
/// token stored with the new user.
pub proof fn law_signup_answers_the_stored_token(s: Session, h: Seq<DbReply>)
    requires
        plan(s, h) matches Plan::AnswerToken { signup, .. } && signup,
    ensures
        s.request matches Request::Signup { username, password, confirm_password, email } && h.len() == 2
            && users_of(h[0]) == Some(Seq::<crate::models::User>::empty()) && password@ == confirm_password@
            && plan(s, h.take(1)) == (Plan::AskInsertUser {
                username,
                email,
                password,
                token: plan(s, h)->AnswerToken_token,
                created_at: s.now,
            })
            && plan(s, h)->AnswerToken_token == user_token(email@, username@),
{
    assert(h.take(1) =~= seq![h[0]]);
    if let Some(found) = users_of(h[0]) {
        assert(found =~= Seq::<crate::models::User>::empty());
    }
}

/// Every endpoint but the index, the profile-picture stub, login and signup
/// needs a user, and its session reads the claims of the token that its own
/// request carries (the `x-token` header), never another field.
pub proof fn law_user_endpoints_read_their_own_token(r: Request)
    ensures
        token_of(r) is None <==> (r is Index || r is ChangeProfilePicture || r is Login || r is Signup),
        r matches Request::ListQuestions { token } ==> token_of(r) == Some(token),
        r matches Request::MyQuestions { token } ==> token_of(r) == Some(token),
        r matches Request::GetQuestion { token, .. } ==> token_of(r) == Some(token),
        r matches Request::CreateQuestion { token, .. } ==> token_of(r) == Some(token),
        r matches Request::UpdateQuestion { token, .. } ==> token_of(r) == Some(token),
        r matches Request::DeleteQuestion { token, .. } ==> token_of(r) == Some(token),
        r matches Request::GetAnswers { token, .. } ==> token_of(r) == Some(token),
        r matches Request::SetAnswer { token, .. } ==> token_of(r) == Some(token),
        r matches Request::LikeQuestion { token, .. } ==> token_of(r) == Some(token),
        r matches Request::DislikeQuestion { token, .. } ==> token_of(r) == Some(token),
        r matches Request::UpdateAnswer { token, .. } ==> token_of(r) == Some(token),
        r matches Request::DeleteAnswer { token, .. } ==> token_of(r) == Some(token),
        r matches Request::LikeAnswer { token, .. } ==> token_of(r) == Some(token),
        r matches Request::DislikeAnswer { token, .. } ==> token_of(r) == Some(token),
        r matches Request::ChangePassword { token, .. } ==> token_of(r) == Some(token),
        r matches Request::Logout { token } ==> token_of(r) == Some(token),
        r matches Request::ForgotPassword { token } ==> token_of(r) == Some(token),
{
}

} // verus!
