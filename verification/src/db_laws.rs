use vstd::prelude::*;

use crate::db::{answers_of, first_answer, first_question, first_user, questions_of, users_of, DbReply, DbRequest};
use crate::model::{
    answer_record, answers_to, by_account, by_login, first_of, question_record, questions_of_user, AnswerRecord, lemma_filter_empty, lemma_filter_push, user_record, user_with_id, set_token, set_password, with_token, owned_question, performs, question_with_id, question_without_id, runs, set_question_text, DbState, QuestionRecord,
    ReactionRecord, UserRecord, answer_with_id, answer_without_id, owned_answer, set_answer_text,
};
use crate::laws::is_final;
use crate::models::{answer_rows, question_rows, Answer, AnswerRow, Question, QuestionRow, User};
use crate::reply::Reply;
use crate::number::spec_parse_i32;
use crate::plan::{find_user, reaction_name, user_token, Plan};
use crate::plan::plan;
use crate::session::{Request, Session};

verus! {

/// No two users share both name and email.
pub open spec fn accounts_unique(users: Seq<UserRecord>) -> bool {
    forall|i: int, j: int|
        0 <= i < j < users.len() ==> !(#[trigger] users[i].username == #[trigger] users[j].username
            && users[i].email == users[j].email)
}

/// The step a run took at `i`.
proof fn lemma_step(s: Session, h: Seq<DbReply>, dbs: Seq<DbState>, i: int)
    requires
        runs(s, h, dbs),
        0 <= i < h.len(),
    ensures
        performs(dbs[i], plan(s, h.take(i)), h[i], dbs[i + 1]),
{
}

/// Signup keeps the accounts unique: no two users share name and email.
pub proof fn law_signup_keeps_accounts_unique(s: Session, h: Seq<DbReply>, dbs: Seq<DbState>)
    requires
        s.request is Signup,
        runs(s, h, dbs),
        accounts_unique(dbs[0].users),
    ensures
        accounts_unique(dbs[h.len() as int].users),
{
    if h.len() >= 1 {
        lemma_step(s, h, dbs, 0);
        assert(h.take(0) =~= Seq::<DbReply>::empty());
        assert(dbs[1] == dbs[0]);
    }
    if h.len() >= 2 {
        lemma_step(s, h, dbs, 1);
        let h1 = h.take(1);
        assert(h1[0] == h[0]);
        let username = s.request->Signup_username;
        let password = s.request->Signup_password;
        let email = s.request->Signup_email;
        let found = users_of(h[0])->0;
        assert(found.len() == 0);
        let p = by_account(username@, email@);
        assert(dbs[0].users.filter(p).len() == 0);
        let old = dbs[1].users;
        let new = dbs[2].users;
        assert(new.len() == old.len() + 1);
        assert(forall|i: int| 0 <= i < old.len() ==> new[i] == old[i]);
        assert(new[old.len() as int].username == username@ && new[old.len() as int].email == email@);
        assert forall|i: int, j: int| 0 <= i < j < new.len() implies !(#[trigger] new[i].username == #[trigger] new[j].username
            && new[i].email == new[j].email) by {
            if j == old.len() {
                lemma_filter_empty(old, p, i);
            } else {
                assert(new[i] == old[i] && new[j] == old[j]);
            }
        }
    }
    if h.len() >= 3 {
        lemma_step(s, h, dbs, 2);
        let h2 = h.take(2);
        assert(h2[0] == h[0] && h2[1] == h[1]);
    }
}

/// A like or dislike that is answered records exactly one reaction, by the
/// user that the token names, on the question of the request, and changes
/// nothing else: a repeated like is recorded again.
pub proof fn law_reaction_recorded_once(s: Session, h: Seq<DbReply>, dbs: Seq<DbState>)
    requires
        s.request is LikeQuestion || s.request is DislikeQuestion,
        runs(s, h, dbs),
        plan(s, h) is AnswerReacted,
    ensures
        h.len() == 2,
        first_user(h[0]) is Some,
        dbs[2] == (DbState {
            reactions: dbs[0].reactions.push(ReactionRecord {
                object_type: "question"@,
                object_id: plan(s, h)->AnswerReacted_object_id,
                reaction_type: reaction_name(s.request is LikeQuestion),
                user_id: first_user(h[0])->0.id,
                created_at: s.now,
            }),
            ..dbs[0]
        }),
        s.request matches Request::LikeQuestion { qid, .. } ==> spec_parse_i32(qid@) == Some(plan(s, h)->AnswerReacted_object_id),
        s.request matches Request::DislikeQuestion { qid, .. } ==> spec_parse_i32(qid@) == Some(plan(s, h)->AnswerReacted_object_id),
        plan(s, h)->AnswerReacted_like == (s.request is LikeQuestion),
        reaction_name(plan(s, h)->AnswerReacted_like) == dbs[2].reactions.last().reaction_type,
{
    lemma_step(s, h, dbs, 0);
    assert(h.take(0) =~= Seq::<DbReply>::empty());
    lemma_step(s, h, dbs, 1);
    let h1 = h.take(1);
    assert(h1[0] == h[0]);
}

/// Two answered likes (or dislikes) in a row add two reactions.
pub proof fn law_repeated_reactions_add_up(
    s1: Session,
    h1: Seq<DbReply>,
    dbs1: Seq<DbState>,
    s2: Session,
    h2: Seq<DbReply>,
    dbs2: Seq<DbState>,
)
    requires
        s1.request is LikeQuestion || s1.request is DislikeQuestion,
        s2.request is LikeQuestion || s2.request is DislikeQuestion,
        runs(s1, h1, dbs1),
        runs(s2, h2, dbs2),
        dbs2[0] == dbs1[h1.len() as int],
        plan(s1, h1) is AnswerReacted,
        plan(s2, h2) is AnswerReacted,
    ensures
        dbs2[h2.len() as int].reactions.len() == dbs1[0].reactions.len() + 2,
{
    law_reaction_recorded_once(s1, h1, dbs1);
    law_reaction_recorded_once(s2, h2, dbs2);
}

/// After the rows without id `id` are kept, none with that id is left.
proof fn lemma_deleted_rows_gone(qs: Seq<QuestionRecord>, user_id: i32, id: i32)
    ensures
        qs.filter(question_without_id(id)).filter(owned_question(user_id, id)).len() == 0,
{
    let kept = qs.filter(question_without_id(id));
    let found = kept.filter(owned_question(user_id, id));
    if found.len() > 0 {
        kept.lemma_filter_pred(owned_question(user_id, id), 0);
        let x = found[0];
        assert(found.contains(x));
        kept.lemma_filter_contains_rev(owned_question(user_id, id), x);
        let k = choose|k: int| 0 <= k < kept.len() && kept[k] == x;
        qs.lemma_filter_pred(question_without_id(id), k);
    }
}

/// Once a question has been deleted, deleting it again with the same
/// request and token is refused as unauthorized and changes nothing.
pub proof fn law_second_delete_is_denied(
    s1: Session,
    h1: Seq<DbReply>,
    dbs1: Seq<DbState>,
    s2: Session,
    h2: Seq<DbReply>,
    dbs2: Seq<DbState>,
)
    requires
        s1.request is DeleteQuestion,
        s2.request == s1.request,
        s2.claims == s1.claims,
        runs(s1, h1, dbs1),
        runs(s2, h2, dbs2),
        dbs2[0] == dbs1[h1.len() as int],
        plan(s1, h1) matches Plan::Answer(Reply::QuestionDeleted { .. }),
        is_final(plan(s2, h2)),
    ensures
        plan(s2, h2) == Plan::Answer(Reply::QuestionDeleteDenied),
        dbs2[h2.len() as int] == dbs2[0],
{
    // The first session found the user, then deleted every question with the id.
    lemma_step(s1, h1, dbs1, 0);
    assert(h1.take(0) =~= Seq::<DbReply>::empty());
    lemma_step(s1, h1, dbs1, 1);
    assert(h1.take(1)[0] == h1[0]);
    lemma_step(s1, h1, dbs1, 2);
    let t2 = h1.take(2);
    assert(t2[0] == h1[0] && t2[1] == h1[1]);
    let id = plan(s1, t2)->Ask_0->DeleteQuestion_question_id;
    assert(h1.len() == 3) by {
        if h1.len() > 3 {
            lemma_step(s1, h1, dbs1, 3);
            let t3 = h1.take(3);
            assert(t3[0] == h1[0] && t3[1] == h1[1] && t3[2] == h1[2]);
        }
    }
    assert(dbs2[0].users == dbs1[0].users);
    let u1 = first_user(h1[0])->0;
    assert(users_of(h1[0])->0.len() > 0);
    // The second session finds the same user, and no question of theirs with the id.
    assert(plan(s2, h2.take(0)) is Ask);
    assert(h2.take(0) =~= Seq::<DbReply>::empty());
    assert(h2.len() >= 1) by {
        if h2.len() == 0 {
            assert(h2 =~= h2.take(0));
        }
    }
    lemma_step(s2, h2, dbs2, 0);
    assert(plan(s1, h1.take(0)) == plan(s2, h2.take(0)));
    let c = s1.claims->0;
    let rows = first_of(dbs1[0].users.filter(by_account(c.username@, c.sub@)));
    let v1 = users_of(h1[0])->0;
    let v2 = users_of(h2[0])->0;
    let m1 = v1.map_values(|u: User| user_record(u));
    let m2 = v2.map_values(|u: User| user_record(u));
    assert(m1 == rows);
    assert(m2 == rows);
    assert(m1.len() == v1.len() && m2.len() == v2.len());
    assert(v2.len() == v1.len());
    let u2 = first_user(h2[0])->0;
    let q2 = h2.take(1);
    assert(q2[0] == h2[0]);
    assert(h2.len() >= 2) by {
        if h2.len() == 1 {
            assert(h2 =~= q2);
        }
    }
    lemma_step(s2, h2, dbs2, 1);
    lemma_deleted_rows_gone(dbs1[2].questions, u2.id, id);
    let q3 = h2.take(2);
    assert(q3[0] == h2[0] && q3[1] == h2[1]);
    if h2.len() >= 3 {
        lemma_step(s2, h2, dbs2, 2);
    }
    assert(h2 =~= q3);
}

/// Setting a question's text twice is setting it once.
proof fn lemma_set_question_text_twice(qs: Seq<QuestionRecord>, id: i32, text: Seq<char>)
    ensures
        set_question_text(set_question_text(qs, id, text), id, text) == set_question_text(qs, id, text),
{
    assert(set_question_text(set_question_text(qs, id, text), id, text) =~= set_question_text(qs, id, text));
}

/// A question that a user owns is still theirs after its text is set.
proof fn lemma_owned_question_kept(qs: Seq<QuestionRecord>, user_id: i32, id: i32, text: Seq<char>)
    requires
        qs.filter(owned_question(user_id, id)).len() > 0,
    ensures
        set_question_text(qs, id, text).filter(owned_question(user_id, id)).len() > 0,
{
    let p = owned_question(user_id, id);
    qs.lemma_filter_pred(p, 0);
    let x = qs.filter(p)[0];
    assert(qs.filter(p).contains(x));
    qs.lemma_filter_contains_rev(p, x);
    let k = choose|k: int| 0 <= k < qs.len() && qs[k] == x;
    let qs2 = set_question_text(qs, id, text);
    qs2.lemma_filter_contains(p, k);
}

/// Updating a question is idempotent: once an update has been answered,
/// the same request with the same token answers the same text and tags
/// again and leaves the database as it was.
pub proof fn law_update_question_is_idempotent(
    s1: Session,
    h1: Seq<DbReply>,
    dbs1: Seq<DbState>,
    s2: Session,
    h2: Seq<DbReply>,
    dbs2: Seq<DbState>,
)
    requires
        s1.request is UpdateQuestion,
        s2.request == s1.request,
        s2.claims == s1.claims,
        runs(s1, h1, dbs1),
        runs(s2, h2, dbs2),
        dbs2[0] == dbs1[h1.len() as int],
        plan(s1, h1) matches Plan::Answer(Reply::QuestionUpdated { .. }),
        is_final(plan(s2, h2)),
    ensures
        plan(s2, h2) matches Plan::Answer(Reply::QuestionUpdated { question_text, tags })
            && question_text@ == plan(s1, h1)->Answer_0->QuestionUpdated_question_text@
            && tags@ == plan(s1, h1)->Answer_0->QuestionUpdated_tags@,
        dbs2[h2.len() as int] == dbs2[0],
{
    // The first session found the user and an owned question, then set its text.
    lemma_step(s1, h1, dbs1, 0);
    assert(h1.take(0) =~= Seq::<DbReply>::empty());
    lemma_step(s1, h1, dbs1, 1);
    assert(h1.take(1)[0] == h1[0]);
    lemma_step(s1, h1, dbs1, 2);
    let t2 = h1.take(2);
    assert(t2[0] == h1[0] && t2[1] == h1[1]);
    let id = plan(s1, t2)->Ask_0->SetQuestionText_question_id;
    let text = plan(s1, t2)->Ask_0->SetQuestionText_question_text@;
    let t3 = h1.take(3);
    assert(h1.len() == 3) by {
        if h1.len() > 3 {
            lemma_step(s1, h1, dbs1, 3);
            assert(t3[0] == h1[0] && t3[1] == h1[1] && t3[2] == h1[2]);
        }
    }
    assert(h1 =~= t3);
    let qs = dbs1[0].questions;
    let u1 = first_user(h1[0])->0;
    assert(qs.filter(owned_question(u1.id, id)).len() > 0);
    assert(dbs2[0].users == dbs1[0].users);
    assert(dbs2[0].questions == set_question_text(qs, id, text));
    // The second session finds the same user, who still owns the question.
    assert(h2.take(0) =~= Seq::<DbReply>::empty());
    assert(h2.len() >= 1) by {
        if h2.len() == 0 {
            assert(h2 =~= h2.take(0));
        }
    }
    lemma_step(s2, h2, dbs2, 0);
    assert(plan(s1, h1.take(0)) == plan(s2, h2.take(0)));
    let c = s1.claims->0;
    let rows = first_of(dbs1[0].users.filter(by_account(c.username@, c.sub@)));
    let v1 = users_of(h1[0])->0;
    let v2 = users_of(h2[0])->0;
    let m1 = v1.map_values(|u: User| user_record(u));
    let m2 = v2.map_values(|u: User| user_record(u));
    assert(m1 == rows);
    assert(m2 == rows);
    assert(m1.len() == v1.len() && m2.len() == v2.len());
    assert(v2.len() == v1.len());
    let u2 = first_user(h2[0])->0;
    assert(m2[0] == user_record(u2));
    assert(m1[0] == user_record(u1));
    assert(user_record(u2) == rows[0]);
    assert(user_record(u1) == rows[0]);
    assert(u2.id == u1.id);
    let q1 = h2.take(1);
    assert(q1[0] == h2[0]);
    assert(h2.len() >= 2) by {
        if h2.len() == 1 {
            assert(h2 =~= q1);
        }
    }
    lemma_step(s2, h2, dbs2, 1);
    lemma_owned_question_kept(qs, u1.id, id, text);
    let q2 = h2.take(2);
    assert(q2[0] == h2[0] && q2[1] == h2[1]);
    assert(h2.len() >= 3) by {
        if h2.len() == 2 {
            assert(h2 =~= q2);
        }
    }
    // Setting the text again changes nothing, and answers the same row.
    lemma_step(s2, h2, dbs2, 2);
    lemma_set_question_text_twice(qs, id, text);
    assert(dbs2[3] == dbs2[0]);
    let found = first_of(dbs1[3].questions.filter(question_with_id(id)));
    assert(questions_of(h1[2])->0.map_values(|q: Question| question_record(q)) == found);
    assert(questions_of(h2[2])->0.map_values(|q: Question| question_record(q)) == found);
    assert(questions_of(h1[2])->0.len() > 0);
    assert(question_record(first_question(h1[2])->0) == found[0]);
    assert(question_record(first_question(h2[2])->0) == found[0]);
    let q3 = h2.take(3);
    assert(q3[0] == h2[0] && q3[1] == h2[1] && q3[2] == h2[2]);
    if h2.len() > 3 {
        lemma_step(s2, h2, dbs2, 3);
    }
    assert(h2 =~= q3);
}

/// A new user can log in with the name and password they signed up with,
/// and gets the very token that signup answered.
pub proof fn law_login_after_signup(
    s1: Session,
    h1: Seq<DbReply>,
    dbs1: Seq<DbState>,
    s2: Session,
    h2: Seq<DbReply>,
    dbs2: Seq<DbState>,
)
    requires
        s1.request is Signup,
        s2.request matches Request::Login { username, password }
            && username@ == s1.request->Signup_username@ && password@ == s1.request->Signup_password@,
        runs(s1, h1, dbs1),
        runs(s2, h2, dbs2),
        dbs2[0] == dbs1[h1.len() as int],
        plan(s1, h1) is AnswerToken,
        dbs1[0].users.filter(by_login(s1.request->Signup_username@, s1.request->Signup_password@)).len() == 0,
        is_final(plan(s2, h2)),
    ensures
        plan(s2, h2) matches Plan::AnswerToken { signup, token } && !signup && token == plan(s1, h1)->AnswerToken_token,
{
    let username = s1.request->Signup_username;
    let password = s1.request->Signup_password;
    let email = s1.request->Signup_email;
    let p = by_login(username@, password@);
    // Signup looked the account up, then inserted the new user.
    lemma_step(s1, h1, dbs1, 0);
    assert(h1.take(0) =~= Seq::<DbReply>::empty());
    lemma_step(s1, h1, dbs1, 1);
    assert(h1.take(1)[0] == h1[0]);
    assert(h1.len() == 2) by {
        if h1.len() > 2 {
            lemma_step(s1, h1, dbs1, 2);
            assert(h1.take(2)[0] == h1[0] && h1.take(2)[1] == h1[1]);
        }
    }
    let token = plan(s1, h1)->AnswerToken_token;
    let users0 = dbs1[0].users;
    let users1 = dbs1[2].users;
    assert(users1.drop_last() =~= users0);
    let new = users1.last();
    assert(users1 =~= users0.push(new));
    assert(new.username == username@ && new.password == password@ && new.email == email@ && new.token == token);
    lemma_filter_push(users0, new, p);
    assert(users1.filter(p) =~= seq![new]);
    // Login finds exactly the new user, stores its token and answers it.
    assert(h2.take(0) =~= Seq::<DbReply>::empty());
    assert(h2.len() >= 1) by {
        if h2.len() == 0 {
            assert(h2 =~= h2.take(0));
        }
    }
    lemma_step(s2, h2, dbs2, 0);
    let t1 = h2.take(1);
    assert(t1[0] == h2[0]);
    assert(users_of(h2[0])->0.len() == 1);
    assert(h2.len() >= 2) by {
        if h2.len() == 1 {
            assert(h2 =~= t1);
        }
    }
    lemma_step(s2, h2, dbs2, 1);
    assert(first_of(users1.filter(p)) =~= seq![new]);
    let u = first_user(h2[1])->0;
    assert(users_of(h2[1])->0.map_values(|x: User| user_record(x))[0] == new);
    assert(user_record(u) == new);
    let t2 = h2.take(2);
    assert(t2[0] == h2[0] && t2[1] == h2[1]);
    assert(h2.len() >= 3) by {
        if h2.len() == 2 {
            assert(h2 =~= t2);
        }
    }
    lemma_step(s2, h2, dbs2, 2);
    let users2 = dbs2[3].users;
    assert(users2 == set_token(users1, new.id, token));
    let last = users1.len() - 1;
    assert(users2[last].id == new.id);
    users2.lemma_filter_contains(user_with_id(new.id), last);
    assert(users2.filter(user_with_id(new.id)).len() > 0);
    let rows = first_of(users2.filter(user_with_id(new.id)));
    assert(rows.len() == 1);
    assert(users_of(h2[2])->0.map_values(|x: User| user_record(x)) == rows);
    let t3 = h2.take(3);
    assert(t3[0] == h2[0] && t3[1] == h2[1] && t3[2] == h2[2]);
    assert(users_of(h2[2])->0.len() > 0);
    if h2.len() > 3 {
        lemma_step(s2, h2, dbs2, 3);
    }
    assert(h2 =~= t3);
}

/// Questions as the service shows them, as plain values.
pub open spec fn shown_questions(rows: Seq<QuestionRow>) -> Seq<(i32, Seq<char>, Seq<char>, i32)> {
    rows.map_values(|r: QuestionRow| (r.question_id, r.question_text@, r.tags@, r.user_id))
}

/// The questions table as the service shows it.
pub open spec fn shown_table(qs: Seq<QuestionRecord>) -> Seq<(i32, Seq<char>, Seq<char>, i32)> {
    qs.map_values(|q: QuestionRecord| (q.id, q.question_text, q.tags, q.user_id))
}

proof fn lemma_shown_rows(qs: Seq<Question>, table: Seq<QuestionRecord>)
    requires
        qs.map_values(|q: Question| question_record(q)) == table,
    ensures
        shown_questions(question_rows(qs)) == shown_table(table),
{
    assert(shown_questions(question_rows(qs)) =~= shown_table(table)) by {
        assert forall|i: int| 0 <= i < qs.len() implies shown_questions(question_rows(qs))[i] == shown_table(table)[i] by {
            assert(table[i] == question_record(qs[i]));
        }
    }
}

/// What listing the questions answers: the questions table in order, shown
/// as rows, where the token is accepted; the database is left unchanged.
pub proof fn law_list_shows_the_questions_table(s: Session, h: Seq<DbReply>, dbs: Seq<DbState>)
    requires
        s.request is ListQuestions,
        runs(s, h, dbs),
        is_final(plan(s, h)),
    ensures
        dbs[h.len() as int] == dbs[0],
        s.claims matches Some(c) && c@.is_valid() ==> (plan(s, h) matches Plan::AnswerQuestions(rows)
            && shown_questions(rows) == shown_table(dbs[0].questions)),
        s.claims is None ==> plan(s, h) == Plan::Stop(crate::session::Abort::TokenRejected),
        s.claims matches Some(c) && !c@.is_valid() ==> plan(s, h) == Plan::Answer(Reply::InvalidToken),
{
    assert(h.take(0) =~= Seq::<DbReply>::empty());
    if h.len() == 0 {
        assert(h =~= h.take(0));
    } else {
        lemma_step(s, h, dbs, 0);
        let t1 = h.take(1);
        assert(t1[0] == h[0]);
        if h.len() > 1 {
            lemma_step(s, h, dbs, 1);
        }
        assert(h =~= t1);
        let qs = questions_of(h[0])->0;
        lemma_shown_rows(qs, dbs[0].questions);
    }
}

/// Listing the questions reads nothing but the questions table: on two
/// databases with the same questions (whatever their users, answers and
/// reactions, for instance before and after a logout) the same token gets
/// the same answer.
pub proof fn law_list_ignores_other_tables(
    s1: Session,
    h1: Seq<DbReply>,
    dbs1: Seq<DbState>,
    s2: Session,
    h2: Seq<DbReply>,
    dbs2: Seq<DbState>,
)
    requires
        s1.request is ListQuestions,
        s2.request is ListQuestions,
        s2.claims == s1.claims,
        runs(s1, h1, dbs1),
        runs(s2, h2, dbs2),
        dbs1[0].questions == dbs2[0].questions,
        is_final(plan(s1, h1)),
        is_final(plan(s2, h2)),
    ensures
        plan(s1, h1) is AnswerQuestions <==> plan(s2, h2) is AnswerQuestions,
        plan(s1, h1) matches Plan::AnswerQuestions(r1) ==> shown_questions(r1) == shown_questions(plan(s2, h2)->AnswerQuestions_0),
        !(plan(s1, h1) is AnswerQuestions) ==> plan(s1, h1) == plan(s2, h2),
{
    law_list_shows_the_questions_table(s1, h1, dbs1);
    law_list_shows_the_questions_table(s2, h2, dbs2);
}

/// The user that a token's claims name, as the database holds them.
pub open spec fn token_user(db: DbState, c: crate::claims::Claims) -> UserRecord {
    db.users.filter(by_account(c.username@, c.sub@))[0]
}

/// A new question that is answered as created is appended to the questions
/// table, by the user that the token names, with the request's text and
/// tags; nothing else changes.
pub proof fn law_create_question_appends(s: Session, h: Seq<DbReply>, dbs: Seq<DbState>)
    requires
        s.request is CreateQuestion,
        runs(s, h, dbs),
        plan(s, h) matches Plan::Answer(Reply::QuestionCreated { .. }),
    ensures
        h.len() == 2,
        s.claims matches Some(c) && c@.is_valid() && dbs[0].users.filter(by_account(c.username@, c.sub@)).len() > 0,
        dbs[2].users == dbs[0].users,
        dbs[2].answers == dbs[0].answers,
        dbs[2].reactions == dbs[0].reactions,
        dbs[2].questions.len() == dbs[0].questions.len() + 1,
        dbs[2].questions.drop_last() == dbs[0].questions,
        dbs[2].questions.last().user_id == token_user(dbs[0], s.claims->0).id,
        dbs[2].questions.last().question_text == s.request->CreateQuestion_question_text@,
        dbs[2].questions.last().tags == s.request->CreateQuestion_tags@,
{
    assert(h.take(0) =~= Seq::<DbReply>::empty());
    lemma_step(s, h, dbs, 0);
    let t1 = h.take(1);
    assert(t1[0] == h[0]);
    lemma_step(s, h, dbs, 1);
    let c = s.claims->0;
    let found = dbs[0].users.filter(by_account(c.username@, c.sub@));
    assert(users_of(h[0])->0.map_values(|x: User| user_record(x)) == first_of(found));
    assert(users_of(h[0])->0.len() > 0);
    let v = users_of(h[0])->0;
    assert(v.map_values(|x: User| user_record(x))[0] == user_record(v[0]));
    assert(first_of(found)[0] == found[0]);
    assert(user_record(first_user(h[0])->0) == found[0]);
    let t2 = h.take(2);
    assert(t2[0] == h[0] && t2[1] == h[1]);
    if h.len() > 2 {
        lemma_step(s, h, dbs, 2);
    }
    assert(dbs[2].questions.drop_last() =~= dbs[0].questions);
}

/// What the questions of the token's user answers, where the token is
/// accepted and names a user: that user's questions, in table order.
pub proof fn law_my_questions_shows_own_questions(s: Session, h: Seq<DbReply>, dbs: Seq<DbState>)
    requires
        s.request is MyQuestions,
        runs(s, h, dbs),
        is_final(plan(s, h)),
        s.claims matches Some(c) && c@.is_valid() && dbs[0].users.filter(by_account(c.username@, c.sub@)).len() > 0,
    ensures
        dbs[h.len() as int] == dbs[0],
        plan(s, h) matches Plan::AnswerQuestions(rows) && shown_questions(rows) == shown_table(
            dbs[0].questions.filter(questions_of_user(token_user(dbs[0], s.claims->0).id)),
        ),
{
    let c = s.claims->0;
    let found = dbs[0].users.filter(by_account(c.username@, c.sub@));
    assert(h.take(0) =~= Seq::<DbReply>::empty());
    assert(h.len() >= 1) by {
        if h.len() == 0 {
            assert(h =~= h.take(0));
        }
    }
    lemma_step(s, h, dbs, 0);
    assert(users_of(h[0])->0.map_values(|x: User| user_record(x)) == first_of(found));
    assert(users_of(h[0])->0.len() > 0);
    let v = users_of(h[0])->0;
    assert(v.map_values(|x: User| user_record(x))[0] == user_record(v[0]));
    assert(first_of(found)[0] == found[0]);
    assert(user_record(first_user(h[0])->0) == found[0]);
    let t1 = h.take(1);
    assert(t1[0] == h[0]);
    assert(h.len() >= 2) by {
        if h.len() == 1 {
            assert(h =~= t1);
        }
    }
    lemma_step(s, h, dbs, 1);
    let t2 = h.take(2);
    assert(t2[0] == h[0] && t2[1] == h[1]);
    if h.len() > 2 {
        lemma_step(s, h, dbs, 2);
    }
    assert(h =~= t2);
    lemma_shown_rows(questions_of(h[1])->0, dbs[0].questions.filter(questions_of_user(found[0].id)));
}

/// After a question is created, the questions of its author show one more
/// row, the new question with its text and tags, last.
pub proof fn law_created_question_is_listed(
    s1: Session,
    h1: Seq<DbReply>,
    dbs1: Seq<DbState>,
    sa: Session,
    ha: Seq<DbReply>,
    dbsa: Seq<DbState>,
    sb: Session,
    hb: Seq<DbReply>,
    dbsb: Seq<DbState>,
)
    requires
        s1.request is CreateQuestion,
        runs(s1, h1, dbs1),
        plan(s1, h1) matches Plan::Answer(Reply::QuestionCreated { .. }),
        sa.request is MyQuestions,
        sb.request is MyQuestions,
        sa.claims == s1.claims,
        sb.claims == s1.claims,
        runs(sa, ha, dbsa),
        runs(sb, hb, dbsb),
        dbsa[0] == dbs1[0],
        dbsb[0] == dbs1[h1.len() as int],
        is_final(plan(sa, ha)),
        is_final(plan(sb, hb)),
    ensures
        plan(sa, ha) is AnswerQuestions,
        plan(sb, hb) matches Plan::AnswerQuestions(rows) && rows.len() == plan(sa, ha)->AnswerQuestions_0.len() + 1
            && rows.last().question_text@ == s1.request->CreateQuestion_question_text@
            && rows.last().tags@ == s1.request->CreateQuestion_tags@,
{
    law_create_question_appends(s1, h1, dbs1);
    law_my_questions_shows_own_questions(sa, ha, dbsa);
    let c = s1.claims->0;
    assert(dbsb[0].users.filter(by_account(c.username@, c.sub@)) == dbs1[0].users.filter(by_account(c.username@, c.sub@)));
    law_my_questions_shows_own_questions(sb, hb, dbsb);
    let q0 = dbs1[0].questions;
    let q1 = dbs1[2].questions;
    let new = q1.last();
    let p = questions_of_user(token_user(dbs1[0], c).id);
    assert(q1 =~= q0.push(new));
    lemma_filter_push(q0, new, p);
    let rows_a = plan(sa, ha)->AnswerQuestions_0;
    let rows_b = plan(sb, hb)->AnswerQuestions_0;
    assert(shown_questions(rows_a).len() == rows_a.len());
    assert(shown_questions(rows_b).len() == rows_b.len());
    assert(shown_table(q1.filter(p)) =~= shown_table(q0.filter(p)).push((new.id, new.question_text, new.tags, new.user_id)));
    assert(shown_questions(rows_b)[rows_b.len() - 1] == (new.id, new.question_text, new.tags, new.user_id));
}

/// Answers as the service shows them, as plain values.
pub open spec fn shown_answers(rows: Seq<AnswerRow>) -> Seq<(i32, Seq<char>, i32, i32)> {
    rows.map_values(|r: AnswerRow| (r.answer_id, r.answer_text@, r.question_id, r.user_id))
}

/// The answers table as the service shows it.
pub open spec fn shown_answer_table(answers: Seq<AnswerRecord>) -> Seq<(i32, Seq<char>, i32, i32)> {
    answers.map_values(|a: AnswerRecord| (a.id, a.answer_text, a.question_id, a.user_id))
}

proof fn lemma_shown_answer_rows(answers: Seq<Answer>, table: Seq<AnswerRecord>)
    requires
        answers.map_values(|a: Answer| answer_record(a)) == table,
    ensures
        shown_answers(answer_rows(answers)) == shown_answer_table(table),
{
    assert(shown_answers(answer_rows(answers)) =~= shown_answer_table(table)) by {
        assert forall|i: int| 0 <= i < answers.len() implies shown_answers(answer_rows(answers))[i]
            == shown_answer_table(table)[i] by {
            assert(table[i] == answer_record(answers[i]));
        }
    }
}

/// An answer that is answered as created is appended to the answers table,
/// by the user that the token names, to the question of the request, with
/// the request's text; nothing else changes.
pub proof fn law_set_answer_appends(s: Session, h: Seq<DbReply>, dbs: Seq<DbState>)
    requires
        s.request is SetAnswer,
        runs(s, h, dbs),
        plan(s, h) matches Plan::Answer(Reply::AnswerCreated { .. }),
    ensures
        h.len() == 2,
        s.claims matches Some(c) && c@.is_valid() && dbs[0].users.filter(by_account(c.username@, c.sub@)).len() > 0,
        dbs[2].users == dbs[0].users,
        dbs[2].questions == dbs[0].questions,
        dbs[2].reactions == dbs[0].reactions,
        dbs[2].answers.len() == dbs[0].answers.len() + 1,
        dbs[2].answers.drop_last() == dbs[0].answers,
        dbs[2].answers.last().user_id == token_user(dbs[0], s.claims->0).id,
        spec_parse_i32(s.request->SetAnswer_qid@) == Some(dbs[2].answers.last().question_id),
        dbs[2].answers.last().answer_text == s.request->SetAnswer_answer_text@,
{
    assert(h.take(0) =~= Seq::<DbReply>::empty());
    lemma_step(s, h, dbs, 0);
    let t1 = h.take(1);
    assert(t1[0] == h[0]);
    lemma_step(s, h, dbs, 1);
    let c = s.claims->0;
    let found = dbs[0].users.filter(by_account(c.username@, c.sub@));
    assert(users_of(h[0])->0.map_values(|x: User| user_record(x)) == first_of(found));
    assert(users_of(h[0])->0.len() > 0);
    let v = users_of(h[0])->0;
    assert(v.map_values(|x: User| user_record(x))[0] == user_record(v[0]));
    assert(first_of(found)[0] == found[0]);
    assert(user_record(first_user(h[0])->0) == found[0]);
    let t2 = h.take(2);
    assert(t2[0] == h[0] && t2[1] == h[1]);
    if h.len() > 2 {
        lemma_step(s, h, dbs, 2);
    }
    assert(dbs[2].answers.drop_last() =~= dbs[0].answers);
}

/// What the answers to a question show, where the token is accepted and
/// the id is a number: the answers to that question, in table order.
pub proof fn law_get_answers_shows_the_question_answers(s: Session, h: Seq<DbReply>, dbs: Seq<DbState>)
    requires
        s.request is GetAnswers,
        runs(s, h, dbs),
        is_final(plan(s, h)),
        s.claims matches Some(c) && c@.is_valid(),
        spec_parse_i32(s.request->GetAnswers_qid@) is Some,
    ensures
        dbs[h.len() as int] == dbs[0],
        plan(s, h) matches Plan::AnswerAnswers(rows) && shown_answers(rows) == shown_answer_table(
            dbs[0].answers.filter(answers_to(spec_parse_i32(s.request->GetAnswers_qid@)->0)),
        ),
{
    assert(h.take(0) =~= Seq::<DbReply>::empty());
    assert(h.len() >= 1) by {
        if h.len() == 0 {
            assert(h =~= h.take(0));
        }
    }
    lemma_step(s, h, dbs, 0);
    let t1 = h.take(1);
    assert(t1[0] == h[0]);
    if h.len() > 1 {
        lemma_step(s, h, dbs, 1);
    }
    assert(h =~= t1);
    let id = spec_parse_i32(s.request->GetAnswers_qid@)->0;
    lemma_shown_answer_rows(answers_of(h[0])->0, dbs[0].answers.filter(answers_to(id)));
}

/// After a question is answered, its answers show one more row, the new
/// answer with its text, question and author, last.
pub proof fn law_new_answer_is_listed(
    s1: Session,
    h1: Seq<DbReply>,
    dbs1: Seq<DbState>,
    sa: Session,
    ha: Seq<DbReply>,
    dbsa: Seq<DbState>,
    sb: Session,
    hb: Seq<DbReply>,
    dbsb: Seq<DbState>,
)
    requires
        s1.request is SetAnswer,
        runs(s1, h1, dbs1),
        plan(s1, h1) matches Plan::Answer(Reply::AnswerCreated { .. }),
        sa.request matches Request::GetAnswers { qid, .. } && qid@ == s1.request->SetAnswer_qid@,
        sb.request == sa.request,
        sa.claims == s1.claims,
        sb.claims == s1.claims,
        runs(sa, ha, dbsa),
        runs(sb, hb, dbsb),
        dbsa[0] == dbs1[0],
        dbsb[0] == dbs1[h1.len() as int],
        is_final(plan(sa, ha)),
        is_final(plan(sb, hb)),
    ensures
        plan(sa, ha) is AnswerAnswers,
        plan(sb, hb) matches Plan::AnswerAnswers(rows) && rows.len() == plan(sa, ha)->AnswerAnswers_0.len() + 1
            && rows.last().answer_text@ == s1.request->SetAnswer_answer_text@
            && spec_parse_i32(s1.request->SetAnswer_qid@) == Some(rows.last().question_id)
            && rows.last().user_id == token_user(dbs1[0], s1.claims->0).id,
{
    law_set_answer_appends(s1, h1, dbs1);
    law_get_answers_shows_the_question_answers(sa, ha, dbsa);
    law_get_answers_shows_the_question_answers(sb, hb, dbsb);
    let a0 = dbs1[0].answers;
    let a1 = dbs1[2].answers;
    let new = a1.last();
    let p = answers_to(spec_parse_i32(s1.request->SetAnswer_qid@)->0);
    assert(a1 =~= a0.push(new));
    lemma_filter_push(a0, new, p);
    let rows_a = plan(sa, ha)->AnswerAnswers_0;
    let rows_b = plan(sb, hb)->AnswerAnswers_0;
    assert(shown_answers(rows_a).len() == rows_a.len());
    assert(shown_answers(rows_b).len() == rows_b.len());
    assert(shown_answer_table(a1.filter(p)) =~= shown_answer_table(a0.filter(p)).push(
        (new.id, new.answer_text, new.question_id, new.user_id),
    ));
    assert(shown_answers(rows_b)[rows_b.len() - 1] == (new.id, new.answer_text, new.question_id, new.user_id));
}

/// What logging in does: where some user has the request's name and
/// password, the first such user gets the token issued for their email and
/// name, stored and answered; otherwise login fails and nothing changes.
pub proof fn law_login_outcome(s: Session, h: Seq<DbReply>, dbs: Seq<DbState>)
    requires
        s.request is Login,
        runs(s, h, dbs),
        is_final(plan(s, h)),
    ensures
        ({
            let found = dbs[0].users.filter(by_login(s.request->Login_username@, s.request->Login_password@));
            if found.len() == 0 {
                plan(s, h) == Plan::Answer(Reply::LoginFailed) && dbs[h.len() as int] == dbs[0]
            } else {
                &&& plan(s, h) == (Plan::AnswerToken { signup: false, token: user_token(found[0].email, found[0].username) })
                &&& dbs[h.len() as int] == (DbState {
                    users: set_token(dbs[0].users, found[0].id, user_token(found[0].email, found[0].username)),
                    ..dbs[0]
                })
            }
        }),
{
    let users0 = dbs[0].users;
    let p = by_login(s.request->Login_username@, s.request->Login_password@);
    let found = users0.filter(p);
    assert(h.take(0) =~= Seq::<DbReply>::empty());
    assert(h.len() >= 1) by {
        if h.len() == 0 {
            assert(h =~= h.take(0));
        }
    }
    lemma_step(s, h, dbs, 0);
    let t1 = h.take(1);
    assert(t1[0] == h[0]);
    assert(users_of(h[0])->0.map_values(|x: User| user_record(x)) == found);
    assert(users_of(h[0])->0.len() == found.len());
    if found.len() == 0 {
        if h.len() > 1 {
            lemma_step(s, h, dbs, 1);
        }
        assert(h =~= t1);
    } else {
        assert(h.len() >= 2) by {
            if h.len() == 1 {
                assert(h =~= t1);
            }
        }
        lemma_step(s, h, dbs, 1);
        let v = users_of(h[1])->0;
        assert(v.map_values(|x: User| user_record(x)) == first_of(found));
        assert(v.map_values(|x: User| user_record(x))[0] == user_record(v[0]));
        assert(first_of(found)[0] == found[0]);
        let u = first_user(h[1])->0;
        assert(user_record(u) == found[0]);
        let t2 = h.take(2);
        assert(t2[0] == h[0] && t2[1] == h[1]);
        assert(h.len() >= 3) by {
            if h.len() == 2 {
                assert(h =~= t2);
            }
        }
        lemma_step(s, h, dbs, 2);
        let token = user_token(found[0].email, found[0].username);
        let users2 = set_token(users0, found[0].id, token);
        assert(dbs[3].users == users2);
        assert(found.contains(found[0]));
        users0.lemma_filter_contains_rev(p, found[0]);
        let j = choose|j: int| 0 <= j < users0.len() && users0[j] == found[0];
        assert(users2[j].id == found[0].id);
        users2.lemma_filter_contains(user_with_id(found[0].id), j);
        let rows = first_of(users2.filter(user_with_id(found[0].id)));
        assert(rows.len() == 1);
        assert(users_of(h[2])->0.map_values(|x: User| user_record(x)) == rows);
        let t3 = h.take(3);
        assert(t3[0] == h[0] && t3[1] == h[1] && t3[2] == h[2]);
        if h.len() > 3 {
            lemma_step(s, h, dbs, 3);
        }
        assert(h =~= t3);
    }
}

/// Setting a token changes no name or password, so the users found by a
/// login are the same rows, with the token set.
proof fn lemma_set_token_keeps_logins(users: Seq<UserRecord>, id: i32, token: Seq<char>, p: spec_fn(UserRecord) -> bool)
    requires
        forall|u: UserRecord| #[trigger] p(with_token(id, token)(u)) == p(u),
    ensures
        set_token(users, id, token).filter(p) == users.filter(p).map_values(with_token(id, token)),
    decreases users.len(),
{
    reveal(Seq::filter);
    let g = with_token(id, token);
    if users.len() > 0 {
        lemma_set_token_keeps_logins(users.drop_last(), id, token, p);
        assert(set_token(users, id, token).drop_last() =~= set_token(users.drop_last(), id, token));
        assert(p(g(users.last())) == p(users.last()));
        if p(users.last()) {
            assert(users.filter(p) == users.drop_last().filter(p).push(users.last()));
            assert(users.filter(p).map_values(g) =~= users.drop_last().filter(p).map_values(g).push(g(users.last())));
        }
    } else {
        assert(set_token(users, id, token) =~= users);
        assert(users.filter(p).map_values(g) =~= users.filter(p));
    }
}

/// Logging in twice in a row with the same name and password gives the same
/// answer, and the second login changes nothing.
pub proof fn law_login_is_idempotent(
    s1: Session,
    h1: Seq<DbReply>,
    dbs1: Seq<DbState>,
    s2: Session,
    h2: Seq<DbReply>,
    dbs2: Seq<DbState>,
)
    requires
        s1.request is Login,
        s2.request matches Request::Login { username, password }
            && username@ == s1.request->Login_username@ && password@ == s1.request->Login_password@,
        runs(s1, h1, dbs1),
        runs(s2, h2, dbs2),
        dbs2[0] == dbs1[h1.len() as int],
        is_final(plan(s1, h1)),
        is_final(plan(s2, h2)),
    ensures
        plan(s2, h2) == plan(s1, h1),
        dbs2[h2.len() as int] == dbs2[0],
{
    law_login_outcome(s1, h1, dbs1);
    law_login_outcome(s2, h2, dbs2);
    let p = by_login(s1.request->Login_username@, s1.request->Login_password@);
    let found = dbs1[0].users.filter(p);
    if found.len() > 0 {
        let token = user_token(found[0].email, found[0].username);
        let id = found[0].id;
        assert forall|u: UserRecord| #[trigger] p(with_token(id, token)(u)) == p(u) by {}
        lemma_set_token_keeps_logins(dbs1[0].users, id, token, p);
        let again = set_token(dbs1[0].users, id, token);
        assert(again.filter(p)[0] == with_token(id, token)(found[0]));
        assert(set_token(again, id, token) =~= again);
    }
}

/// After a password change, the user logs in with the new password and no
/// longer with the old one (where no other user has the same name).
pub proof fn law_login_after_password_change(
    s1: Session,
    h1: Seq<DbReply>,
    dbs1: Seq<DbState>,
    sa: Session,
    ha: Seq<DbReply>,
    dbsa: Seq<DbState>,
    sb: Session,
    hb: Seq<DbReply>,
    dbsb: Seq<DbState>,
)
    requires
        s1.request is ChangePassword,
        runs(s1, h1, dbs1),
        plan(s1, h1) == Plan::Answer(Reply::PasswordChanged),
        s1.request->ChangePassword_new_password@ != s1.request->ChangePassword_password@,
        forall|i: int| 0 <= i < dbs1[0].users.len() && #[trigger] dbs1[0].users[i].username
            == token_user(dbs1[0], s1.claims->0).username ==> dbs1[0].users[i].id == token_user(dbs1[0], s1.claims->0).id,
        sa.request matches Request::Login { username, password } && username@ == token_user(dbs1[0], s1.claims->0).username
            && password@ == s1.request->ChangePassword_new_password@,
        sb.request matches Request::Login { username, password } && username@ == token_user(dbs1[0], s1.claims->0).username
            && password@ == s1.request->ChangePassword_password@,
        runs(sa, ha, dbsa),
        runs(sb, hb, dbsb),
        dbsa[0] == dbs1[h1.len() as int],
        dbsb[0] == dbs1[h1.len() as int],
        is_final(plan(sa, ha)),
        is_final(plan(sb, hb)),
    ensures
        plan(sa, ha) is AnswerToken,
        plan(sb, hb) == Plan::Answer(Reply::LoginFailed),
{
    let c = s1.claims->0;
    let users0 = dbs1[0].users;
    let found = users0.filter(by_account(c.username@, c.sub@));
    let old = s1.request->ChangePassword_password@;
    let new = s1.request->ChangePassword_new_password@;
    // The change found the user, checked the old password and set the new one.
    assert(h1.take(0) =~= Seq::<DbReply>::empty());
    lemma_step(s1, h1, dbs1, 0);
    let t1 = h1.take(1);
    assert(t1[0] == h1[0]);
    let v = users_of(h1[0])->0;
    assert(v.map_values(|x: User| user_record(x)) == first_of(found));
    assert(v.len() > 0);
    assert(v.map_values(|x: User| user_record(x))[0] == user_record(v[0]));
    assert(first_of(found)[0] == found[0]);
    let u = found[0];
    assert(user_record(first_user(h1[0])->0) == u);
    assert(u.password == old);
    lemma_step(s1, h1, dbs1, 1);
    let t2 = h1.take(2);
    assert(t2[0] == h1[0] && t2[1] == h1[1]);
    assert(h1.len() == 2) by {
        if h1.len() > 2 {
            lemma_step(s1, h1, dbs1, 2);
        }
    }
    let users1 = set_password(users0, u.id, new);
    assert(dbs1[2].users == users1);
    // The new password finds the user.
    assert(found.contains(u));
    users0.lemma_filter_contains_rev(by_account(c.username@, c.sub@), u);
    let j = choose|j: int| 0 <= j < users0.len() && users0[j] == u;
    let pa = by_login(u.username, new);
    assert(pa(users1[j]));
    users1.lemma_filter_contains(pa, j);
    law_login_outcome(sa, ha, dbsa);
    // The old password finds nobody.
    let pb = by_login(u.username, old);
    assert(users1.filter(pb).len() == 0) by {
        if users1.filter(pb).len() > 0 {
            users1.lemma_filter_pred(pb, 0);
            let x = users1.filter(pb)[0];
            assert(users1.filter(pb).contains(x));
            users1.lemma_filter_contains_rev(pb, x);
            let k = choose|k: int| 0 <= k < users1.len() && users1[k] == x;
            assert(users0[k].username == u.username);
        }
    }
    law_login_outcome(sb, hb, dbsb);
}

/// A run that has ended went past every step that asks the database.
proof fn lemma_runs_past(s: Session, h: Seq<DbReply>, dbs: Seq<DbState>, k: int)
    requires
        runs(s, h, dbs),
        0 <= k <= h.len(),
        !is_final(plan(s, h.take(k))),
        is_final(plan(s, h)),
    ensures
        h.len() > k,
{
    if h.len() == k {
        assert(h =~= h.take(k));
    }
}

/// A run stops at the first step that ends the endpoint.
proof fn lemma_runs_end(s: Session, h: Seq<DbReply>, dbs: Seq<DbState>, k: int)
    requires
        runs(s, h, dbs),
        0 <= k <= h.len(),
        is_final(plan(s, h.take(k))),
    ensures
        h.len() == k,
{
    if h.len() > k {
        lemma_step(s, h, dbs, k);
    }
}

/// Looking up the token's user answers the user that the claims name.
proof fn lemma_found_token_user(s: Session, h: Seq<DbReply>, dbs: Seq<DbState>, c: crate::claims::Claims)
    requires
        runs(s, h, dbs),
        h.len() >= 1,
        plan(s, h.take(0)) == Plan::Ask(find_user(c)),
        dbs[0].users.filter(by_account(c.username@, c.sub@)).len() > 0,
    ensures
        first_user(h[0]) matches Some(u) && user_record(u) == token_user(dbs[0], c),
        dbs[1] == dbs[0],
{
    lemma_step(s, h, dbs, 0);
    let f = dbs[0].users.filter(by_account(c.username@, c.sub@));
    let v = users_of(h[0])->0;
    assert(v.map_values(|u: User| user_record(u)) == first_of(f));
    assert(first_of(f).len() == 1);
    assert(v.map_values(|u: User| user_record(u))[0] == f[0]);
}

/// After the rows with id `id` are dropped, none with that id is left.
proof fn lemma_no_answer_with_id(answers: Seq<AnswerRecord>, id: i32)
    ensures
        forall|i: int| 0 <= i < answers.filter(answer_without_id(id)).len()
            ==> #[trigger] answers.filter(answer_without_id(id))[i].id != id,
{
    assert forall|i: int| 0 <= i < answers.filter(answer_without_id(id)).len()
        implies #[trigger] answers.filter(answer_without_id(id))[i].id != id by {
        answers.lemma_filter_pred(answer_without_id(id), i);
    }
}

/// Once the text of answer `id` is set, every answer with that id holds the
/// new text, and there is one if there was one before.
proof fn lemma_set_answer_rows(answers: Seq<AnswerRecord>, id: i32, text: Seq<char>, k: int)
    requires
        0 <= k < answers.len(),
        answers[k].id == id,
    ensures
        set_answer_text(answers, id, text).filter(answer_with_id(id)).len() > 0,
        forall|j: int| 0 <= j < set_answer_text(answers, id, text).filter(answer_with_id(id)).len()
            ==> (#[trigger] set_answer_text(answers, id, text).filter(answer_with_id(id))[j]).answer_text == text,
{
    let set = set_answer_text(answers, id, text);
    let p = answer_with_id(id);
    set.lemma_filter_contains(p, k);
    assert forall|j: int| 0 <= j < set.filter(p).len() implies (#[trigger] set.filter(p)[j]).answer_text == text by {
        set.lemma_filter_pred(p, j);
        let x = set.filter(p)[j];
        assert(set.filter(p).contains(x));
        set.lemma_filter_contains_rev(p, x);
        let m = choose|m: int| 0 <= m < set.len() && set[m] == x;
        assert(set[m] == x);
    }
}

/// Deleting an answer, with a valid token whose user exists and an id that
/// reads as a number: the owner's answer is deleted, and no answer with the
/// id is left afterwards (so a second delete is refused); anyone else is
/// refused and nothing changes.
pub proof fn law_delete_answer_outcome(s: Session, h: Seq<DbReply>, dbs: Seq<DbState>)
    requires
        s.request is DeleteAnswer,
        runs(s, h, dbs),
        is_final(plan(s, h)),
        s.claims matches Some(c) && c@.is_valid() && dbs[0].users.filter(by_account(c.username@, c.sub@)).len() > 0,
        spec_parse_i32(s.request->DeleteAnswer_qid@) is Some,
    ensures
        ({
            let id = spec_parse_i32(s.request->DeleteAnswer_qid@)->0;
            let owner = token_user(dbs[0], s.claims->0);
            let end = dbs[h.len() as int];
            &&& dbs[0].answers.filter(owned_answer(owner.id, id)).len() > 0 ==> {
                &&& plan(s, h) == Plan::Answer(Reply::AnswerDeleted { qid: s.request->DeleteAnswer_qid })
                &&& end == (DbState { answers: dbs[0].answers.filter(answer_without_id(id)), ..dbs[0] })
                &&& forall|i: int| 0 <= i < end.answers.len() ==> #[trigger] end.answers[i].id != id
            }
            &&& dbs[0].answers.filter(owned_answer(owner.id, id)).len() == 0 ==> {
                &&& plan(s, h) == Plan::Answer(Reply::AnswerDeleteDenied)
                &&& end == dbs[0]
            }
        }),
{
    let c = s.claims->0;
    let id = spec_parse_i32(s.request->DeleteAnswer_qid@)->0;
    assert(h.take(0) =~= Seq::<DbReply>::empty());
    lemma_runs_past(s, h, dbs, 0);
    lemma_found_token_user(s, h, dbs, c);
    let u = first_user(h[0])->0;
    let t1 = h.take(1);
    assert(t1[0] == h[0]);
    lemma_runs_past(s, h, dbs, 1);
    lemma_step(s, h, dbs, 1);
    let t2 = h.take(2);
    assert(t2[0] == h[0] && t2[1] == h[1]);
    let owned = dbs[0].answers.filter(owned_answer(u.id, id));
    assert(answers_of(h[1])->0.map_values(|a: Answer| answer_record(a)) == owned);
    assert(answers_of(h[1])->0.len() == owned.len());
    if owned.len() > 0 {
        lemma_runs_past(s, h, dbs, 2);
        lemma_step(s, h, dbs, 2);
        let t3 = h.take(3);
        assert(t3[0] == h[0] && t3[1] == h[1] && t3[2] == h[2]);
        lemma_runs_end(s, h, dbs, 3);
        assert(h =~= t3);
        lemma_no_answer_with_id(dbs[0].answers, id);
    } else {
        lemma_runs_end(s, h, dbs, 2);
        assert(h =~= t2);
    }
}

/// Updating an answer, with a valid token whose user exists and an id that
/// reads as a number: the owner's answer gets the request's text, and the
/// reply reports that text, the one the answer holds after the update;
/// anyone else is refused and nothing changes.
pub proof fn law_update_answer_outcome(s: Session, h: Seq<DbReply>, dbs: Seq<DbState>)
    requires
        s.request is UpdateAnswer,
        runs(s, h, dbs),
        is_final(plan(s, h)),
        s.claims matches Some(c) && c@.is_valid() && dbs[0].users.filter(by_account(c.username@, c.sub@)).len() > 0,
        spec_parse_i32(s.request->UpdateAnswer_qid@) is Some,
    ensures
        ({
            let id = spec_parse_i32(s.request->UpdateAnswer_qid@)->0;
            let text = s.request->UpdateAnswer_answer_text@;
            let owner = token_user(dbs[0], s.claims->0);
            let end = dbs[h.len() as int];
            &&& dbs[0].answers.filter(owned_answer(owner.id, id)).len() > 0 ==> {
                &&& plan(s, h) matches Plan::Answer(Reply::AnswerUpdated { answer_text }) && answer_text@ == text
                &&& end == (DbState { answers: set_answer_text(dbs[0].answers, id, text), ..dbs[0] })
                &&& forall|i: int| 0 <= i < end.answers.len() && end.answers[i].id == id
                    ==> #[trigger] end.answers[i].answer_text == text
            }
            &&& dbs[0].answers.filter(owned_answer(owner.id, id)).len() == 0 ==> {
                &&& plan(s, h) == Plan::Answer(Reply::AnswerEditDenied)
                &&& end == dbs[0]
            }
        }),
{
    let c = s.claims->0;
    let id = spec_parse_i32(s.request->UpdateAnswer_qid@)->0;
    let text = s.request->UpdateAnswer_answer_text@;
    assert(h.take(0) =~= Seq::<DbReply>::empty());
    lemma_runs_past(s, h, dbs, 0);
    lemma_found_token_user(s, h, dbs, c);
    let u = first_user(h[0])->0;
    let t1 = h.take(1);
    assert(t1[0] == h[0]);
    lemma_runs_past(s, h, dbs, 1);
    lemma_step(s, h, dbs, 1);
    let t2 = h.take(2);
    assert(t2[0] == h[0] && t2[1] == h[1]);
    let p = owned_answer(u.id, id);
    let owned = dbs[0].answers.filter(p);
    assert(answers_of(h[1])->0.map_values(|a: Answer| answer_record(a)) == owned);
    assert(answers_of(h[1])->0.len() == owned.len());
    if owned.len() > 0 {
        lemma_runs_past(s, h, dbs, 2);
        lemma_step(s, h, dbs, 2);
        dbs[0].answers.lemma_filter_pred(p, 0);
        let x = owned[0];
        assert(owned.contains(x));
        dbs[0].answers.lemma_filter_contains_rev(p, x);
        let k = choose|k: int| 0 <= k < dbs[0].answers.len() && dbs[0].answers[k] == x;
        lemma_set_answer_rows(dbs[0].answers, id, text, k);
        let found = first_of(dbs[3].answers.filter(answer_with_id(id)));
        assert(found.len() == 1);
        assert(answers_of(h[2])->0.map_values(|a: Answer| answer_record(a)) == found);
        assert(answer_record(first_answer(h[2])->0) == found[0]);
        let t3 = h.take(3);
        assert(t3[0] == h[0] && t3[1] == h[1] && t3[2] == h[2]);
        lemma_runs_end(s, h, dbs, 3);
        assert(h =~= t3);
    } else {
        lemma_runs_end(s, h, dbs, 2);
        assert(h =~= t2);
    }
}

/// Reading one question, with a valid token and an id that reads as a
/// number: the reply shows the stored question with that id as it is
/// stored (id, text, tags and author); where there is none the request
/// fails. Nothing changes.
pub proof fn law_get_question_shows_the_stored_question(s: Session, h: Seq<DbReply>, dbs: Seq<DbState>)
    requires
        s.request is GetQuestion,
        runs(s, h, dbs),
        is_final(plan(s, h)),
        s.claims matches Some(c) && c@.is_valid(),
        spec_parse_i32(s.request->GetQuestion_qid@) is Some,
    ensures
        ({
            let id = spec_parse_i32(s.request->GetQuestion_qid@)->0;
            let stored = dbs[0].questions.filter(question_with_id(id));
            &&& stored.len() > 0 ==> (plan(s, h) matches Plan::Answer(Reply::QuestionDetail { qid, row })
                && qid == s.request->GetQuestion_qid
                && row.question_id == id
                && row.question_id == stored[0].id
                && row.question_text@ == stored[0].question_text
                && row.tags@ == stored[0].tags
                && row.user_id == stored[0].user_id)
            &&& stored.len() == 0 ==> plan(s, h) == Plan::Stop(crate::session::Abort::DbFailure)
            &&& dbs[h.len() as int] == dbs[0]
        }),
{
    let id = spec_parse_i32(s.request->GetQuestion_qid@)->0;
    let stored = dbs[0].questions.filter(question_with_id(id));
    assert(h.take(0) =~= Seq::<DbReply>::empty());
    lemma_runs_past(s, h, dbs, 0);
    lemma_step(s, h, dbs, 0);
    let t1 = h.take(1);
    assert(t1[0] == h[0]);
    assert(questions_of(h[0])->0.map_values(|q: Question| question_record(q)) == first_of(stored));
    if stored.len() > 0 {
        dbs[0].questions.lemma_filter_pred(question_with_id(id), 0);
        assert(first_of(stored).len() == 1);
        assert(first_of(stored)[0] == stored[0]);
        let v = questions_of(h[0])->0;
        assert(v.map_values(|q: Question| question_record(q))[0] == question_record(v[0]));
        assert(question_record(first_question(h[0])->0) == stored[0]);
    }
    lemma_runs_end(s, h, dbs, 1);
    assert(h =~= t1);
}

/// The path id of a like or dislike of a question.
pub open spec fn reaction_qid(r: Request) -> String {
    if r is LikeQuestion { r->LikeQuestion_qid } else { r->DislikeQuestion_qid }
}

/// Liking or disliking a question, with a valid token whose user exists and
/// an id that reads as a number: exactly the reaction of the request (a like
/// for a like, a dislike for a dislike) is recorded for that user on that
/// question, and the reply reports that same reaction.
pub proof fn law_react_outcome(s: Session, h: Seq<DbReply>, dbs: Seq<DbState>)
    requires
        s.request is LikeQuestion || s.request is DislikeQuestion,
        runs(s, h, dbs),
        is_final(plan(s, h)),
        s.claims matches Some(c) && c@.is_valid() && dbs[0].users.filter(by_account(c.username@, c.sub@)).len() > 0,
        spec_parse_i32(reaction_qid(s.request)@) is Some,
    ensures
        ({
            let id = spec_parse_i32(reaction_qid(s.request)@)->0;
            let like = s.request is LikeQuestion;
            &&& plan(s, h) == Plan::AnswerReacted { object_id: id, like }
            &&& dbs[h.len() as int] == (DbState {
                reactions: dbs[0].reactions.push(ReactionRecord {
                    object_type: "question"@,
                    object_id: id,
                    reaction_type: reaction_name(like),
                    user_id: token_user(dbs[0], s.claims->0).id,
                    created_at: s.now,
                }),
                ..dbs[0]
            })
        }),
{
    let c = s.claims->0;
    assert(h.take(0) =~= Seq::<DbReply>::empty());
    lemma_runs_past(s, h, dbs, 0);
    lemma_found_token_user(s, h, dbs, c);
    let t1 = h.take(1);
    assert(t1[0] == h[0]);
    lemma_runs_past(s, h, dbs, 1);
    lemma_step(s, h, dbs, 1);
    let t2 = h.take(2);
    assert(t2[0] == h[0] && t2[1] == h[1]);
    lemma_runs_end(s, h, dbs, 2);
    assert(h =~= t2);
}

/// Updating a question, with a valid token whose user exists and an id that
/// reads as a number: the owner's question gets the request's text, and the
/// reply reports that text, the one the question holds after the update;
/// anyone else is refused and nothing changes.
pub proof fn law_update_question_outcome(s: Session, h: Seq<DbReply>, dbs: Seq<DbState>)
    requires
        s.request is UpdateQuestion,
        runs(s, h, dbs),
        is_final(plan(s, h)),
        s.claims matches Some(c) && c@.is_valid() && dbs[0].users.filter(by_account(c.username@, c.sub@)).len() > 0,
        spec_parse_i32(s.request->UpdateQuestion_qid@) is Some,
    ensures
        ({
            let id = spec_parse_i32(s.request->UpdateQuestion_qid@)->0;
            let text = s.request->UpdateQuestion_question_text@;
            let owner = token_user(dbs[0], s.claims->0);
            let end = dbs[h.len() as int];
            &&& dbs[0].questions.filter(owned_question(owner.id, id)).len() > 0 ==> {
                &&& plan(s, h) matches Plan::Answer(Reply::QuestionUpdated { question_text, .. }) && question_text@ == text
                &&& end == (DbState { questions: set_question_text(dbs[0].questions, id, text), ..dbs[0] })
            }
            &&& dbs[0].questions.filter(owned_question(owner.id, id)).len() == 0 ==> {
                &&& plan(s, h) == Plan::Answer(Reply::QuestionEditDenied)
                &&& end == dbs[0]
            }
        }),
{
    let c = s.claims->0;
    let id = spec_parse_i32(s.request->UpdateQuestion_qid@)->0;
    let text = s.request->UpdateQuestion_question_text@;
    assert(h.take(0) =~= Seq::<DbReply>::empty());
    lemma_runs_past(s, h, dbs, 0);
    lemma_found_token_user(s, h, dbs, c);
    let u = first_user(h[0])->0;
    let t1 = h.take(1);
    assert(t1[0] == h[0]);
    lemma_runs_past(s, h, dbs, 1);
    lemma_step(s, h, dbs, 1);
    let t2 = h.take(2);
    assert(t2[0] == h[0] && t2[1] == h[1]);
    let p = owned_question(u.id, id);
    let owned = dbs[0].questions.filter(p);
    assert(questions_of(h[1])->0.map_values(|q: Question| question_record(q)) == owned);
    assert(questions_of(h[1])->0.len() == owned.len());
    if owned.len() > 0 {
        lemma_runs_past(s, h, dbs, 2);
        lemma_step(s, h, dbs, 2);
        dbs[0].questions.lemma_filter_pred(p, 0);
        let x = owned[0];
        assert(owned.contains(x));
        dbs[0].questions.lemma_filter_contains_rev(p, x);
        let k = choose|k: int| 0 <= k < dbs[0].questions.len() && dbs[0].questions[k] == x;
        lemma_set_question_rows(dbs[0].questions, id, text, k);
        let found = first_of(dbs[3].questions.filter(question_with_id(id)));
        assert(found.len() == 1);
        assert(questions_of(h[2])->0.map_values(|q: Question| question_record(q)) == found);
        assert(question_record(first_question(h[2])->0) == found[0]);
        let t3 = h.take(3);
        assert(t3[0] == h[0] && t3[1] == h[1] && t3[2] == h[2]);
        lemma_runs_end(s, h, dbs, 3);
        assert(h =~= t3);
    } else {
        lemma_runs_end(s, h, dbs, 2);
        assert(h =~= t2);
    }
}

/// Once the text of question `id` is set, every question with that id holds
/// the new text, and there is one if there was one before.
proof fn lemma_set_question_rows(qs: Seq<QuestionRecord>, id: i32, text: Seq<char>, k: int)
    requires
        0 <= k < qs.len(),
        qs[k].id == id,
    ensures
        set_question_text(qs, id, text).filter(question_with_id(id)).len() > 0,
        forall|j: int| 0 <= j < set_question_text(qs, id, text).filter(question_with_id(id)).len()
            ==> (#[trigger] set_question_text(qs, id, text).filter(question_with_id(id))[j]).question_text == text,
{
    let set = set_question_text(qs, id, text);
    let p = question_with_id(id);
    set.lemma_filter_contains(p, k);
    assert forall|j: int| 0 <= j < set.filter(p).len() implies (#[trigger] set.filter(p)[j]).question_text == text by {
        set.lemma_filter_pred(p, j);
        let x = set.filter(p)[j];
        assert(set.filter(p).contains(x));
        set.lemma_filter_contains_rev(p, x);
        let m = choose|m: int| 0 <= m < set.len() && set[m] == x;
        assert(set[m] == x);
    }
}

/// Deleting a question, with a valid token whose user exists and an id
/// that reads as a number: the owner's question is deleted and no question
/// with the id is left; anyone else is refused and nothing changes.
pub proof fn law_delete_question_outcome(s: Session, h: Seq<DbReply>, dbs: Seq<DbState>)
    requires
        s.request is DeleteQuestion,
        runs(s, h, dbs),
        is_final(plan(s, h)),
        s.claims matches Some(c) && c@.is_valid() && dbs[0].users.filter(by_account(c.username@, c.sub@)).len() > 0,
        spec_parse_i32(s.request->DeleteQuestion_qid@) is Some,
    ensures
        ({
            let id = spec_parse_i32(s.request->DeleteQuestion_qid@)->0;
            let owner = token_user(dbs[0], s.claims->0);
            let end = dbs[h.len() as int];
            &&& dbs[0].questions.filter(owned_question(owner.id, id)).len() > 0 ==> {
                &&& plan(s, h) == Plan::Answer(Reply::QuestionDeleted { qid: s.request->DeleteQuestion_qid })
                &&& end == (DbState { questions: dbs[0].questions.filter(question_without_id(id)), ..dbs[0] })
                &&& forall|i: int| 0 <= i < end.questions.len() ==> #[trigger] end.questions[i].id != id
            }
            &&& dbs[0].questions.filter(owned_question(owner.id, id)).len() == 0 ==> {
                &&& plan(s, h) == Plan::Answer(Reply::QuestionDeleteDenied)
                &&& end == dbs[0]
            }
        }),
{
    let c = s.claims->0;
    let id = spec_parse_i32(s.request->DeleteQuestion_qid@)->0;
    assert(h.take(0) =~= Seq::<DbReply>::empty());
    lemma_runs_past(s, h, dbs, 0);
    lemma_found_token_user(s, h, dbs, c);
    let u = first_user(h[0])->0;
    let t1 = h.take(1);
    assert(t1[0] == h[0]);
    lemma_runs_past(s, h, dbs, 1);
    lemma_step(s, h, dbs, 1);
    let t2 = h.take(2);
    assert(t2[0] == h[0] && t2[1] == h[1]);
    let owned = dbs[0].questions.filter(owned_question(u.id, id));
    assert(questions_of(h[1])->0.map_values(|q: Question| question_record(q)) == owned);
    assert(questions_of(h[1])->0.len() == owned.len());
    if owned.len() > 0 {
        lemma_runs_past(s, h, dbs, 2);
        lemma_step(s, h, dbs, 2);
        let t3 = h.take(3);
        assert(t3[0] == h[0] && t3[1] == h[1] && t3[2] == h[2]);
        lemma_runs_end(s, h, dbs, 3);
        assert(h =~= t3);
        let kept = dbs[0].questions.filter(question_without_id(id));
        assert forall|i: int| 0 <= i < kept.len() implies #[trigger] kept[i].id != id by {
            dbs[0].questions.lemma_filter_pred(question_without_id(id), i);
        }
    } else {
        lemma_runs_end(s, h, dbs, 2);
        assert(h =~= t2);
    }
}

} // verus!
