use base64::Engine;
use std::time::{Duration, SystemTime, UNIX_EPOCH};

use rustforum::claims::{decode_claims, issue_token, Claims, COMPANY, SECRET_KEY};
use rustforum::db::{DbReply, DbRequest};
use rustforum::models::{Answer, Question, User};
use rustforum::number::parse_i32;
use rustforum::reply::Reply;
use rustforum::session::{Abort, Request, Session, Step};
use rustforum::token::Token;

fn s(text: &str) -> String {
    text.to_string()
}

fn now() -> SystemTime {
    UNIX_EPOCH + Duration::from_secs(1_500_000_000)
}

fn claims(company: &str) -> Claims {
    Claims { sub: s("ann@example.com"), username: s("ann"), company: s(company) }
}

fn user(id: i32, password: &str) -> User {
    User {
        id,
        username: s("ann"),
        email: s("ann@example.com"),
        password: s(password),
        token: s(""),
        created_at: UNIX_EPOCH,
    }
}

fn question(id: i32, text: &str, user_id: i32) -> Question {
    Question { id, question_text: s(text), tags: s("rust"), created_at: UNIX_EPOCH, user_id }
}

fn answer(id: i32, text: &str, question_id: i32, user_id: i32) -> Answer {
    Answer { id, answer_text: s(text), question_id, user_id, created_at: UNIX_EPOCH }
}

fn open(request: Request) -> Session {
    Session::from_parts(request, Some(claims("Codepolitan")), now())
}

fn is_find_ann(step: &Step) -> bool {
    matches!(step, Step::Query(DbRequest::FindUser { username, email })
        if username == "ann" && email == "ann@example.com")
}

#[test]
fn claims_are_valid_only_for_the_company() {
    assert!(claims("Codepolitan").is_valid());
    assert!(!claims("codepolitan").is_valid());
    assert!(!claims("").is_valid());
    assert_eq!(COMPANY, "Codepolitan");
}

#[test]
fn issued_token_reads_back_as_valid_claims() {
    let token = issue_token("ann@example.com", "ann");
    assert_ne!(token, "ann@example.com");
    assert_eq!(token.split('.').count(), 3);
    let c = decode_claims(&token).expect("the token was issued by this service");
    assert_eq!(c.sub, "ann@example.com");
    assert_eq!(c.username, "ann");
    assert_eq!(c.company, "Codepolitan");
    assert!(c.is_valid());
}

#[test]
fn token_payload_lists_the_claims_in_declaration_order() {
    let token = issue_token("ann@example.com", "ann");
    let parts: Vec<&str> = token.split('.').collect();
    let header = base64::engine::general_purpose::URL_SAFE_NO_PAD.decode(parts[0]).unwrap();
    let payload = base64::engine::general_purpose::URL_SAFE_NO_PAD.decode(parts[1]).unwrap();
    assert_eq!(String::from_utf8(header).unwrap(), r#"{"typ":"JWT","alg":"HS256"}"#);
    assert_eq!(
        String::from_utf8(payload).unwrap(),
        r#"{"sub":"ann@example.com","username":"ann","company":"Codepolitan"}"#
    );
}

#[test]
fn tokens_are_deterministic() {
    assert_eq!(issue_token("a@b.c", "a"), issue_token("a@b.c", "a"));
    assert_ne!(issue_token("a@b.c", "a"), issue_token("a@b.c", "b"));
}

#[test]
fn forged_or_malformed_tokens_are_rejected() {
    assert!(decode_claims("").is_none());
    assert!(decode_claims("not a token").is_none());
    let token = issue_token("ann@example.com", "ann");
    let mut tampered = token.clone();
    tampered.push('x');
    assert!(decode_claims(&tampered).is_none());
    let mut claims = std::collections::BTreeMap::new();
    claims.insert("sub", "ann@example.com");
    claims.insert("username", "ann");
    claims.insert("company", "Codepolitan");
    let other_key = jsonwebtoken::EncodingKey::from_secret(b"another secret");
    let foreign = jsonwebtoken::encode(&jsonwebtoken::Header::default(), &claims, &other_key).unwrap();
    assert!(decode_claims(&foreign).is_none());
    let own_key = jsonwebtoken::EncodingKey::from_secret(SECRET_KEY.as_bytes());
    let genuine = jsonwebtoken::encode(&jsonwebtoken::Header::default(), &claims, &own_key).unwrap();
    assert!(decode_claims(&genuine).is_some());
}

#[test]
fn tokens_missing_a_claim_are_rejected() {
    let own_key = jsonwebtoken::EncodingKey::from_secret(SECRET_KEY.as_bytes());
    let mut claims = std::collections::BTreeMap::new();
    claims.insert("sub", "ann@example.com");
    claims.insert("username", "ann");
    let token = jsonwebtoken::encode(&jsonwebtoken::Header::default(), &claims, &own_key).unwrap();
    assert!(decode_claims(&token).is_none());
}

#[test]
fn extra_claims_are_ignored() {
    let own_key = jsonwebtoken::EncodingKey::from_secret(SECRET_KEY.as_bytes());
    let mut claims = std::collections::BTreeMap::new();
    claims.insert("sub", serde_json::Value::from("ann@example.com"));
    claims.insert("username", serde_json::Value::from("ann"));
    claims.insert("company", serde_json::Value::from("Other"));
    claims.insert("exp", serde_json::Value::from(1));
    let token = jsonwebtoken::encode(&jsonwebtoken::Header::default(), &claims, &own_key).unwrap();
    let c = decode_claims(&token).expect("extra claims do not matter");
    assert_eq!(c.company, "Other");
    assert!(!c.is_valid());
}

#[test]
fn a_request_needs_exactly_one_token_header() {
    assert!(Token::from_headers(vec![]).is_none());
    assert!(Token::from_headers(vec![s("a"), s("b")]).is_none());
    assert_eq!(Token::from_headers(vec![s("abc")]).unwrap().0, "abc");
}

#[test]
fn ids_are_read_like_str_parse() {
    for text in ["0", "42", "-7", "+3", "007", "2147483647", "-2147483648", "", "+", "-", "2147483648",
        "-2147483649", "12a", " 1", "1 ", "--1", "+-1", "99999999999999999999", "١"] {
        assert_eq!(parse_i32(text), text.parse::<i32>().ok(), "{:?}", text);
    }
}

#[test]
fn messages_of_replies() {
    assert_eq!(Reply::Welcome.message(), "Welcome to RustForum API :D");
    assert_eq!(Reply::InvalidToken.message(), "Invalid token");
    assert_eq!(Reply::QuestionList(vec![]).message(), "Getting the question listss...");
    assert_eq!(
        Reply::QuestionDetail { qid: s("5"), row: question(5, "q", 1).row() }.message(),
        "Getting the question with id: 5"
    );
    assert_eq!(Reply::QuestionDeleted { qid: s("12") }.message(), "Deleting the question with id: 12");
    assert_eq!(Reply::AnswerDeleted { qid: s("3") }.message(), "Deleting the answer with id: 3");
    assert_eq!(
        Reply::Reacted { object_type: s("question"), object_id: 1, reaction_type: s("dislike") }.message(),
        "Give dislike reaction is success.."
    );
    assert_eq!(Reply::QuestionEditDenied.message(), "You are unauthorized to edit this question");
    assert_eq!(Reply::LoginFailed.message(), "Login failed. User not found..");
    assert_eq!(
        Reply::SignupPasswordMismatch.message(),
        "Signup failed. Password and Confirm Password is not match.."
    );
    assert_eq!(Reply::NewPasswordMismatch.message(), "New password with confirm new password is unmatch");
    assert_eq!(Reply::LogoutSuccess.message(), "Logout success..");
}

#[test]
fn index_answers_without_the_database() {
    let session = Session::new(Request::Index, now());
    assert!(matches!(session.next_step(&vec![]), Step::Respond(Reply::Welcome)));
    assert!(matches!(session.next_step(&vec![DbReply::Done]), Step::Abort(Abort::OutOfSequence)));
    let session = Session::new(Request::ChangeProfilePicture, now());
    assert_eq!(
        match session.next_step(&vec![]) {
            Step::Respond(r) => r.message(),
            _ => panic!(),
        },
        "You call /change_profile_picture"
    );
}

#[test]
fn a_genuine_token_opens_a_session() {
    let token = issue_token("ann@example.com", "ann");
    let session = Session::new(Request::ListQuestions { token }, now());
    assert!(session.claims.as_ref().unwrap().is_valid());
    assert!(matches!(session.next_step(&vec![]), Step::Query(DbRequest::LoadQuestions)));
}

#[test]
fn a_bad_token_is_rejected_before_the_database() {
    let session = Session::new(Request::MyQuestions { token: s("garbage") }, now());
    assert!(session.claims.is_none());
    assert!(matches!(session.next_step(&vec![]), Step::Abort(Abort::TokenRejected)));
}

#[test]
fn claims_of_another_company_get_invalid_token() {
    let session = Session::from_parts(Request::ListQuestions { token: s("t") }, Some(claims("Acme")), now());
    assert!(matches!(session.next_step(&vec![]), Step::Respond(Reply::InvalidToken)));
    assert!(matches!(session.next_step(&vec![DbReply::Done]), Step::Abort(Abort::OutOfSequence)));
    let session = Session::from_parts(Request::ForgotPassword { token: s("t") }, Some(claims("Acme")), now());
    assert!(is_find_ann(&session.next_step(&vec![])));
}

#[test]
fn list_questions_shows_rows() {
    let session = open(Request::ListQuestions { token: s("t") });
    let h = vec![DbReply::Questions(vec![question(1, "first?", 7), question(2, "second?", 8)])];
    match session.next_step(&h) {
        Step::Respond(Reply::QuestionList(rows)) => {
            assert_eq!(rows.len(), 2);
            assert_eq!(rows[0].question_id, 1);
            assert_eq!(rows[1].question_text, "second?");
            assert_eq!(rows[1].user_id, 8);
        },
        _ => panic!("expected the list"),
    }
    assert!(matches!(session.next_step(&vec![DbReply::Failed]), Step::Abort(Abort::DbFailure)));
}

#[test]
fn my_questions_are_those_of_the_token_user() {
    let session = open(Request::MyQuestions { token: s("t") });
    assert!(is_find_ann(&session.next_step(&vec![])));
    let h = vec![DbReply::Users(vec![user(7, "pw")])];
    assert!(matches!(session.next_step(&h), Step::Query(DbRequest::LoadQuestionsOfUser { user_id: 7 })));
    let h = vec![DbReply::Users(vec![])];
    assert!(matches!(session.next_step(&h), Step::Abort(Abort::DbFailure)));
}

#[test]
fn get_question_by_id() {
    let session = open(Request::GetQuestion { token: s("t"), qid: s("5") });
    assert!(matches!(session.next_step(&vec![]), Step::Query(DbRequest::FindQuestion { question_id: 5 })));
    let h = vec![DbReply::Questions(vec![question(5, "why?", 2)])];
    match session.next_step(&h) {
        Step::Respond(r @ Reply::QuestionDetail { .. }) => {
            assert_eq!(r.message(), "Getting the question with id: 5");
        },
        _ => panic!(),
    }
    let session = session_bad_id();
    assert!(matches!(session.next_step(&vec![]), Step::Abort(Abort::BadId)));
}

fn session_bad_id() -> Session {
    open(Request::GetQuestion { token: s("t"), qid: s("five") })
}

#[test]
fn create_question_as_the_token_user() {
    let session = open(Request::CreateQuestion { token: s("t"), question_text: s("How?"), tags: s("rust") });
    let h = vec![DbReply::Users(vec![user(3, "pw")])];
    match session.next_step(&h) {
        Step::Query(DbRequest::InsertQuestion { question }) => {
            assert_eq!(question.user_id, 3);
            assert_eq!(question.question_text, "How?");
            assert_eq!(question.tags, "rust");
            assert_eq!(question.created_at, now());
        },
        _ => panic!(),
    }
    let h = vec![DbReply::Users(vec![user(3, "pw")]), DbReply::Done];
    assert!(matches!(session.next_step(&h),
        Step::Respond(Reply::QuestionCreated { question_text, tags }) if question_text == "How?" && tags == "rust"));
}

#[test]
fn only_the_owner_updates_a_question() {
    let session = open(Request::UpdateQuestion {
        token: s("t"),
        qid: s("9"),
        question_text: s("new text"),
        tags: s("ignored"),
    });
    let found = DbReply::Users(vec![user(3, "pw")]);
    assert!(matches!(session.next_step(&vec![found]),
        Step::Query(DbRequest::LoadOwnedQuestions { user_id: 3, question_id: 9 })));
    let h = vec![DbReply::Users(vec![user(3, "pw")]), DbReply::Questions(vec![])];
    assert!(matches!(session.next_step(&h), Step::Respond(Reply::QuestionEditDenied)));
    let h = vec![DbReply::Users(vec![user(3, "pw")]), DbReply::Questions(vec![question(9, "old", 3)])];
    assert!(matches!(session.next_step(&h),
        Step::Query(DbRequest::SetQuestionText { question_id: 9, question_text }) if question_text == "new text"));
    let h = vec![
        DbReply::Users(vec![user(3, "pw")]),
        DbReply::Questions(vec![question(9, "old", 3)]),
        DbReply::Questions(vec![question(9, "new text", 3)]),
    ];
    assert!(matches!(session.next_step(&h),
        Step::Respond(Reply::QuestionUpdated { question_text, tags }) if question_text == "new text" && tags == "rust"));
}

#[test]
fn only_the_owner_deletes_a_question() {
    let session = open(Request::DeleteQuestion { token: s("t"), qid: s("9") });
    let h = vec![DbReply::Users(vec![user(3, "pw")]), DbReply::Questions(vec![])];
    assert!(matches!(session.next_step(&h), Step::Respond(Reply::QuestionDeleteDenied)));
    let h = vec![DbReply::Users(vec![user(3, "pw")]), DbReply::Questions(vec![question(9, "q", 3)])];
    assert!(matches!(session.next_step(&h), Step::Query(DbRequest::DeleteQuestion { question_id: 9 })));
    let h = vec![DbReply::Users(vec![user(3, "pw")]), DbReply::Questions(vec![question(9, "q", 3)]), DbReply::Done];
    assert!(matches!(session.next_step(&h), Step::Respond(Reply::QuestionDeleted { qid }) if qid == "9"));
    let bad = open(Request::DeleteQuestion { token: s("t"), qid: s("x") });
    assert!(is_find_ann(&bad.next_step(&vec![])));
    assert!(matches!(bad.next_step(&vec![DbReply::Users(vec![user(3, "pw")])]), Step::Abort(Abort::BadId)));
}

#[test]
fn answers_of_a_question() {
    let session = open(Request::GetAnswers { token: s("t"), qid: s("4") });
    assert!(matches!(session.next_step(&vec![]), Step::Query(DbRequest::LoadAnswersOfQuestion { question_id: 4 })));
    let h = vec![DbReply::Answers(vec![answer(1, "yes", 4, 2)])];
    match session.next_step(&h) {
        Step::Respond(Reply::AnswerList(rows)) => {
            assert_eq!(rows.len(), 1);
            assert_eq!(rows[0].answer_id, 1);
            assert_eq!(rows[0].answer_text, "yes");
        },
        _ => panic!(),
    }
}

#[test]
fn set_answer_as_the_token_user() {
    let session = open(Request::SetAnswer { token: s("t"), qid: s("4"), answer_text: s("because") });
    assert!(is_find_ann(&session.next_step(&vec![])));
    match session.next_step(&vec![DbReply::Users(vec![user(6, "pw")])]) {
        Step::Query(DbRequest::InsertAnswer { answer }) => {
            assert_eq!((answer.question_id, answer.user_id), (4, 6));
            assert_eq!(answer.answer_text, "because");
        },
        _ => panic!(),
    }
    let h = vec![DbReply::Users(vec![user(6, "pw")]), DbReply::Done];
    assert!(matches!(session.next_step(&h), Step::Respond(Reply::AnswerCreated { question_id: 4, .. })));
    let bad = open(Request::SetAnswer { token: s("t"), qid: s(""), answer_text: s("x") });
    assert!(matches!(bad.next_step(&vec![]), Step::Abort(Abort::BadId)));
}

#[test]
fn like_and_dislike_a_question() {
    let like = open(Request::LikeQuestion { token: s("t"), qid: s("8") });
    match like.next_step(&vec![DbReply::Users(vec![user(6, "pw")])]) {
        Step::Query(DbRequest::InsertReaction { reaction }) => {
            assert_eq!(reaction.object_type, "question");
            assert_eq!(reaction.reaction_type, "like");
            assert_eq!((reaction.object_id, reaction.user_id), (8, 6));
        },
        _ => panic!(),
    }
    let dislike = open(Request::DislikeQuestion { token: s("t"), qid: s("8") });
    let h = vec![DbReply::Users(vec![user(6, "pw")]), DbReply::Done];
    match dislike.next_step(&h) {
        Step::Respond(r) => assert_eq!(r.message(), "Give dislike reaction is success.."),
        _ => panic!(),
    }
}

#[test]
fn only_the_owner_updates_or_deletes_an_answer() {
    let update = open(Request::UpdateAnswer { token: s("t"), qid: s("2"), answer_text: s("better") });
    let h = vec![DbReply::Users(vec![user(3, "pw")])];
    assert!(matches!(update.next_step(&h), Step::Query(DbRequest::LoadOwnedAnswers { user_id: 3, answer_id: 2 })));
    let h = vec![DbReply::Users(vec![user(3, "pw")]), DbReply::Answers(vec![])];
    assert!(matches!(update.next_step(&h), Step::Respond(Reply::AnswerEditDenied)));
    let h = vec![DbReply::Users(vec![user(3, "pw")]), DbReply::Answers(vec![answer(2, "old", 1, 3)])];
    assert!(matches!(update.next_step(&h),
        Step::Query(DbRequest::SetAnswerText { answer_id: 2, answer_text }) if answer_text == "better"));
    let delete = open(Request::DeleteAnswer { token: s("t"), qid: s("2") });
    let h = vec![DbReply::Users(vec![user(3, "pw")]), DbReply::Answers(vec![])];
    assert!(matches!(delete.next_step(&h), Step::Respond(Reply::AnswerDeleteDenied)));
    let h = vec![DbReply::Users(vec![user(3, "pw")]), DbReply::Answers(vec![answer(2, "a", 1, 3)]), DbReply::Done];
    assert!(matches!(delete.next_step(&h), Step::Respond(Reply::AnswerDeleted { qid }) if qid == "2"));
}

#[test]
fn login_stores_and_answers_a_fresh_token() {
    let session = Session::new(Request::Login { username: s("ann"), password: s("pw") }, now());
    assert!(matches!(session.next_step(&vec![]),
        Step::Query(DbRequest::LoadUsersByLogin { username, password }) if username == "ann" && password == "pw"));
    assert!(matches!(session.next_step(&vec![DbReply::Users(vec![])]), Step::Respond(Reply::LoginFailed)));
    let h = vec![DbReply::Users(vec![user(3, "pw")]), DbReply::Users(vec![user(3, "pw")])];
    let stored = match session.next_step(&h) {
        Step::Query(DbRequest::SetUserToken { user_id: 3, token }) => token,
        _ => panic!(),
    };
    assert_eq!(stored, issue_token("ann@example.com", "ann"));
    let h = vec![DbReply::Users(vec![user(3, "pw")]), DbReply::Users(vec![user(3, "pw")]), DbReply::Users(vec![user(3, "pw")])];
    assert!(matches!(session.next_step(&h), Step::Respond(Reply::LoginSuccess { token }) if token == stored));
}

#[test]
fn signup_checks_account_and_confirmation() {
    let request = |confirm: &str| Request::Signup {
        username: s("bob"),
        password: s("secret"),
        confirm_password: s(confirm),
        email: s("bob@example.com"),
    };
    let session = Session::new(request("secret"), now());
    assert!(matches!(session.next_step(&vec![]),
        Step::Query(DbRequest::LoadUsersByAccount { email, username }) if email == "bob@example.com" && username == "bob"));
    assert!(matches!(session.next_step(&vec![DbReply::Users(vec![user(1, "x")])]), Step::Respond(Reply::SignupUnavailable)));
    let mismatch = Session::new(request("other"), now());
    assert!(matches!(mismatch.next_step(&vec![DbReply::Users(vec![])]), Step::Respond(Reply::SignupPasswordMismatch)));
    let inserted = match session.next_step(&vec![DbReply::Users(vec![])]) {
        Step::Query(DbRequest::InsertUser { user }) => user,
        _ => panic!(),
    };
    assert_eq!(inserted.username, "bob");
    assert_eq!(inserted.password, "secret");
    assert_eq!(inserted.token, issue_token("bob@example.com", "bob"));
    let h = vec![DbReply::Users(vec![]), DbReply::Done];
    assert!(matches!(session.next_step(&h), Step::Respond(Reply::SignupSuccess { token }) if token == inserted.token));
}

#[test]
fn change_password_needs_the_old_one_and_a_confirmation() {
    let request = |old: &str, confirm: &str| Request::ChangePassword {
        token: s("t"),
        password: s(old),
        new_password: s("new"),
        confirm_new_password: s(confirm),
    };
    let h = vec![DbReply::Users(vec![user(3, "old")])];
    assert!(matches!(open(request("wrong", "new")).next_step(&h), Step::Respond(Reply::InvalidAccount)));
    assert!(matches!(open(request("old", "newer")).next_step(&h), Step::Respond(Reply::NewPasswordMismatch)));
    assert!(matches!(open(request("old", "new")).next_step(&h),
        Step::Query(DbRequest::SetUserPassword { user_id: 3, password }) if password == "new"));
    let h = vec![DbReply::Users(vec![user(3, "old")]), DbReply::Users(vec![user(3, "new")])];
    assert!(matches!(open(request("old", "new")).next_step(&h), Step::Respond(Reply::PasswordChanged)));
}

#[test]
fn logout_clears_the_stored_token() {
    let session = open(Request::Logout { token: s("t") });
    assert!(matches!(session.next_step(&vec![DbReply::Users(vec![user(3, "pw")])]),
        Step::Query(DbRequest::SetUserToken { user_id: 3, token }) if token.is_empty()));
    let h = vec![DbReply::Users(vec![user(3, "pw")]), DbReply::Users(vec![user(3, "pw")])];
    assert!(matches!(session.next_step(&h), Step::Respond(Reply::LogoutSuccess)));
}

#[test]
fn stubs_look_the_user_up_then_answer() {
    for (request, message) in [
        (Request::LikeAnswer { token: s("t"), qid: s("x") }, "You call POST /answer/<qid>/like"),
        (Request::DislikeAnswer { token: s("t"), qid: s("x") }, "You call POST /answer/<qid>/dislike"),
        (Request::ForgotPassword { token: s("t") }, "You call /forgot_password"),
    ] {
        let session = open(request);
        assert!(is_find_ann(&session.next_step(&vec![])));
        match session.next_step(&vec![DbReply::Users(vec![user(1, "pw")])]) {
            Step::Respond(r) => assert_eq!(r.message(), message),
            _ => panic!(),
        }
        assert!(matches!(session.next_step(&vec![DbReply::Users(vec![])]), Step::Abort(Abort::DbFailure)));
    }
}

#[test]
fn replies_after_the_end_are_out_of_sequence() {
    let session = open(Request::ListQuestions { token: s("t") });
    let h = vec![DbReply::Questions(vec![]), DbReply::Done];
    assert!(matches!(session.next_step(&h), Step::Abort(Abort::OutOfSequence)));
    let h = vec![DbReply::Answers(vec![])];
    assert!(matches!(session.next_step(&h), Step::Abort(Abort::DbFailure)));
}

#[test]
fn a_second_delete_of_a_question_is_denied() {
    let first = open(Request::DeleteQuestion { token: s("t"), qid: s("9") });
    let h = vec![DbReply::Users(vec![user(3, "pw")]), DbReply::Questions(vec![question(9, "q", 3)]), DbReply::Done];
    assert!(matches!(first.next_step(&h), Step::Respond(Reply::QuestionDeleted { qid }) if qid == "9"));
    let second = open(Request::DeleteQuestion { token: s("t"), qid: s("9") });
    assert!(is_find_ann(&second.next_step(&vec![])));
    assert!(matches!(second.next_step(&vec![DbReply::Users(vec![user(3, "pw")])]),
        Step::Query(DbRequest::LoadOwnedQuestions { user_id: 3, question_id: 9 })));
    let h = vec![DbReply::Users(vec![user(3, "pw")]), DbReply::Questions(vec![])];
    assert!(matches!(second.next_step(&h), Step::Respond(Reply::QuestionDeleteDenied)));
}

#[test]
fn repeating_an_update_asks_and_answers_the_same() {
    let request = || Request::UpdateQuestion {
        token: s("t"),
        qid: s("9"),
        question_text: s("new text"),
        tags: s("ignored"),
    };
    let first = open(request());
    let second = open(request());
    let before = || vec![DbReply::Users(vec![user(3, "pw")]), DbReply::Questions(vec![question(9, "old", 3)])];
    let again = || vec![DbReply::Users(vec![user(3, "pw")]), DbReply::Questions(vec![question(9, "new text", 3)])];
    assert!(matches!(first.next_step(&before()),
        Step::Query(DbRequest::SetQuestionText { question_id: 9, question_text }) if question_text == "new text"));
    assert!(matches!(second.next_step(&again()),
        Step::Query(DbRequest::SetQuestionText { question_id: 9, question_text }) if question_text == "new text"));
    let mut h1 = before();
    h1.push(DbReply::Questions(vec![question(9, "new text", 3)]));
    let mut h2 = again();
    h2.push(DbReply::Questions(vec![question(9, "new text", 3)]));
    let r1 = first.next_step(&h1);
    let r2 = second.next_step(&h2);
    assert!(matches!(&r1, Step::Respond(Reply::QuestionUpdated { question_text, tags }) if question_text == "new text" && tags == "rust"));
    assert!(matches!(&r2, Step::Respond(Reply::QuestionUpdated { question_text, tags }) if question_text == "new text" && tags == "rust"));
}

#[test]
fn login_after_signup_answers_the_signup_token() {
    let signup = Session::new(
        Request::Signup {
            username: s("bob"),
            password: s("secret"),
            confirm_password: s("secret"),
            email: s("bob@example.com"),
        },
        now(),
    );
    let signed = match signup.next_step(&vec![DbReply::Users(vec![]), DbReply::Done]) {
        Step::Respond(Reply::SignupSuccess { token }) => token,
        _ => panic!(),
    };
    let bob = || User {
        id: 7,
        username: s("bob"),
        email: s("bob@example.com"),
        password: s("secret"),
        token: signed.clone(),
        created_at: now(),
    };
    let login = Session::new(Request::Login { username: s("bob"), password: s("secret") }, now());
    let h = vec![DbReply::Users(vec![bob()]), DbReply::Users(vec![bob()])];
    assert!(matches!(login.next_step(&h), Step::Query(DbRequest::SetUserToken { user_id: 7, token }) if token == signed));
    let h = vec![DbReply::Users(vec![bob()]), DbReply::Users(vec![bob()]), DbReply::Users(vec![bob()])];
    assert!(matches!(login.next_step(&h), Step::Respond(Reply::LoginSuccess { token }) if token == signed));
}
