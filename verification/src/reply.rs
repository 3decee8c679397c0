use vstd::prelude::*;
use vstd::string::*;

use crate::models::{AnswerRow, QuestionRow};

verus! {

/// What an endpoint answers. Each reply has a message (see
/// [`Reply::message`]) and, for some, data.
pub enum Reply {
    Welcome,
    ProfilePictureStub,
    ForgotPasswordStub,
    LikeAnswerStub,
    DislikeAnswerStub,
    InvalidToken,
    QuestionList(Vec<QuestionRow>),
    QuestionDetail { qid: String, row: QuestionRow },
    QuestionCreated { question_text: String, tags: String },
    QuestionUpdated { question_text: String, tags: String },
    QuestionEditDenied,
    QuestionDeleted { qid: String },
    QuestionDeleteDenied,
    AnswerList(Vec<AnswerRow>),
    AnswerCreated { answer_text: String, question_id: i32 },
    Reacted { object_type: String, object_id: i32, reaction_type: String },
    AnswerUpdated { answer_text: String },
    AnswerEditDenied,
    AnswerDeleted { qid: String },
    AnswerDeleteDenied,
    LoginSuccess { token: String },
    LoginFailed,
    SignupSuccess { token: String },
    SignupPasswordMismatch,
    SignupUnavailable,
    PasswordChanged,
    NewPasswordMismatch,
    InvalidAccount,
    LogoutSuccess,
}

/// The message of each reply.
pub open spec fn reply_message(r: Reply) -> Seq<char> {
    match r {
        Reply::Welcome => "Welcome to RustForum API :D"@,
        Reply::ProfilePictureStub => "You call /change_profile_picture"@,
        Reply::ForgotPasswordStub => "You call /forgot_password"@,
        Reply::LikeAnswerStub => "You call POST /answer/<qid>/like"@,
        Reply::DislikeAnswerStub => "You call POST /answer/<qid>/dislike"@,
        Reply::InvalidToken => "Invalid token"@,
        Reply::QuestionList(_) => "Getting the question listss..."@,
        Reply::QuestionDetail { qid, .. } => "Getting the question with id: "@ + qid@,
        Reply::QuestionCreated { .. } => "Create the new question.."@,
        Reply::QuestionUpdated { .. } => "Update question is success.."@,
        Reply::QuestionEditDenied => "You are unauthorized to edit this question"@,
        Reply::QuestionDeleted { qid } => "Deleting the question with id: "@ + qid@,
        Reply::QuestionDeleteDenied => "You are unauthorized to delete this question"@,
        Reply::AnswerList(_) => "Getting the answer lists..."@,
        Reply::AnswerCreated { .. } => "Create the new answer is success.."@,
        Reply::Reacted { reaction_type, .. } => "Give "@ + reaction_type@ + " reaction is success.."@,
        Reply::AnswerUpdated { .. } => "Update answer is success.."@,
        Reply::AnswerEditDenied => "You are unauthorized to edit this answer"@,
        Reply::AnswerDeleted { qid } => "Deleting the answer with id: "@ + qid@,
        Reply::AnswerDeleteDenied => "You are unauthorized to delete this answer"@,
        Reply::LoginSuccess { .. } => "Login success"@,
        Reply::LoginFailed => "Login failed. User not found.."@,
        Reply::SignupSuccess { .. } => "Signup success"@,
        Reply::SignupPasswordMismatch => "Signup failed. Password and Confirm Password is not match.."@,
        Reply::SignupUnavailable => "Signup failed. Account is unavailable.."@,
        Reply::PasswordChanged => "Change password success.."@,
        Reply::NewPasswordMismatch => "New password with confirm new password is unmatch"@,
        Reply::InvalidAccount => "Invalid account"@,
        Reply::LogoutSuccess => "Logout success.."@,
    }
}

impl Reply {
    /// The message of the reply.
    pub fn message(&self) -> (m: String)
        ensures
            m@ == reply_message(*self),
    {
        match self {
            Reply::Welcome => String::from_str("Welcome to RustForum API :D"),
            Reply::ProfilePictureStub => String::from_str("You call /change_profile_picture"),
            Reply::ForgotPasswordStub => String::from_str("You call /forgot_password"),
            Reply::LikeAnswerStub => String::from_str("You call POST /answer/<qid>/like"),
            Reply::DislikeAnswerStub => String::from_str("You call POST /answer/<qid>/dislike"),
            Reply::InvalidToken => String::from_str("Invalid token"),
            Reply::QuestionList(_) => String::from_str("Getting the question listss..."),
            Reply::QuestionDetail { qid, .. } => String::from_str("Getting the question with id: ").concat(qid.as_str()),
            Reply::QuestionCreated { .. } => String::from_str("Create the new question.."),
            Reply::QuestionUpdated { .. } => String::from_str("Update question is success.."),
            Reply::QuestionEditDenied => String::from_str("You are unauthorized to edit this question"),
            Reply::QuestionDeleted { qid } => String::from_str("Deleting the question with id: ").concat(qid.as_str()),
            Reply::QuestionDeleteDenied => String::from_str("You are unauthorized to delete this question"),
            Reply::AnswerList(_) => String::from_str("Getting the answer lists..."),
            Reply::AnswerCreated { .. } => String::from_str("Create the new answer is success.."),
            Reply::Reacted { reaction_type, .. } => String::from_str("Give ").concat(reaction_type.as_str()).concat(" reaction is success.."),
            Reply::AnswerUpdated { .. } => String::from_str("Update answer is success.."),
            Reply::AnswerEditDenied => String::from_str("You are unauthorized to edit this answer"),
            Reply::AnswerDeleted { qid } => String::from_str("Deleting the answer with id: ").concat(qid.as_str()),
            Reply::AnswerDeleteDenied => String::from_str("You are unauthorized to delete this answer"),
            Reply::LoginSuccess { .. } => String::from_str("Login success"),
            Reply::LoginFailed => String::from_str("Login failed. User not found.."),
            Reply::SignupSuccess { .. } => String::from_str("Signup success"),
            Reply::SignupPasswordMismatch => String::from_str("Signup failed. Password and Confirm Password is not match.."),
            Reply::SignupUnavailable => String::from_str("Signup failed. Account is unavailable.."),
            Reply::PasswordChanged => String::from_str("Change password success.."),
            Reply::NewPasswordMismatch => String::from_str("New password with confirm new password is unmatch"),
            Reply::InvalidAccount => String::from_str("Invalid account"),
            Reply::LogoutSuccess => String::from_str("Logout success.."),
        }
    }
}

} // verus!
