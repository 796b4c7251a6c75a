//! The error type shared by every part of the library.

use crate::json::pretty_of;
use crate::json::pretty_text;
use crate::json::text_member;
use crate::json::text_members;
use vstd::prelude::*;
use vstd::string::StringExecFns;

verus! {

/// The HTTP crate's error, opaque to the verifier.
#[verifier::external_type_specification]
#[verifier::external_body]
pub struct ExHttpError(reqwest::Error);

/// The JSON crate's error, opaque to the verifier.
#[verifier::external_type_specification]
#[verifier::external_body]
pub struct ExJsonError(serde_json::Error);

/// The message of an answer that names none.
pub open spec fn no_message() -> Seq<char> {
    "No error message found in response."@
}

/// The member of that name, if the members hold it.
pub open spec fn member_of(members: Map<Seq<char>, Seq<char>>, name: Seq<char>) -> Option<
    Seq<char>,
> {
    if members.contains_key(name) {
        Some(members[name])
    } else {
        None
    }
}

/// The first of the texts that is there, in the order in which an answer is
/// searched for its message, or the message that says that none was found.
pub open spec fn first_message(
    msg: Option<Seq<char>>,
    message: Option<Seq<char>>,
    error: Option<Seq<char>>,
    ret_msg: Option<Seq<char>>,
    error_message: Option<Seq<char>>,
) -> Seq<char> {
    if msg is Some {
        msg->0
    } else if message is Some {
        message->0
    } else if error is Some {
        error->0
    } else if ret_msg is Some {
        ret_msg->0
    } else if error_message is Some {
        error_message->0
    } else {
        no_message()
    }
}

/// The message of an exchange's answer: the text of the first of the members
/// `msg`, `message`, `error`, `retMsg` and `error_message` that is a string.
pub open spec fn message_of(members: Map<Seq<char>, Seq<char>>) -> Seq<char> {
    first_message(
        member_of(members, "msg"@),
        member_of(members, "message"@),
        member_of(members, "error"@),
        member_of(members, "retMsg"@),
        member_of(members, "error_message"@),
    )
}

/// What an optional string is.
pub open spec fn text_view(text: Option<String>) -> Option<Seq<char>> {
    match text {
        Some(t) => Some(t@),
        None => None,
    }
}

/// The first of the texts that is there, or the message that says that none
/// was found.
pub fn message_from(
    msg: Option<String>,
    message: Option<String>,
    error: Option<String>,
    ret_msg: Option<String>,
    error_message: Option<String>,
) -> (found: String)
    ensures
        found@ == first_message(
            text_view(msg),
            text_view(message),
            text_view(error),
            text_view(ret_msg),
            text_view(error_message),
        ),
{
    if let Some(text) = msg {
        text
    } else if let Some(text) = message {
        text
    } else if let Some(text) = error {
        text
    } else if let Some(text) = ret_msg {
        text
    } else if let Some(text) = error_message {
        text
    } else {
        "No error message found in response.".to_owned()
    }
}

/// An answer by which an exchange refuses a request: the whole answer and
/// the message read from it.
#[derive(Debug)]
pub struct ExchangeResponseError {
    /// The answer as it came.
    pub resp: serde_json::Value,
    /// The message of the answer.
    pub message: String,
}

impl ExchangeResponseError {
    /// The error for an answer, with the message read from it.
    pub fn new(resp: serde_json::Value) -> (error: Self)
        ensures
            error.resp == resp,
            error.message@ == message_of(text_members(resp)),
    {
        let message = Self::extract_message(&resp);
        ExchangeResponseError { resp, message }
    }

    /// The message of an answer.
    pub fn extract_message(resp: &serde_json::Value) -> (message: String)
        ensures
            message@ == message_of(text_members(*resp)),
    {
        message_from(
            text_member(resp, "msg"),
            text_member(resp, "message"),
            text_member(resp, "error"),
            text_member(resp, "retMsg"),
            text_member(resp, "error_message"),
        )
    }

    /// The answer as indented JSON.
    pub fn pretty_response(&self) -> (text: String)
        ensures
            text@ == pretty_of(self.resp),
    {
        pretty_text(&self.resp)
    }

    /// The error as two lines: the message, then the answer as the text
    /// `answer`.
    pub open spec fn described_with(&self, answer: Seq<char>) -> Seq<char> {
        "ExchangeResponseError: "@ + self.message@ + "\nResponse: "@ + answer + "\n"@
    }

    /// The error as two lines: the message, then the answer as indented
    /// JSON.
    pub open spec fn described(&self) -> Seq<char> {
        self.described_with(pretty_of(self.resp))
    }

    /// The error as two lines: the message, then the answer as the text
    /// `answer`.
    pub fn describe_with(&self, answer: &str) -> (text: String)
        ensures
            text@ == self.described_with(answer@),
    {
        let mut text = "ExchangeResponseError: ".to_owned();
        text.append(self.message.as_str());
        text.append("\nResponse: ");
        text.append(answer);
        text.append("\n");
        text
    }

    /// The error as two lines: the message, then the answer.
    pub fn describe(&self) -> (text: String)
        ensures
            text@ == self.described(),
    {
        self.describe_with(self.pretty_response().as_str())
    }
}

/// Every way an operation of the library can fail.
#[derive(Debug)]
pub enum SdkError {
    /// The HTTP layer failed: a client could not be built or a request failed.
    Http(reqwest::Error),
    /// A body was not the JSON that was expected.
    Json(serde_json::Error),
    /// Credentials that a signed request needs are missing or unusable.
    Auth(String),
    /// The exchange refused the request.
    Exchange(ExchangeResponseError),
    /// The configuration is not usable.
    Config(String),
    /// An argument did not pass a check made before the request was built.
    Validation(String),
    /// The shared session is not in the state the operation needs.
    Session(String),
    /// A client cache could not serve the operation.
    Cache(String),
    /// The operation exists in the interface and has no implementation.
    NotImplemented(String),
}

/// `reqwest::Error` as text, by its `Display`. Nothing is claimed of the
/// text.
#[verifier::external_body]
fn http_error_text(error: &reqwest::Error) -> (text: String) {
    error.to_string()
}

/// `serde_json::Error` as text, by its `Display`. Nothing is claimed of the
/// text.
#[verifier::external_body]
fn json_error_text(error: &serde_json::Error) -> (text: String) {
    error.to_string()
}

impl SdkError {
    /// What stands before the detail of an error of this kind. The error of
    /// an exchange stands for itself.
    pub open spec fn label(&self) -> Seq<char> {
        match self {
            SdkError::Http(_) => "HTTP error: "@,
            SdkError::Json(_) => "JSON error: "@,
            SdkError::Auth(_) => "Authentication error: "@,
            SdkError::Exchange(_) => Seq::empty(),
            SdkError::Config(_) => "Configuration error: "@,
            SdkError::Validation(_) => "Validation error: "@,
            SdkError::Session(_) => "Session error: "@,
            SdkError::Cache(_) => "Cache error: "@,
            SdkError::NotImplemented(_) => "Not implemented: "@,
        }
    }

    /// The detail of the error, where the library states it.
    pub open spec fn detail(&self) -> Option<Seq<char>> {
        match self {
            SdkError::Http(_) => None,
            SdkError::Json(_) => None,
            SdkError::Auth(m) => Some(m@),
            SdkError::Exchange(refused) => Some(refused.described()),
            SdkError::Config(m) => Some(m@),
            SdkError::Validation(m) => Some(m@),
            SdkError::Session(m) => Some(m@),
            SdkError::Cache(m) => Some(m@),
            SdkError::NotImplemented(m) => Some(m@),
        }
    }

    /// The error as text: the label of its kind, then its detail.
    pub fn describe(&self) -> (text: String)
        ensures
            match self.detail() {
                Some(detail) => text@ == self.label() + detail,
                None => exists|detail: Seq<char>| text@ == self.label() + detail,
            },
    {
        let (label, detail) = match self {
            SdkError::Http(e) => ("HTTP error: ", http_error_text(e)),
            SdkError::Json(e) => ("JSON error: ", json_error_text(e)),
            SdkError::Auth(m) => ("Authentication error: ", m.clone()),
            SdkError::Exchange(e) => ("", e.describe()),
            SdkError::Config(m) => ("Configuration error: ", m.clone()),
            SdkError::Validation(m) => ("Validation error: ", m.clone()),
            SdkError::Session(m) => ("Session error: ", m.clone()),
            SdkError::Cache(m) => ("Cache error: ", m.clone()),
            SdkError::NotImplemented(m) => ("Not implemented: ", m.clone()),
        };
        proof {
            reveal_strlit("");
        }
        let mut text = label.to_owned();
        text.append(detail.as_str());
        assert(text@ == self.label() + detail@);
        text
    }
}

/// What an answer with the code `code` means: the answer itself where the
/// code is 0, and otherwise the error that the answer is.
pub fn judge_coded(answer: serde_json::Value, code: i64) -> (judged: Result<
    serde_json::Value,
    SdkError,
>)
    ensures
        match judged {
            Ok(value) => value == answer && code == 0,
            Err(e) => {
                &&& code != 0
                &&& e matches SdkError::Exchange(refused)
                &&& refused.resp == answer
                &&& refused.message@ == message_of(text_members(answer))
            },
        },
{
    if code != 0 {
        Err(SdkError::Exchange(ExchangeResponseError::new(answer)))
    } else {
        Ok(answer)
    }
}

/// What an exchange's answer means: the answer itself where its code is 0 or
/// missing, and otherwise the error that the answer is.
pub fn judge_answer(answer: serde_json::Value, code_name: &str) -> (judged: Result<
    serde_json::Value,
    SdkError,
>)
    ensures
        match judged {
            Ok(value) => value == answer && crate::json::code_of(answer, code_name@) == 0,
            Err(e) => {
                &&& crate::json::code_of(answer, code_name@) != 0
                &&& e matches SdkError::Exchange(refused)
                &&& refused.resp == answer
                &&& refused.message@ == message_of(text_members(answer))
            },
        },
{
    let code = crate::json::answer_code(&answer, code_name);
    judge_coded(answer, code)
}

} // verus!
