//! The rewrite client without its network call: the prompt that goes out, and
//! what to make of the reply that comes back.

use crate::chat::{answer_of, first_answer, ChatResponse};
use crate::text::{
    delimited, extract, fill, filled, is_capture, is_tight, law_trimmed_is_tight, trim, trimmed,
};
use vstd::prelude::*;
use vstd::string::StringExecFns;

verus! {

/// Why a rewrite gave no text.
#[derive(Clone, Copy, Debug, PartialEq, Eq)]
pub enum RewriteError {
    /// The service could not be reached.
    Network,
    /// The service answered with a status other than success.
    ApiStatus(u16),
    /// The body of the response did not have the expected shape.
    Decode,
}

/// The decimal digit `d`.
pub open spec fn digit(d: nat) -> char {
    if d == 0 {
        '0'
    } else if d == 1 {
        '1'
    } else if d == 2 {
        '2'
    } else if d == 3 {
        '3'
    } else if d == 4 {
        '4'
    } else if d == 5 {
        '5'
    } else if d == 6 {
        '6'
    } else if d == 7 {
        '7'
    } else if d == 8 {
        '8'
    } else {
        '9'
    }
}

/// `n` in decimal notation, without leading zeros.
pub open spec fn decimal(n: nat) -> Seq<char>
    decreases n,
{
    if n < 10 {
        seq![digit(n)]
    } else {
        decimal(n / 10).push(digit(n % 10))
    }
}

fn digit_text(d: u16) -> (text: &'static str)
    requires
        d < 10,
    ensures
        text@ == seq![digit(d as nat)],
{
    proof {
        reveal_strlit("0");
        reveal_strlit("1");
        reveal_strlit("2");
        reveal_strlit("3");
        reveal_strlit("4");
        reveal_strlit("5");
        reveal_strlit("6");
        reveal_strlit("7");
        reveal_strlit("8");
        reveal_strlit("9");
    }
    let text = if d == 0 {
        "0"
    } else if d == 1 {
        "1"
    } else if d == 2 {
        "2"
    } else if d == 3 {
        "3"
    } else if d == 4 {
        "4"
    } else if d == 5 {
        "5"
    } else if d == 6 {
        "6"
    } else if d == 7 {
        "7"
    } else if d == 8 {
        "8"
    } else {
        "9"
    };
    assert(text@ =~= seq![digit(d as nat)]);
    text
}

/// `n` in decimal notation.
pub fn decimal_text(n: u16) -> (text: String)
    ensures
        text@ == decimal(n as nat),
    decreases n,
{
    if n < 10 {
        digit_text(n).to_owned()
    } else {
        let mut text = decimal_text(n / 10);
        text.append(digit_text(n % 10));
        text
    }
}

impl RewriteError {
    /// The message shown to the user.
    pub open spec fn text(self) -> Seq<char> {
        match self {
            RewriteError::Network => "Network failure"@,
            RewriteError::ApiStatus(code) => "OpenAI API error: "@ + decimal(code as nat),
            RewriteError::Decode => "Could not decode the response"@,
        }
    }

    /// The message shown to the user.
    pub fn message(&self) -> (text: String)
        ensures
            text@ == self.text(),
    {
        match self {
            RewriteError::Network => "Network failure".to_owned(),
            RewriteError::ApiStatus(code) => {
                let mut text = "OpenAI API error: ".to_owned();
                let number = decimal_text(*code);
                text.append(number.as_str());
                text
            },
            RewriteError::Decode => "Could not decode the response".to_owned(),
        }
    }
}

/// The prompt for `text`: the template with each `{text}` replaced by `text`
/// without the white space around it.
pub open spec fn prompt_of(template: Seq<char>, text: Seq<char>) -> Seq<char> {
    filled(template, trimmed(text))
}

/// The prompt for `text`. An empty text is put in like any other.
pub fn prompt_for(template: &str, text: &str) -> (prompt: String)
    ensures
        prompt@ == prompt_of(template@, text@),
{
    let kept = trim(text);
    fill(template, kept.as_str())
}

/// The text that stands in for an answer without delimiters.
pub open spec fn sentinel() -> Seq<char> {
    "No response"@
}

/// What is handed on of a model's answer: what stands between its first pair
/// of delimiters, without the white space around it, or the sentinel where
/// nothing does; then one space.
pub open spec fn polished(answer: Seq<char>) -> Seq<char> {
    match delimited(answer) {
        Some(text) => trimmed(text).push(' '),
        None => sentinel().push(' '),
    }
}

/// What is handed on of a model's answer.
pub fn polish(answer: &str) -> (text: String)
    ensures
        text@ == polished(answer@),
{
    let mut text = match extract(answer) {
        Some(found) => trim(found.as_str()),
        None => "No response".to_owned(),
    };
    let ghost before = text@;
    proof {
        reveal_strlit(" ");
    }
    text.append(" ");
    assert(text@ =~= before.push(' '));
    text
}

/// An answer without `<` or without `>` has no delimiters, so the sentinel
/// is handed on.
pub proof fn law_no_delimiters_sentinel(answer: Seq<char>)
    requires
        !answer.contains('<') || !answer.contains('>'),
    ensures
        delimited(answer) is None,
        polished(answer) == sentinel().push(' '),
{
    assert forall|a: int, b: int| !is_capture(answer, a, b) by {
        if is_capture(answer, a, b) {
            assert(answer[a] == '<' && answer[b] == '>');
            assert(answer.contains('<') && answer.contains('>'));
        }
    }
}

/// What is handed on always ends with the one space that is appended, and
/// what stands before that space neither starts nor ends with white space.
pub proof fn law_polished_shape(answer: Seq<char>)
    ensures
        polished(answer).len() > 0,
        polished(answer).last() == ' ',
        is_tight(polished(answer).drop_last()),
{
    match delimited(answer) {
        Some(text) => {
            law_trimmed_is_tight(text);
            assert(trimmed(text).push(' ').drop_last() =~= trimmed(text));
        },
        None => {
            reveal_strlit("No response");
            assert(sentinel().push(' ').drop_last() =~= sentinel());
        },
    }
}

/// Whether a status reports success: 200 to 299.
pub open spec fn succeeded(status: u16) -> bool {
    200 <= status <= 299
}

/// Whether a status reports success.
pub fn is_success(status: u16) -> (success: bool)
    ensures
        success == succeeded(status),
{
    200 <= status && status <= 299
}

/// What came back from the service.
#[derive(Debug)]
pub enum HttpReply {
    /// No response arrived.
    Unreachable,
    /// A response arrived. `body` is its decoded body, or `None` where it
    /// could not be decoded.
    Answered { status: u16, body: Option<ChatResponse> },
}

/// The model's answer in a reply. The status is looked at before the body:
/// a status other than success is reported as such, whatever the body holds.
pub open spec fn response_of(reply: HttpReply) -> Result<Seq<char>, RewriteError> {
    match reply {
        HttpReply::Unreachable => Err(RewriteError::Network),
        HttpReply::Answered { status, body } => if !succeeded(status) {
            Err(RewriteError::ApiStatus(status))
        } else {
            match body {
                Some(chat) => Ok(answer_of(chat)),
                None => Err(RewriteError::Decode),
            }
        },
    }
}

/// The rewritten text in a reply.
pub open spec fn rewritten(reply: HttpReply) -> Result<Seq<char>, RewriteError> {
    match response_of(reply) {
        Ok(answer) => Ok(polished(answer)),
        Err(error) => Err(error),
    }
}

/// The model's answer in a reply from the service.
pub fn get_openai_response(reply: &HttpReply) -> (answer: Result<String, RewriteError>)
    ensures
        match answer {
            Ok(text) => response_of(*reply) == Ok::<Seq<char>, RewriteError>(text@),
            Err(error) => response_of(*reply) == Err::<Seq<char>, RewriteError>(error),
        },
        *reply matches HttpReply::Answered { status, .. } ==> (!succeeded(status) ==> answer
            == Err::<String, RewriteError>(RewriteError::ApiStatus(status))),
{
    match reply {
        HttpReply::Unreachable => Err(RewriteError::Network),
        HttpReply::Answered { status, body } => {
            if !is_success(*status) {
                return Err(RewriteError::ApiStatus(*status));
            }
            match body {
                Some(chat) => Ok(first_answer(chat)),
                None => Err(RewriteError::Decode),
            }
        },
    }
}

/// The rewritten text in a reply from the service: the model's answer,
/// polished. A reply without a usable answer is an error; an answer without
/// delimiters is not, and gives the sentinel.
pub fn improve(reply: &HttpReply) -> (text: Result<String, RewriteError>)
    ensures
        match text {
            Ok(text) => rewritten(*reply) == Ok::<Seq<char>, RewriteError>(text@),
            Err(error) => rewritten(*reply) == Err::<Seq<char>, RewriteError>(error),
        },
        *reply matches HttpReply::Answered { status, .. } ==> (!succeeded(status) ==> text
            == Err::<String, RewriteError>(RewriteError::ApiStatus(status))),
{
    match get_openai_response(reply) {
        Ok(answer) => Ok(polish(answer.as_str())),
        Err(error) => Err(error),
    }
}

} // verus!
