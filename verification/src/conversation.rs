use vstd::prelude::*;
use vstd::string::*;

verus! {

/// How the PAM application is asked to show a text.
#[derive(Debug, Clone, Copy, PartialEq, Eq)]
pub enum MessageStyle {
    /// A prompt whose answer is not echoed (a password).
    PromptEchoOff,
    /// A prompt whose answer is echoed.
    PromptEchoOn,
    /// An error message.
    ErrorMsg,
    /// An informational message.
    TextInfo,
    /// A yes/no question.
    RadioType,
}

/// The kind of a message that a sub-service shows.
#[derive(Debug, Clone, Copy, PartialEq, Eq)]
pub enum MessageType {
    Info,
    Error,
}

impl MessageType {
    /// The style in which a message of this kind is shown.
    pub fn style(&self) -> (s: MessageStyle)
        ensures
            s == (match *self {
                MessageType::Info => MessageStyle::TextInfo,
                MessageType::Error => MessageStyle::ErrorMsg,
            }),
    {
        match self {
            MessageType::Info => MessageStyle::TextInfo,
            MessageType::Error => MessageStyle::ErrorMsg,
        }
    }
}

/// A message that a sub-service wants shown to the user.
pub struct Message {
    pub message_type: MessageType,
    pub message: String,
}

/// Whether the answer to a prompt is echoed.
#[derive(Debug, Clone, Copy, PartialEq, Eq)]
pub enum PromptType {
    Echo,
    Blind,
}

impl PromptType {
    /// The style in which a prompt of this kind is shown.
    pub fn style(&self) -> (s: MessageStyle)
        ensures
            s == (match *self {
                PromptType::Echo => MessageStyle::PromptEchoOn,
                PromptType::Blind => MessageStyle::PromptEchoOff,
            }),
    {
        match self {
            PromptType::Echo => MessageStyle::PromptEchoOn,
            PromptType::Blind => MessageStyle::PromptEchoOff,
        }
    }
}

/// A prompt to show to the user.
pub struct PromptInput {
    pub prompt_type: PromptType,
    pub message: String,
}

/// The kind of a question that a sub-service asks the user.
#[derive(Debug, Clone, Copy, PartialEq, Eq)]
pub enum RequestKind {
    /// A secret, such as a password, typed without echo.
    EchoOff,
    /// A yes/no question.
    YesNo,
}

impl RequestKind {
    /// The style in which a question of this kind is asked.
    pub fn style(&self) -> (s: MessageStyle)
        ensures
            s == (match *self {
                RequestKind::EchoOff => MessageStyle::PromptEchoOff,
                RequestKind::YesNo => MessageStyle::RadioType,
            }),
    {
        match self {
            RequestKind::EchoOff => MessageStyle::PromptEchoOff,
            RequestKind::YesNo => MessageStyle::RadioType,
        }
    }
}

/// A question that a sub-service asks the user, with the sub-service's own wording.
pub struct Request {
    pub kind: RequestKind,
    pub text: String,
}

/// How a question from a sub-service gets its answer.
#[derive(Debug, PartialEq, Eq)]
pub enum ResponsePlan {
    /// Read a password from the terminal, showing `prompt`; another
    /// sub-service's success can interrupt the read.
    ReadTerminal { prompt: String },
    /// Ask through the PAM application's conversation, in `style`, showing `text`.
    Converse { style: MessageStyle, text: String },
}

/// Decides how to answer a question. A secret is asked once for all
/// sub-services, with the combined prompt: from the terminal when one is
/// usable (so that another method's success can interrupt the read),
/// through the PAM conversation otherwise. A yes/no question keeps the
/// sub-service's own wording, since the combined prompt only reads
/// correctly as a request for a password.
pub fn plan_response(request: &Request, combined_prompt: &str, terminal_ready: bool) -> (plan:
    ResponsePlan)
    ensures
        match request.kind {
            RequestKind::EchoOff => if terminal_ready {
                plan matches ResponsePlan::ReadTerminal { prompt } && prompt@ == combined_prompt@
            } else {
                plan matches ResponsePlan::Converse { style, text } && style
                    == MessageStyle::PromptEchoOff && text@ == combined_prompt@
            },
            RequestKind::YesNo => plan matches ResponsePlan::Converse { style, text } && style
                == MessageStyle::RadioType && text@ == request.text@,
        },
{
    match request.kind {
        RequestKind::EchoOff => {
            if terminal_ready {
                ResponsePlan::ReadTerminal { prompt: combined_prompt.to_owned() }
            } else {
                ResponsePlan::Converse {
                    style: request.kind.style(),
                    text: combined_prompt.to_owned(),
                }
            }
        },
        RequestKind::YesNo => ResponsePlan::Converse {
            style: request.kind.style(),
            text: request.text.as_str().to_owned(),
        },
    }
}

/// Whether an answer to a yes/no question means yes: its first byte is
/// `Y`, `y`, `j` or `J`. An empty answer means no.
pub open spec fn affirms(answer: Seq<u8>) -> bool {
    answer.len() > 0 && (answer[0] == 0x59u8 || answer[0] == 0x79u8 || answer[0] == 0x6au8
        || answer[0] == 0x4au8)
}

/// Reads the answer to a yes/no question.
pub fn is_affirmative(answer: &[u8]) -> (yes: bool)
    ensures
        yes == affirms(answer@),
        yes <==> (answer@.len() > 0 && (answer@[0] == 0x59u8 || answer@[0] == 0x79u8
            || answer@[0] == 0x6au8 || answer@[0] == 0x4au8)),
{
    if answer.len() == 0 {
        return false;
    }
    let first = answer[0];
    first == 0x59 || first == 0x79 || first == 0x6a || first == 0x4a
}

/// Only the first byte of an answer counts: yes when it is `Y`, `y`, `j` or
/// `J`, no for any other byte (`N` and `n` among them) and for an empty answer.
pub proof fn lemma_affirmative_first_byte(answer: Seq<u8>)
    ensures
        answer.len() == 0 ==> !affirms(answer),
        answer.len() > 0 ==> (affirms(answer) <==> (answer[0] == 0x59u8 || answer[0] == 0x79u8
            || answer[0] == 0x6au8 || answer[0] == 0x4au8)),
        answer.len() > 0 && (answer[0] == 0x4eu8 || answer[0] == 0x6eu8) ==> !affirms(answer),
{
}

/// Two answers that start with the same byte are read the same way.
pub proof fn lemma_affirmative_ignores_rest(a: Seq<u8>, b: Seq<u8>)
    requires
        a.len() > 0,
        b.len() > 0,
        a[0] == b[0],
    ensures
        affirms(a) == affirms(b),
{
}

} // verus!
