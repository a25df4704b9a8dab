use pam_any::conversation::{
    is_affirmative, plan_response, MessageStyle, MessageType, PromptType, Request, RequestKind,
    ResponsePlan,
};

#[test]
fn message_styles() {
    assert_eq!(MessageType::Info.style(), MessageStyle::TextInfo);
    assert_eq!(MessageType::Error.style(), MessageStyle::ErrorMsg);
    assert_eq!(PromptType::Echo.style(), MessageStyle::PromptEchoOn);
    assert_eq!(PromptType::Blind.style(), MessageStyle::PromptEchoOff);
    assert_eq!(RequestKind::EchoOff.style(), MessageStyle::PromptEchoOff);
    assert_eq!(RequestKind::YesNo.style(), MessageStyle::RadioType);
}

#[test]
fn secret_read_from_terminal_with_combined_prompt() {
    let req = Request { kind: RequestKind::EchoOff, text: "Password: ".to_string() };
    assert_eq!(
        plan_response(&req, "Password or Fingerprint: ", true),
        ResponsePlan::ReadTerminal { prompt: "Password or Fingerprint: ".to_string() }
    );
}

#[test]
fn secret_without_terminal_goes_through_conversation() {
    let req = Request { kind: RequestKind::EchoOff, text: "Password: ".to_string() };
    assert_eq!(
        plan_response(&req, "Password or Fingerprint: ", false),
        ResponsePlan::Converse {
            style: MessageStyle::PromptEchoOff,
            text: "Password or Fingerprint: ".to_string()
        }
    );
}

#[test]
fn yes_no_question_keeps_own_wording() {
    let req = Request { kind: RequestKind::YesNo, text: "Trust this device?".to_string() };
    assert_eq!(
        plan_response(&req, "Password or Fingerprint: ", true),
        ResponsePlan::Converse {
            style: MessageStyle::RadioType,
            text: "Trust this device?".to_string()
        }
    );
}

#[test]
fn affirmative_answers() {
    assert!(is_affirmative(b"yes"));
    assert!(is_affirmative(b"Y"));
    assert!(is_affirmative(b"ja"));
    assert!(is_affirmative(b"J"));
    assert!(!is_affirmative(b"no"));
    assert!(!is_affirmative(b""));
    assert!(!is_affirmative(b" y"));
}
