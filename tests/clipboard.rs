use android_clipboard::context::AndroidClipboardContext;
use android_clipboard::error::ClipboardError;
use android_clipboard::memory::MemoryClipboard;
use android_clipboard::protocol::{
    plan_step, step_failure, text_result, unit_result, Operation, Outcome, Phase, Reply, Session,
    Step, PLAN_LEN,
};

/// Drives a session, answering each step with the reply `answer` gives, and
/// returns the steps asked for and the outcome.
fn drive(op: Operation, answer: impl Fn(Step) -> Reply) -> (Vec<Step>, Outcome) {
    let mut session = Session::start(op);
    let mut steps = Vec::new();
    while !session.is_finished() {
        let step = session.step();
        steps.push(step);
        session.advance(answer(step));
    }
    (steps, session.outcome().unwrap())
}

#[test]
fn context_new_succeeds() {
    assert!(AndroidClipboardContext::new().is_ok());
}

#[test]
fn round_trip_ascii() {
    let mut c = MemoryClipboard::new();
    assert_eq!(c.set_text("hello".to_string()), Ok(()));
    assert_eq!(c.get_text(), Ok("hello".to_string()));
}

#[test]
fn round_trip_empty_string() {
    let mut c = MemoryClipboard::new();
    c.clip = Some("old".to_string());
    assert_eq!(c.set_text(String::new()), Ok(()));
    assert_eq!(c.get_text(), Ok(String::new()));
}

#[test]
fn round_trip_multibyte() {
    let mut c = MemoryClipboard::new();
    assert_eq!(c.set_text("héllo, wörld — ☃".to_string()), Ok(()));
    assert_eq!(c.get_text(), Ok("héllo, wörld — ☃".to_string()));
}

#[test]
fn round_trip_astral_plane() {
    let text = "a😀b𝄞c";
    assert_eq!(text.len(), 11);
    let mut c = MemoryClipboard::new();
    assert_eq!(c.set_text(text.to_string()), Ok(()));
    let back = c.get_text().unwrap();
    assert_eq!(back, text);
    assert_eq!(back.chars().count(), 5);
}

#[test]
fn empty_clipboard_reads_empty_string() {
    let mut c = MemoryClipboard::new();
    assert_eq!(c.get_text(), Ok(String::new()));
}

#[test]
fn second_set_overwrites() {
    let mut c = MemoryClipboard::new();
    assert_eq!(c.set_text("same".to_string()), Ok(()));
    assert_eq!(c.set_text("same".to_string()), Ok(()));
    assert_eq!(c.get_text(), Ok("same".to_string()));
    assert_eq!(c.set_text("other".to_string()), Ok(()));
    assert_eq!(c.get_text(), Ok("other".to_string()));
}

#[test]
fn attach_failure_does_not_leak_into_next_read() {
    let mut c = MemoryClipboard::new();
    c.clip = Some("kept".to_string());
    c.fail_next_attach = true;
    assert_eq!(c.get_text(), Err(ClipboardError::RuntimeAttachError));
    assert_eq!(c.get_text(), Ok("kept".to_string()));
}

#[test]
fn attach_failure_on_write_leaves_clip() {
    let mut c = MemoryClipboard::new();
    c.clip = Some("kept".to_string());
    c.fail_next_attach = true;
    assert_eq!(c.set_text("new".to_string()), Err(ClipboardError::RuntimeAttachError));
    assert_eq!(c.get_text(), Ok("kept".to_string()));
}

#[test]
fn service_failure_fails_both_and_keeps_clip() {
    let mut c = MemoryClipboard::new();
    c.clip = Some("before".to_string());
    c.service_down = true;
    assert_eq!(c.get_text(), Err(ClipboardError::ServiceUnavailable));
    assert_eq!(c.set_text("after".to_string()), Err(ClipboardError::ServiceUnavailable));
    c.service_down = false;
    assert_eq!(c.get_text(), Ok("before".to_string()));
}

#[test]
fn read_plan_in_order() {
    let (steps, outcome) = drive(Operation::GetText, |_| Reply::Done);
    assert_eq!(
        steps,
        vec![
            Step::Attach,
            Step::FindContextClass,
            Step::ReadServiceName,
            Step::GetService,
            Step::GetPrimaryClip,
            Step::GetFirstItem,
            Step::GetItemText,
            Step::TextToString,
            Step::ReadString,
            Step::Release,
        ]
    );
    assert_eq!(outcome, Outcome::TextRead);
}

#[test]
fn write_plan_in_order() {
    let (steps, outcome) = drive(Operation::SetText, |_| Reply::Done);
    assert_eq!(
        steps,
        vec![
            Step::Attach,
            Step::FindContextClass,
            Step::ReadServiceName,
            Step::GetService,
            Step::FindClipClass,
            Step::NewLabel,
            Step::NewContent,
            Step::NewPlainText,
            Step::SetPrimaryClip,
            Step::Release,
        ]
    );
    assert_eq!(outcome, Outcome::Installed);
}

#[test]
fn failed_attach_is_not_released() {
    let (steps, outcome) = drive(Operation::GetText, |s| {
        if s == Step::Attach { Reply::Failed } else { Reply::Done }
    });
    assert_eq!(steps, vec![Step::Attach]);
    assert_eq!(outcome, Outcome::Failed(ClipboardError::RuntimeAttachError));
}

#[test]
fn null_primary_clip_is_empty_and_released() {
    let (steps, outcome) = drive(Operation::GetText, |s| {
        if s == Step::GetPrimaryClip { Reply::Null } else { Reply::Done }
    });
    assert_eq!(steps.len(), 6);
    assert_eq!(steps[5], Step::Release);
    assert_eq!(outcome, Outcome::Empty);
}

#[test]
fn null_service_is_unavailable() {
    let (steps, outcome) = drive(Operation::SetText, |s| {
        if s == Step::FindContextClass { Reply::Null } else { Reply::Done }
    });
    assert_eq!(steps, vec![Step::Attach, Step::FindContextClass, Step::Release]);
    assert_eq!(outcome, Outcome::Failed(ClipboardError::ServiceUnavailable));
}

#[test]
fn unreadable_string_is_encoding_error() {
    let (_, outcome) = drive(Operation::GetText, |s| {
        if s == Step::ReadString { Reply::Failed } else { Reply::Done }
    });
    assert_eq!(outcome, Outcome::Failed(ClipboardError::EncodingError));
}

#[test]
fn content_string_failure_is_construction_error() {
    let (_, outcome) = drive(Operation::SetText, |s| {
        if s == Step::NewContent { Reply::Failed } else { Reply::Done }
    });
    assert_eq!(outcome, Outcome::Failed(ClipboardError::ClipConstructionError));
}

#[test]
fn refused_install_is_install_error() {
    let (steps, outcome) = drive(Operation::SetText, |s| {
        if s == Step::SetPrimaryClip { Reply::Failed } else { Reply::Done }
    });
    assert_eq!(steps.last(), Some(&Step::Release));
    assert_eq!(outcome, Outcome::Failed(ClipboardError::InstallError));
}

#[test]
fn finished_session_stays_finished() {
    let mut session = Session::start(Operation::GetText);
    session.advance(Reply::Failed);
    assert_eq!(session.phase, Phase::Finished(Outcome::Failed(ClipboardError::RuntimeAttachError)));
    session.advance(Reply::Done);
    assert_eq!(session.step(), Step::Finished);
    assert_eq!(session.outcome(), Some(Outcome::Failed(ClipboardError::RuntimeAttachError)));
}

#[test]
fn plan_steps_by_index() {
    assert_eq!(PLAN_LEN, 8);
    assert_eq!(plan_step(Operation::GetText, 3), Step::GetPrimaryClip);
    assert_eq!(plan_step(Operation::SetText, 3), Step::FindClipClass);
    assert_eq!(plan_step(Operation::SetText, 7), Step::SetPrimaryClip);
}

#[test]
fn step_failures() {
    assert_eq!(step_failure(Step::Attach), ClipboardError::RuntimeAttachError);
    assert_eq!(step_failure(Step::GetService), ClipboardError::ServiceUnavailable);
    assert_eq!(step_failure(Step::TextToString), ClipboardError::EncodingError);
    assert_eq!(step_failure(Step::NewPlainText), ClipboardError::ClipConstructionError);
    assert_eq!(step_failure(Step::SetPrimaryClip), ClipboardError::InstallError);
}

#[test]
fn text_results() {
    assert_eq!(text_result(Outcome::Empty, Some("x".to_string())), Ok(String::new()));
    assert_eq!(text_result(Outcome::TextRead, Some("abc".to_string())), Ok("abc".to_string()));
    assert_eq!(text_result(Outcome::TextRead, None), Err(ClipboardError::EncodingError));
    assert_eq!(
        text_result(Outcome::Failed(ClipboardError::ServiceUnavailable), None),
        Err(ClipboardError::ServiceUnavailable)
    );
}

#[test]
fn unit_results() {
    assert_eq!(unit_result(Outcome::Installed), Ok(()));
    assert_eq!(
        unit_result(Outcome::Failed(ClipboardError::InstallError)),
        Err(ClipboardError::InstallError)
    );
}
