use rscript::protocol::{Message, ScriptType};
use rscript::runtime::{Phase, ScriptRuntime, Step};

#[test]
fn one_shot_answers_greeting_and_exits() {
    let mut rt = ScriptRuntime::new(ScriptType::OneShot);
    assert_eq!(rt.phase(), Phase::FirstMessage);
    assert_eq!(rt.advance(Some(Message::Greeting)), Step::SendInfo);
    assert_eq!(rt.advance(None), Step::Exit);
    assert_eq!(rt.phase(), Phase::Done);
}

#[test]
fn one_shot_serves_one_call_and_returns() {
    let mut rt = ScriptRuntime::new(ScriptType::OneShot);
    assert_eq!(rt.advance(Some(Message::Execute)), Step::ReadHookName);
    assert_eq!(rt.advance(None), Step::Handle);
    assert_eq!(rt.advance(None), Step::Return);
    assert_eq!(rt.advance(None), Step::Return);
}

#[test]
fn daemon_serves_calls_after_greeting() {
    let mut rt = ScriptRuntime::new(ScriptType::Daemon);
    assert_eq!(rt.advance(Some(Message::Greeting)), Step::SendInfo);
    assert_eq!(rt.advance(None), Step::ReadMessage);
    for _ in 0..10 {
        assert_eq!(rt.advance(Some(Message::Execute)), Step::ReadHookName);
        assert_eq!(rt.advance(None), Step::Handle);
        assert_eq!(rt.advance(None), Step::ReadMessage);
    }
    assert_eq!(rt.phase(), Phase::CallMessage);
}

#[test]
fn daemon_started_with_execute_reads_a_call_message() {
    let mut rt = ScriptRuntime::new(ScriptType::Daemon);
    assert_eq!(rt.advance(Some(Message::Execute)), Step::ReadMessage);
}
