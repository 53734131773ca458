use mailer_ssr::engine::{EnginePhase, EngineState, InitAction};
use mailer_ssr::error::BridgeError;
use mailer_ssr::marshal::{decode_input, encode_output};
use mailer_ssr::render::{
    EntryLookup, Outcome, RenderSession, Stage, Step, ENTRY_POINT, THREW_WITHOUT_MESSAGE,
};

fn session_at_call() -> RenderSession {
    let mut s = RenderSession::new();
    assert_eq!(s.advance(Outcome::Compiled(true)), Step::EvaluateBundle);
    assert_eq!(s.advance(Outcome::Evaluated(true)), Step::ParseProps);
    assert_eq!(s.advance(Outcome::PropsParsed(true)), Step::LookUpEntryPoint);
    assert_eq!(
        s.advance(Outcome::EntryLooked(EntryLookup::Callable)),
        Step::CallEntryPoint
    );
    assert_eq!(s.stage, Stage::Call);
    s
}

#[test]
fn first_request_starts_engine_once() {
    let mut e = EngineState::new();
    assert_eq!(e.phase, EnginePhase::Uninitialized);
    assert_eq!(e.ensure_ready(), InitAction::RunInit);
    for _ in 0..5 {
        assert_eq!(e.ensure_ready(), InitAction::Wait);
    }
    e.finish_init(true);
    for _ in 0..5 {
        assert_eq!(e.ensure_ready(), InitAction::Proceed);
    }
    assert_eq!(e.phase, EnginePhase::Ready);
    assert_eq!(e.readiness(), Ok(()));
}

#[test]
fn failed_start_is_fatal() {
    let mut e = EngineState::new();
    assert_eq!(e.ensure_ready(), InitAction::RunInit);
    e.finish_init(false);
    assert_eq!(e.phase, EnginePhase::Failed);
    assert_eq!(e.ensure_ready(), InitAction::Abort);
    assert_eq!(e.readiness(), Err(BridgeError::EngineInitFailure));
}

#[test]
fn unstarted_engine_is_not_ready() {
    let e = EngineState::new();
    assert_eq!(e.readiness(), Err(BridgeError::EngineInitFailure));
}

#[test]
fn decode_valid_props() {
    let raw = b"{\"name\":\"Ada\"}";
    assert_eq!(decode_input(raw), Ok(String::from("{\"name\":\"Ada\"}")));
}

#[test]
fn decode_multibyte_props() {
    let raw = [0x7bu8, 0x22, 0xc3, 0xa9, 0x22, 0x7d];
    assert_eq!(decode_input(&raw), Ok(String::from("{\"\u{e9}\"}")));
}

#[test]
fn decode_empty_props() {
    assert_eq!(decode_input(&[]), Ok(String::new()));
}

#[test]
fn decode_invalid_utf8() {
    assert_eq!(
        decode_input(&[0x7b, 0xff, 0xfe, 0x7d]),
        Err(BridgeError::InvalidInputEncoding)
    );
    assert_eq!(decode_input(&[0xc3]), Err(BridgeError::InvalidInputEncoding));
}

#[test]
fn encode_appends_terminator() {
    assert_eq!(encode_output("abc"), Ok(vec![97u8, 98, 99, 0]));
    assert_eq!(encode_output(""), Ok(vec![0u8]));
    assert_eq!(encode_output("\u{e9}"), Ok(vec![0xc3u8, 0xa9, 0]));
}

#[test]
fn encode_rejects_inner_zero() {
    assert_eq!(encode_output("a\0b"), Err(BridgeError::EncodingError));
}

#[test]
fn boundary_round_trip() {
    let text = "<p>h\u{e9}llo \u{1f600}</p>";
    let bytes = encode_output(text).unwrap();
    assert_eq!(*bytes.last().unwrap(), 0u8);
    assert_eq!(decode_input(&bytes[..bytes.len() - 1]), Ok(String::from(text)));
}

#[test]
fn entry_point_name() {
    assert_eq!(ENTRY_POINT, "renderEmail");
}

#[test]
fn compile_failure() {
    let mut s = RenderSession::new();
    assert_eq!(s.stage, Stage::Compile);
    assert_eq!(
        s.advance(Outcome::Compiled(false)),
        Step::Done(Err(BridgeError::ScriptCompileError))
    );
    assert_eq!(s.stage, Stage::Finished);
}

#[test]
fn evaluation_failure() {
    let mut s = RenderSession::new();
    s.advance(Outcome::Compiled(true));
    assert_eq!(
        s.advance(Outcome::Evaluated(false)),
        Step::Done(Err(BridgeError::ScriptEvaluationError))
    );
}

#[test]
fn malformed_props_json() {
    let props = decode_input(b"{not json").unwrap();
    assert_eq!(props, "{not json");
    let mut s = RenderSession::new();
    s.advance(Outcome::Compiled(true));
    s.advance(Outcome::Evaluated(true));
    assert_eq!(
        s.advance(Outcome::PropsParsed(false)),
        Step::Done(Err(BridgeError::InvalidPropsJson))
    );
    assert_eq!(s.stage, Stage::Finished);
}

#[test]
fn missing_entry_point() {
    let mut s = RenderSession::new();
    s.advance(Outcome::Compiled(true));
    s.advance(Outcome::Evaluated(true));
    s.advance(Outcome::PropsParsed(true));
    assert_eq!(
        s.advance(Outcome::EntryLooked(EntryLookup::Missing)),
        Step::Done(Err(BridgeError::EntryPointMissing))
    );
}

#[test]
fn entry_point_not_callable() {
    let mut s = RenderSession::new();
    s.advance(Outcome::Compiled(true));
    s.advance(Outcome::Evaluated(true));
    s.advance(Outcome::PropsParsed(true));
    assert_eq!(
        s.advance(Outcome::EntryLooked(EntryLookup::NotCallable)),
        Step::Done(Err(BridgeError::EntryPointNotCallable))
    );
}

#[test]
fn entry_point_throws() {
    let mut s = session_at_call();
    let step = s.advance(Outcome::Called(Err(String::from("Error: boom"))));
    assert_eq!(
        step,
        Step::Done(Err(BridgeError::ScriptRuntimeError(String::from("Error: boom"))))
    );
}

#[test]
fn entry_point_throws_without_message() {
    let mut s = session_at_call();
    let step = s.advance(Outcome::Called(Err(String::new())));
    match step {
        Step::Done(Err(BridgeError::ScriptRuntimeError(d))) => {
            assert!(!d.is_empty());
            assert_eq!(d, THREW_WITHOUT_MESSAGE);
        }
        other => panic!("unexpected step {:?}", other),
    }
}

#[test]
fn result_without_string_form() {
    let mut s = session_at_call();
    assert_eq!(s.advance(Outcome::Called(Ok(()))), Step::Stringify);
    assert_eq!(
        s.advance(Outcome::Stringified(None)),
        Step::Done(Err(BridgeError::ResultConversionError))
    );
}

#[test]
fn result_with_inner_zero() {
    let mut s = session_at_call();
    s.advance(Outcome::Called(Ok(())));
    assert_eq!(
        s.advance(Outcome::Stringified(Some(String::from("<html>\0</html>")))),
        Step::Done(Err(BridgeError::EncodingError))
    );
}

#[test]
fn html_round_trip() {
    let props = decode_input(b"{\"name\":\"Ada\"}").unwrap();
    let mut s = session_at_call();
    assert_eq!(s.advance(Outcome::Called(Ok(()))), Step::Stringify);
    let rendered = format!("<html>{}</html>", props);
    let step = s.advance(Outcome::Stringified(Some(rendered)));
    let mut expected = b"<html>{\"name\":\"Ada\"}</html>".to_vec();
    expected.push(0);
    assert_eq!(step, Step::Done(Ok(expected)));
    assert_eq!(s.stage, Stage::Finished);
}

#[test]
fn sessions_are_independent() {
    let mut a = session_at_call();
    let mut b = session_at_call();
    a.advance(Outcome::Called(Ok(())));
    assert_eq!(
        b.advance(Outcome::Called(Err(String::from("TypeError")))),
        Step::Done(Err(BridgeError::ScriptRuntimeError(String::from("TypeError"))))
    );
    assert_eq!(
        a.advance(Outcome::Stringified(Some(String::from("ok")))),
        Step::Done(Ok(vec![b'o', b'k', 0]))
    );
}

#[test]
fn same_outcomes_same_output() {
    let mut outputs = Vec::new();
    for _ in 0..2 {
        let mut s = session_at_call();
        s.advance(Outcome::Called(Ok(())));
        outputs.push(s.advance(Outcome::Stringified(Some(String::from("<p>Ada</p>")))));
    }
    assert_eq!(outputs[0], outputs[1]);
    let mut expected = b"<p>Ada</p>".to_vec();
    expected.push(0);
    assert_eq!(outputs[0], Step::Done(Ok(expected)));
}
