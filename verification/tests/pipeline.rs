use hotkey_translate::pipeline::{
    check_credentials, offset_coordinate, payload, terminal_event_name, Action, Event, Pipeline,
    PipelineError, Stage, POINTER_OFFSET, SETTLING_DELAY_MS,
};
use hotkey_translate::signing::TranslateError;

fn run_to_authorizing(snapshot: Option<&str>, text: &str) -> Pipeline {
    let p = Pipeline::new();
    assert_eq!(p.stage(), Stage::Idle);
    let (p, a) = p.step(Event::Snapshot(snapshot.map(|s| s.to_string())));
    assert_eq!(a, Action::SimulateCopy);
    assert_eq!(p.stage(), Stage::Capturing);
    let (p, a) = p.step(Event::CopySimulated(Ok(())));
    assert_eq!(a, Action::ReadAfterDelay(150));
    assert_eq!(p.stage(), Stage::Reading);
    let (p, a) = p.step(Event::ClipboardRead(Ok(text.to_string())));
    assert_eq!(a, Action::RestoreClipboard(snapshot.unwrap_or("").to_string()));
    assert_eq!(p.stage(), Stage::Restoring);
    let (p, a) = p.step(Event::Restored(true));
    assert_eq!(a, Action::QueryPointer);
    assert_eq!(p.stage(), Stage::Positioning);
    let (p, a) = p.step(Event::Pointer(Some((100, 200))));
    assert_eq!(a, Action::ShowSurface(Some((110, 210))));
    assert_eq!(p.stage(), Stage::Authorizing);
    p
}

#[test]
fn captured_text_is_translated() {
    let p = run_to_authorizing(Some("before"), "hello");
    let (p, a) = p.step(Event::Credentials("k1".to_string(), "a1".to_string()));
    assert_eq!(a, Action::Translate("k1".to_string(), "a1".to_string(), "hello".to_string()));
    assert_eq!(p.stage(), Stage::Translating);
    let (p, a) = p.step(Event::Translated(Ok("你好".to_string())));
    assert_eq!(a, Action::Emit(Ok("你好".to_string())));
    assert!(p.is_done());
    let (p, a) = p.step(Event::Translated(Ok("again".to_string())));
    assert_eq!(a, Action::Ignore);
    assert_eq!(p.stage(), Stage::Done);
}

#[test]
fn translation_failure_ends_the_run() {
    let p = run_to_authorizing(None, "hello");
    let (p, _) = p.step(Event::Credentials("k1".to_string(), "".to_string()));
    let e = TranslateError::NetworkFailure("connection refused".to_string());
    let (p, a) = p.step(Event::Translated(Err(e)));
    let e = TranslateError::NetworkFailure("connection refused".to_string());
    assert_eq!(a, Action::Emit(Err(PipelineError::Translation(e))));
    assert!(p.is_done());
}

#[test]
fn missing_snapshot_restores_empty_text() {
    let p = Pipeline::new();
    let (p, _) = p.step(Event::Snapshot(None));
    let (p, _) = p.step(Event::CopySimulated(Ok(())));
    let (_, a) = p.step(Event::ClipboardRead(Ok("x".to_string())));
    assert_eq!(a, Action::RestoreClipboard(String::new()));
}

#[test]
fn failed_copy_ends_the_run() {
    let p = Pipeline::new();
    let (p, _) = p.step(Event::Snapshot(Some("s".to_string())));
    let (p, a) = p.step(Event::CopySimulated(Err("no display".to_string())));
    assert_eq!(a, Action::Emit(Err(PipelineError::InputInjectionFailed("no display".to_string()))));
    assert!(p.is_done());
}

#[test]
fn failed_read_ends_the_run() {
    let p = Pipeline::new();
    let (p, _) = p.step(Event::Snapshot(Some("s".to_string())));
    let (p, _) = p.step(Event::CopySimulated(Ok(())));
    let (p, a) = p.step(Event::ClipboardRead(Err("busy".to_string())));
    assert_eq!(a, Action::Emit(Err(PipelineError::ClipboardUnavailable("busy".to_string()))));
    assert!(p.is_done());
}

fn blank_capture(text: &str) {
    let p = Pipeline::new();
    let (p, _) = p.step(Event::Snapshot(Some("before".to_string())));
    let (p, _) = p.step(Event::CopySimulated(Ok(())));
    let (p, a) = p.step(Event::ClipboardRead(Ok(text.to_string())));
    assert_eq!(a, Action::RestoreClipboard("before".to_string()));
    let (p, a) = p.step(Event::Restored(false));
    assert_eq!(a, Action::Emit(Err(PipelineError::EmptyCapture)));
    assert!(p.is_done());
    let (_, a) = p.step(Event::Credentials("k".to_string(), "a".to_string()));
    assert_eq!(a, Action::Ignore);
}

#[test]
fn empty_capture_fails_without_translation() {
    blank_capture("");
}

#[test]
fn whitespace_capture_fails_without_translation() {
    blank_capture("  \n\t ");
}

#[test]
fn empty_api_key_fails_without_translation() {
    let p = run_to_authorizing(Some("before"), "hello");
    let (p, a) = p.step(Event::Credentials(String::new(), "a1".to_string()));
    assert_eq!(a, Action::Emit(Err(PipelineError::CredentialMissing)));
    assert!(p.is_done());
    let (_, a) = p.step(Event::Translated(Ok("x".to_string())));
    assert_eq!(a, Action::Ignore);
}

#[test]
fn pointer_failure_does_not_end_the_run() {
    let p = Pipeline::new();
    let (p, _) = p.step(Event::Snapshot(None));
    let (p, _) = p.step(Event::CopySimulated(Ok(())));
    let (p, _) = p.step(Event::ClipboardRead(Ok("hello".to_string())));
    let (p, _) = p.step(Event::Restored(true));
    let (p, a) = p.step(Event::Pointer(None));
    assert_eq!(a, Action::ShowSurface(None));
    assert_eq!(p.stage(), Stage::Authorizing);
}

#[test]
fn events_out_of_turn_are_ignored() {
    let p = Pipeline::new();
    let (p, a) = p.step(Event::Translated(Ok("x".to_string())));
    assert_eq!(a, Action::Ignore);
    assert_eq!(p.stage(), Stage::Idle);
    let (p, _) = p.step(Event::Snapshot(None));
    let (p, a) = p.step(Event::Snapshot(Some("again".to_string())));
    assert_eq!(a, Action::Ignore);
    assert_eq!(p.stage(), Stage::Capturing);
}

#[test]
fn one_terminal_event_per_run() {
    let events = vec![
        Event::Snapshot(Some("s".to_string())),
        Event::Restored(true),
        Event::CopySimulated(Ok(())),
        Event::ClipboardRead(Ok("text".to_string())),
        Event::Restored(true),
        Event::Pointer(Some((0, 0))),
        Event::Credentials("k".to_string(), "a".to_string()),
        Event::Translated(Ok("t".to_string())),
        Event::Translated(Ok("u".to_string())),
        Event::CopySimulated(Err("late".to_string())),
    ];
    let mut p = Pipeline::new();
    let mut emitted = 0;
    for e in events {
        let (q, a) = p.step(e);
        if matches!(a, Action::Emit(_)) {
            emitted += 1;
        }
        p = q;
    }
    assert_eq!(emitted, 1);
    assert!(p.is_done());
}

#[test]
fn offsets_and_constants() {
    assert_eq!(SETTLING_DELAY_MS, 150);
    assert_eq!(terminal_event_name(), "shortcut-event");
    assert_eq!(POINTER_OFFSET, 10);
    assert_eq!(offset_coordinate(0), 10);
    assert_eq!(offset_coordinate(-25), -15);
    assert_eq!(offset_coordinate(i32::MAX - 10), i32::MAX);
    assert_eq!(offset_coordinate(i32::MAX - 11), i32::MAX - 1);
    assert_eq!(offset_coordinate(i32::MAX), i32::MAX);
    assert_eq!(offset_coordinate(i32::MIN), i32::MIN + 10);
}

#[test]
fn payload_of_outcomes() {
    assert_eq!(payload(&Ok("你好".to_string())), "你好");
    assert_eq!(payload(&Err(PipelineError::EmptyCapture)), "错误: 未检测到选中文本");
    assert_eq!(payload(&Err(PipelineError::CredentialMissing)), "错误: API Key is empty");
    assert_eq!(
        payload(&Err(PipelineError::InputInjectionFailed("no display".to_string()))),
        "错误: no display"
    );
    assert_eq!(
        payload(&Err(PipelineError::ClipboardUnavailable("busy".to_string()))),
        "错误: busy"
    );
    assert_eq!(
        payload(&Err(PipelineError::Translation(TranslateError::MalformedResponse(
            "bad json".to_string()
        )))),
        "错误: bad json"
    );
    assert_eq!(
        PipelineError::Translation(TranslateError::AuthFailure("HTTP status 401".to_string()))
            .message(),
        "HTTP status 401"
    );
}

#[test]
fn direct_translation_needs_a_key() {
    assert_eq!(check_credentials(""), Err(PipelineError::CredentialMissing));
    assert_eq!(check_credentials("k1"), Ok(()));
    assert_eq!(check_credentials(" "), Ok(()));
}
