use recorder::engine::{BusMessage, EngineState, Subject};
use recorder::recorder::errors::RecorderError;
use recorder::recorder::gst_pipeline::PipelineState;
use recorder::recorder::watcher::{judge, Notice};
use recorder::recorder::Recorder;

fn changed(subject: Subject, current: EngineState) -> BusMessage {
    BusMessage::StateChanged {
        subject,
        old: EngineState::Paused,
        current,
        pending: EngineState::VoidPending,
    }
}

fn playing() -> Notice {
    Notice { state: PipelineState::Playing, failure: None }
}

fn stopped() -> Notice {
    Notice { state: PipelineState::Stopped, failure: None }
}

fn failed(text: &str) -> Notice {
    Notice {
        state: PipelineState::Error,
        failure: Some(RecorderError::ElementError(text.to_string())),
    }
}

#[test]
fn end_of_stream_publishes_stopped_and_ends_the_run() {
    let verdict = judge(&BusMessage::Eos);
    assert_eq!(verdict.notice, Some(stopped()));
    assert!(verdict.terminal);
}

#[test]
fn an_error_publishes_the_engine_text_and_ends_the_run() {
    let verdict = judge(&BusMessage::Error("x".to_string()));
    assert_eq!(verdict.notice, Some(failed("x")));
    assert!(verdict.terminal);
}

#[test]
fn only_the_container_reaching_playing_is_published() {
    let verdict = judge(&changed(Subject::Container, EngineState::Playing));
    assert_eq!(verdict.notice, Some(playing()));
    assert!(!verdict.terminal);
    for current in [
        EngineState::VoidPending,
        EngineState::Null,
        EngineState::Ready,
        EngineState::Paused,
    ] {
        let verdict = judge(&changed(Subject::Container, current));
        assert_eq!(verdict.notice, None);
        assert!(!verdict.terminal);
    }
    for subject in [Subject::Element, Subject::Absent] {
        let verdict = judge(&changed(subject, EngineState::Playing));
        assert_eq!(verdict.notice, None);
        assert!(!verdict.terminal);
    }
}

#[test]
fn other_messages_are_ignored() {
    let verdict = judge(&BusMessage::Other);
    assert_eq!(verdict.notice, None);
    assert!(!verdict.terminal);
}

#[test]
fn watching_ends_with_the_end_of_stream() {
    let messages = vec![
        changed(Subject::Element, EngineState::Playing),
        changed(Subject::Container, EngineState::Playing),
        BusMessage::Other,
        BusMessage::Eos,
        BusMessage::Error("late".to_string()),
        BusMessage::Eos,
    ];
    let log = Recorder::watch_bus(&messages);
    assert_eq!(log.notices, vec![playing(), stopped()]);
    assert_eq!(log.consumed, 4);
    assert!(log.finished);
}

#[test]
fn watching_ends_with_the_error() {
    let messages = vec![
        changed(Subject::Container, EngineState::Playing),
        BusMessage::Error("x".to_string()),
        changed(Subject::Container, EngineState::Playing),
        BusMessage::Eos,
    ];
    let log = Recorder::watch_bus(&messages);
    assert_eq!(log.notices, vec![playing(), failed("x")]);
    assert_eq!(log.consumed, 2);
    assert!(log.finished);
}

#[test]
fn an_end_as_the_last_message_finishes_the_watch() {
    let messages = vec![changed(Subject::Container, EngineState::Playing), BusMessage::Eos];
    let log = Recorder::watch_bus(&messages);
    assert_eq!(log.notices, vec![playing(), stopped()]);
    assert_eq!(log.consumed, 2);
    assert!(log.finished);
    let log = Recorder::watch_bus(&vec![BusMessage::Error("x".to_string())]);
    assert_eq!(log.notices, vec![failed("x")]);
    assert_eq!(log.consumed, 1);
    assert!(log.finished);
}

#[test]
fn a_bus_without_an_end_is_drained() {
    let messages = vec![
        changed(Subject::Container, EngineState::Ready),
        changed(Subject::Container, EngineState::Playing),
        BusMessage::Other,
        changed(Subject::Container, EngineState::Playing),
    ];
    let log = Recorder::watch_bus(&messages);
    assert_eq!(log.notices, vec![playing(), playing()]);
    assert_eq!(log.consumed, 4);
    assert!(!log.finished);
}

#[test]
fn an_empty_bus_gives_nothing() {
    let log = Recorder::watch_bus(&Vec::new());
    assert_eq!(log.notices, Vec::new());
    assert_eq!(log.consumed, 0);
    assert!(!log.finished);
}

#[test]
fn at_most_one_terminal_notice_and_it_is_the_last() {
    let runs = vec![
        vec![BusMessage::Eos, BusMessage::Eos],
        vec![BusMessage::Error("a".to_string()), BusMessage::Error("b".to_string())],
        vec![
            changed(Subject::Container, EngineState::Playing),
            changed(Subject::Container, EngineState::Playing),
            BusMessage::Eos,
            BusMessage::Error("c".to_string()),
        ],
        vec![BusMessage::Other],
    ];
    for messages in runs {
        let log = Recorder::watch_bus(&messages);
        let terminal =
            log.notices.iter().filter(|n| n.state != PipelineState::Playing).count();
        assert_eq!(terminal, if log.finished { 1 } else { 0 });
        if log.finished {
            assert_ne!(log.notices.last().unwrap().state, PipelineState::Playing);
        }
    }
}

#[test]
fn a_notice_can_be_duplicated() {
    assert_eq!(failed("x").duplicate(), failed("x"));
    assert_eq!(playing().duplicate(), playing());
}
