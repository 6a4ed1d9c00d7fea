use recorder::encoder::{self, VideoEncoder};
use recorder::engine::{BusMessage, EngineCommand, EngineState, StepFailure, Subject};
use recorder::input::{self, test as test_input};
use recorder::output::{self, fakesink};
use recorder::recorder::errors::RecorderError;
use recorder::recorder::gst_pipeline::PipelineState;
use recorder::recorder::rendezvous::{publish, Handled, Posting};
use recorder::recorder::watcher::Notice;
use recorder::recorder::{Config, Delivery, Recorder};

const SOON: u32 = 20;

fn synthetic(duration: Option<u64>) -> Config {
    Config {
        name: "recorder".to_string(),
        duration,
        input: input::Config {
            name: "input".to_string(),
            variant: input::Variant::Test(test_input::Config {}),
        },
        output: output::Config {
            name: "output".to_string(),
            variant: output::Variant::FakeSink(fakesink::Config {}),
        },
        encoder: encoder::Config::default(),
    }
}

fn container_plays() -> BusMessage {
    BusMessage::StateChanged {
        subject: Subject::Container,
        old: EngineState::Paused,
        current: EngineState::Playing,
        pending: EngineState::VoidPending,
    }
}

const SENT: Handled = Handled { terminal: false, posting: Some(Posting::Sent) };
const SENT_LAST: Handled = Handled { terminal: true, posting: Some(Posting::Sent) };

fn app_error(text: &str) -> RecorderError {
    RecorderError::AppError(text.to_string())
}

fn undo_everything() -> Vec<EngineCommand> {
    vec![
        EngineCommand::SetState { state: EngineState::Null },
        EngineCommand::Remove { elements: vec![0, 1, 3, 4, 5, 6] },
    ]
}

/// A recorder with an installed run, and the sending half of its channel.
fn started() -> (Recorder, crossbeam_channel::Sender<Notice>) {
    let mut recorder = Recorder::new().unwrap();
    let pipeline = recorder.start(synthetic(None)).unwrap();
    let reply = recorder.install(pipeline, None);
    assert_eq!(reply.result, Ok(()));
    let tx = recorder.maybe_start_thread().unwrap();
    (recorder, tx)
}

#[test]
fn a_new_recorder_has_no_run() {
    let recorder = Recorder::new().unwrap();
    assert!(!recorder.is_running());
    assert_eq!(recorder.get_state(), PipelineState::Stopped);
    assert_eq!(recorder.lock_pipeline().err(), Some(app_error("Pipeline is None")));
}

#[test]
fn the_synthetic_run_starts_and_stops() {
    let mut recorder = Recorder::new().unwrap();
    let pipeline = recorder.start(synthetic(None)).unwrap();
    assert_eq!(pipeline.steps().len(), 59);
    assert!(!recorder.is_running());
    let reply = recorder.install(pipeline, None);
    assert_eq!(reply.result, Ok(()));
    assert_eq!(reply.commands, Vec::new());
    assert!(recorder.is_running());
    let tx = recorder.maybe_start_thread().expect("a watcher is due");
    assert_eq!(recorder.change_pipeline_state(EngineState::Playing, Ok(())), Ok(()));

    assert_eq!(publish(&container_plays(), &tx, SOON), SENT);
    let reply = recorder.await_start(SOON);
    assert_eq!(reply.result, Ok(()));
    assert_eq!(reply.commands, Vec::new());
    assert!(!reply.join_watcher);
    assert_eq!(recorder.get_state(), PipelineState::Playing);

    assert_eq!(recorder.stop(), Ok(EngineCommand::SendEos));
    assert_eq!(publish(&BusMessage::Eos, &tx, SOON), SENT_LAST);
    let reply = recorder.await_stop(SOON);
    assert_eq!(reply.result, Ok(()));
    assert_eq!(reply.commands, undo_everything());
    assert!(reply.join_watcher);
    assert!(!recorder.is_running());
    assert_eq!(recorder.get_state(), PipelineState::Stopped);

    let again = recorder.start(synthetic(None));
    assert!(again.is_ok());
    assert_eq!(recorder.install(again.unwrap(), None).result, Ok(()));
    assert!(recorder.maybe_start_thread().is_some());
}

#[test]
fn a_second_start_is_refused_and_leaves_the_run_alone() {
    let (mut recorder, _tx) = started();
    assert_eq!(recorder.start(synthetic(None)).err(), Some(app_error("already started")));
    assert_eq!(recorder.start(Config::default()).err(), Some(app_error("already started")));
    assert!(recorder.is_running());
    assert_eq!(recorder.lock_pipeline().unwrap().steps().len(), 59);
    assert_eq!(recorder.get_state(), PipelineState::Stopped);
    assert!(recorder.maybe_start_thread().is_none());
}

#[test]
fn a_second_pipeline_is_given_up() {
    let mut first = Recorder::new().unwrap();
    let mut second = Recorder::new().unwrap();
    let one = first.start(synthetic(None)).unwrap();
    let other = second.start(Config::default()).unwrap();
    assert_eq!(first.install(one, None).result, Ok(()));
    let reply = first.install(other, None);
    assert_eq!(reply.result, Err(app_error("already started")));
    assert_eq!(
        reply.commands,
        vec![
            EngineCommand::SetState { state: EngineState::Null },
            EngineCommand::Remove { elements: vec![0, 1, 2, 3, 4, 5, 6, 7] },
        ]
    );
    assert_eq!(first.lock_pipeline().unwrap().steps().len(), 59);
}

#[test]
fn stop_without_a_run_is_refused() {
    let mut recorder = Recorder::new().unwrap();
    assert_eq!(recorder.stop(), Err(app_error("already stopped")));
    let reply = recorder.await_stop(SOON);
    assert_eq!(reply.result, Err(app_error("already stopped")));
    assert_eq!(reply.commands, Vec::new());
    assert!(!reply.join_watcher);
    let reply = recorder.confirm_stop(Delivery::Published(Notice {
        state: PipelineState::Stopped,
        failure: None,
    }));
    assert_eq!(reply.result, Err(app_error("already stopped")));
    assert!(!recorder.is_running());
}

#[test]
fn stop_is_refused_again_after_a_stop() {
    let (mut recorder, tx) = started();
    assert_eq!(publish(&BusMessage::Eos, &tx, SOON), SENT_LAST);
    assert_eq!(recorder.await_stop(SOON).result, Ok(()));
    assert_eq!(recorder.stop(), Err(app_error("already stopped")));
}

#[test]
fn an_error_while_starting_is_handed_to_start() {
    let (mut recorder, tx) = started();
    assert_eq!(publish(&BusMessage::Error("x".to_string()), &tx, SOON), SENT_LAST);
    let reply = recorder.await_start(SOON);
    assert_eq!(reply.result, Err(RecorderError::ElementError("x".to_string())));
    assert_eq!(reply.commands, Vec::new());
    assert!(recorder.is_running());
    assert_eq!(recorder.get_state(), PipelineState::Error);
    assert_eq!(recorder.start(synthetic(None)).err(), Some(app_error("already started")));

    drop(tx);
    assert_eq!(recorder.stop(), Ok(EngineCommand::SendEos));
    let reply = recorder.await_stop(SOON);
    assert_eq!(reply.result, Ok(()));
    assert_eq!(reply.commands, undo_everything());
    assert!(reply.join_watcher);
    assert!(!recorder.is_running());
    assert!(recorder.start(synthetic(None)).is_ok());
}

#[test]
fn an_error_while_running_is_handed_to_stop() {
    let (mut recorder, tx) = started();
    let messages = vec![container_plays(), BusMessage::Error("x".to_string()), BusMessage::Eos];
    let log = Recorder::watch_bus(&messages);
    assert_eq!(log.consumed, 2);

    assert_eq!(publish(&messages[0], &tx, SOON), SENT);
    assert_eq!(recorder.await_start(SOON).result, Ok(()));
    assert_eq!(recorder.get_state(), PipelineState::Playing);

    assert_eq!(publish(&messages[1], &tx, SOON), SENT_LAST);
    assert_eq!(recorder.stop(), Ok(EngineCommand::SendEos));
    let reply = recorder.await_stop(SOON);
    assert_eq!(reply.result, Err(RecorderError::ElementError("x".to_string())));
    assert_eq!(reply.commands, undo_everything());
    assert!(reply.join_watcher);
    assert!(!recorder.is_running());
    assert!(recorder.start(synthetic(None)).is_ok());
}

#[test]
fn a_failed_input_leaves_no_run_behind() {
    let mut recorder = Recorder::new().unwrap();
    let pipeline = recorder.start(synthetic(None)).unwrap();
    let failure = StepFailure { index: 0, cause: "no such element factory".to_string() };
    let reply = recorder.install(pipeline, Some(failure));
    assert_eq!(
        reply.result,
        Err(RecorderError::ElementError(
            "Error creating input_input_videotestsrc videotestsrc".to_string()
        ))
    );
    assert_eq!(
        reply.commands,
        vec![
            EngineCommand::SetState { state: EngineState::Null },
            EngineCommand::Remove { elements: vec![] },
        ]
    );
    assert!(!reply.join_watcher);
    assert!(!recorder.is_running());
    assert!(recorder.maybe_start_thread().is_none());
    assert_eq!(recorder.stop(), Err(app_error("already stopped")));
    assert!(recorder.start(synthetic(None)).is_ok());
}

#[test]
fn a_failed_link_is_undone() {
    let mut recorder = Recorder::new().unwrap();
    let pipeline = recorder.start(synthetic(None)).unwrap();
    let failure = StepFailure { index: 58, cause: "no common format".to_string() };
    let reply = recorder.install(pipeline, Some(failure));
    assert_eq!(
        reply.result,
        Err(RecorderError::ElementError(
            "Error linking Codec to Output: no common format".to_string()
        ))
    );
    assert_eq!(reply.commands, undo_everything());
    assert!(!recorder.is_running());
}

#[test]
fn a_report_on_a_step_that_is_not_in_the_plan() {
    let mut recorder = Recorder::new().unwrap();
    let pipeline = recorder.start(synthetic(None)).unwrap();
    let failure = StepFailure { index: 59, cause: String::new() };
    let reply = recorder.install(pipeline, Some(failure));
    assert_eq!(reply.result, Err(app_error("no such step")));
    assert_eq!(reply.commands, undo_everything());
    assert!(!recorder.is_running());
}

#[test]
fn a_selection_that_is_not_valid_is_refused() {
    let recorder = Recorder::new().unwrap();
    let mut config = synthetic(None);
    config.encoder.variant = VideoEncoder::NVH264;
    assert_eq!(
        recorder.start(config).err(),
        Some(RecorderError::ElementError("Encoder not implemented".to_string()))
    );
}

#[test]
fn a_refused_state_change_is_a_state_error() {
    let (recorder, _tx) = started();
    assert_eq!(
        recorder.change_pipeline_state(EngineState::Playing, Err("busy".to_string())),
        Err(RecorderError::StateError(
            "Failed to transition pipeline state to Playing: busy".to_string()
        ))
    );
    assert_eq!(recorder.change_pipeline_state(EngineState::Playing, Ok(())), Ok(()));
    assert_eq!(recorder.get_state(), PipelineState::Stopped);
    assert!(recorder.is_running());
    let idle = Recorder::new().unwrap();
    assert_eq!(
        idle.change_pipeline_state(EngineState::Playing, Ok(())),
        Err(app_error("Pipeline is None"))
    );
}

#[test]
fn start_gives_up_at_the_deadline() {
    let (mut recorder, _tx) = started();
    let reply = recorder.await_start(SOON);
    assert_eq!(
        reply.result,
        Err(RecorderError::StateError("Timed out waiting for the pipeline state".to_string()))
    );
    assert_eq!(reply.commands, vec![EngineCommand::SetState { state: EngineState::Null }]);
    assert!(!reply.join_watcher);
    assert!(recorder.is_running());
    assert_eq!(recorder.get_state(), PipelineState::Error);
}

#[test]
fn stop_gives_up_at_the_deadline_and_releases_the_run() {
    let (mut recorder, _tx) = started();
    let reply = recorder.await_stop(SOON);
    assert_eq!(
        reply.result,
        Err(RecorderError::StateError("Timed out waiting for the pipeline state".to_string()))
    );
    assert_eq!(reply.commands, undo_everything());
    assert!(!reply.join_watcher);
    assert!(!recorder.is_running());
    assert!(recorder.start(synthetic(None)).is_ok());
}

#[test]
fn a_watcher_that_is_gone_fails_start_but_not_stop() {
    let (mut recorder, tx) = started();
    drop(tx);
    let reply = recorder.await_start(SOON);
    assert_eq!(
        reply.result,
        Err(RecorderError::StateError("Error during state transition: RecvError".to_string()))
    );
    assert_eq!(reply.commands, Vec::new());
    assert!(recorder.is_running());
    assert_eq!(recorder.get_state(), PipelineState::Stopped);
    let reply = recorder.await_stop(SOON);
    assert_eq!(reply.result, Ok(()));
    assert!(reply.join_watcher);
    assert!(!recorder.is_running());
}

#[test]
fn waiting_without_a_run_is_refused() {
    let mut recorder = Recorder::new().unwrap();
    let reply = recorder.await_start(SOON);
    assert_eq!(reply.result, Err(app_error("Pipeline is None")));
    assert_eq!(reply.commands, Vec::new());
    assert!(!recorder.is_running());
}

#[test]
fn an_error_without_a_failure_is_reported_as_the_error_state() {
    let (mut recorder, _tx) = started();
    let reply = recorder
        .confirm_start(Delivery::Published(Notice { state: PipelineState::Error, failure: None }));
    assert_eq!(reply.result, Err(RecorderError::PipelineInErrorState));
    assert_eq!(recorder.get_state(), PipelineState::Error);
}

#[test]
fn an_early_end_of_stream_is_no_failure() {
    let (mut recorder, tx) = started();
    assert_eq!(publish(&BusMessage::Eos, &tx, SOON), SENT_LAST);
    let reply = recorder.await_start(SOON);
    assert_eq!(reply.result, Ok(()));
    assert_eq!(recorder.get_state(), PipelineState::Stopped);
    assert!(recorder.is_running());
}

#[test]
fn the_channel_holds_one_notice() {
    let (mut recorder, tx) = started();
    assert_eq!(publish(&container_plays(), &tx, SOON), SENT);
    assert_eq!(tx.len(), 1);
    assert_eq!(tx.capacity(), Some(1));
    assert_eq!(
        publish(&BusMessage::Eos, &tx, SOON),
        Handled { terminal: true, posting: Some(Posting::TimedOut) }
    );
    assert_eq!(tx.len(), 1);
    assert_eq!(recorder.await_start(SOON).result, Ok(()));
    assert_eq!(recorder.get_state(), PipelineState::Playing);
}

#[test]
fn a_notice_for_nobody_is_lost() {
    let (mut recorder, tx) = started();
    assert_eq!(recorder.await_stop(SOON).result.is_err(), true);
    assert_eq!(
        publish(&BusMessage::Eos, &tx, SOON),
        Handled { terminal: true, posting: Some(Posting::Disconnected) }
    );
}

#[test]
fn messages_that_call_for_nothing_leave_the_channel_empty() {
    let (_recorder, tx) = started();
    assert_eq!(
        publish(&BusMessage::Other, &tx, SOON),
        Handled { terminal: false, posting: None }
    );
    assert_eq!(tx.len(), 0);
}

#[test]
fn a_run_with_a_duration_asks_for_its_own_stop() {
    assert_eq!(synthetic(Some(5)).stop_after(), Some(5));
    assert_eq!(synthetic(Some(0)).stop_after(), None);
    assert_eq!(synthetic(None).stop_after(), None);
    let config = Config::new(
        5,
        input::Config::default(),
        output::Config::default(),
        encoder::Config::default(),
    );
    assert_eq!(config.name, "recorder");
    assert_eq!(config.duration, Some(5));
    assert_eq!(config.stop_after(), Some(5));
    let recorder = Recorder::new().unwrap();
    let pipeline = recorder.start(config).unwrap();
    assert_eq!(pipeline.name(), "recorder");
}
