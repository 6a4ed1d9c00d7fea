//! The lifecycle controller and the bus watcher.
use crate::container::{clamped, undoes};
use crate::encoder::Config as EncoderConfig;
use crate::engine::{
    BusMessage, CommandModel, EngineCommand, EngineState, MessageModel, StepFailure,
};
use crate::input::Config as InputConfig;
use crate::output::Config as OutputConfig;
use crate::recorder::errors::{fails_with, ErrorModel, RecorderError};
use crate::recorder::gst_pipeline::{agrees, GstPipeline, PipelineState};
use crate::recorder::rendezvous::{bounded, capacity_of, recv_timeout, RENDEZVOUS_CAPACITY};
use crate::recorder::watcher::{
    ends_run, judge, notice_for, notices_for, Notice, NoticeModel, WatchLog,
};
use crossbeam_channel::{Receiver, Sender};
use vstd::prelude::*;
use vstd::string::*;

pub mod errors;
pub mod gst_pipeline;
pub mod rendezvous;
pub mod watcher;

verus! {

/// What one run records: from which input, with which encoder, to which
/// output, and for how long.
#[derive(Clone, Debug, PartialEq, Eq)]
pub struct Config {
    pub name: String,
    /// After how many seconds the run ends by itself, if it does.
    pub duration: Option<u64>,
    pub input: InputConfig,
    pub output: OutputConfig,
    pub encoder: EncoderConfig,
}

impl Config {
    /// Every setting has the value it starts out with.
    pub open spec fn is_default(self) -> bool {
        &&& self.name@ == "recorder"@
        &&& self.duration is None
        &&& self.input.is_default()
        &&& self.output.is_default()
        &&& self.encoder.is_default()
    }
}

impl Default for Config {
    fn default() -> (res: Self)
        ensures
            res.is_default(),
    {
        Config {
            name: String::from_str("recorder"),
            duration: None,
            input: InputConfig::default(),
            output: OutputConfig::default(),
            encoder: EncoderConfig::default(),
        }
    }
}

impl Config {
    /// A run called `recorder` that ends after `duration` seconds.
    pub fn new(duration: u64, input: InputConfig, output: OutputConfig, encoder: EncoderConfig) -> (res:
        Self)
        ensures
            res.name@ == "recorder"@,
            res.duration == Some(duration),
            res.input == input,
            res.output == output,
            res.encoder == encoder,
    {
        Config {
            name: String::from_str("recorder"),
            duration: Some(duration),
            input,
            output,
            encoder,
        }
    }

    /// A selection is valid when a stage exists for each of its three parts:
    /// when the encoder is one that can be attached.
    pub open spec fn valid_selection(self) -> bool {
        self.encoder.variant.attachable()
    }

    /// After how many seconds a stop request is due by itself: the duration,
    /// where there is one and it is not zero.
    pub open spec fn spec_stop_after(self) -> Option<u64> {
        match self.duration {
            Some(seconds) => if seconds > 0 {
                Some(seconds)
            } else {
                None
            },
            None => None,
        }
    }

    /// After how many seconds the run is to be stopped without anyone
    /// asking, if at all.
    pub fn stop_after(&self) -> (res: Option<u64>)
        ensures
            res == self.spec_stop_after(),
    {
        match self.duration {
            Some(seconds) => if seconds > 0 {
                Some(seconds)
            } else {
                None
            },
            None => None,
        }
    }
}

/// What the controller got when it waited on the rendezvous channel.
#[derive(Clone, Debug, PartialEq, Eq)]
pub enum Delivery {
    /// The watcher published a notice.
    Published(Notice),
    /// The watcher is gone and the channel is empty.
    Disconnected,
    /// Nothing came before the deadline.
    TimedOut,
}

/// Mathematical model of a [`Delivery`].
pub enum DeliveryModel {
    Published(NoticeModel),
    Disconnected,
    TimedOut,
}

impl View for Delivery {
    type V = DeliveryModel;

    open spec fn view(&self) -> DeliveryModel {
        match self {
            Delivery::Published(n) => DeliveryModel::Published(n@),
            Delivery::Disconnected => DeliveryModel::Disconnected,
            Delivery::TimedOut => DeliveryModel::TimedOut,
        }
    }
}

impl DeliveryModel {
    /// The failure that a published notice stands for: the failure it
    /// carries, or that the pipeline is in its error state where it carries
    /// none; nothing for a notice of another state.
    pub open spec fn failure_of(notice: NoticeModel) -> Option<ErrorModel> {
        if notice.state == PipelineState::Error {
            match notice.failure {
                Some(e) => Some(e),
                None => Some(ErrorModel::PipelineInErrorState),
            }
        } else {
            None
        }
    }

    /// What a waiting `start` returns for this delivery: success for a
    /// notice that is no error, the failure for one that is, and a state
    /// error where no notice came.
    pub open spec fn start_verdict(self) -> Option<ErrorModel> {
        match self {
            DeliveryModel::Published(n) => Self::failure_of(n),
            DeliveryModel::Disconnected => Some(
                ErrorModel::StateError("Error during state transition: RecvError"@),
            ),
            DeliveryModel::TimedOut => Some(
                ErrorModel::StateError("Timed out waiting for the pipeline state"@),
            ),
        }
    }

    /// What a waiting `stop` returns for this delivery: as for `start`, but
    /// a watcher that is gone already is no failure.
    pub open spec fn stop_verdict(self) -> Option<ErrorModel> {
        match self {
            DeliveryModel::Published(n) => Self::failure_of(n),
            DeliveryModel::Disconnected => None,
            DeliveryModel::TimedOut => Some(
                ErrorModel::StateError("Timed out waiting for the pipeline state"@),
            ),
        }
    }

    /// The lifecycle state that this delivery shows, if it shows one: the
    /// published state, and `Error` for a timeout.
    pub open spec fn shows(self) -> Option<PipelineState> {
        match self {
            DeliveryModel::Published(n) => Some(n.state),
            DeliveryModel::Disconnected => None,
            DeliveryModel::TimedOut => Some(PipelineState::Error),
        }
    }
}

/// True when `reply` and the recorder `after` are what `delivery` makes
/// of a waiting `start` on the recorder `before`.
///
/// The active run settles on the state that was delivered and stays
/// active. The caller gets success for `Playing` or `Stopped`, the failure
/// that came with `Error`, and a state error where the watcher is gone or
/// nothing came in time; after a timeout the engine is to take the
/// container to `Null`. Without an active run nothing changes and the call
/// is refused.
pub open spec fn start_settled(
    before: RecorderModel,
    after: RecorderModel,
    reply: Reply,
    delivery: DeliveryModel,
) -> bool {
    &&& !reply.join_watcher
    &&& !before.running() ==> {
        &&& after == before
        &&& fails_with(reply.result, ErrorModel::AppError("Pipeline is None"@))
        &&& reply.commands@.len() == 0
    }
    &&& before.running() ==> {
        &&& after == before.observe(delivery.shows())
        &&& agrees(reply.result, delivery.start_verdict())
        &&& reply.commands.deep_view() == (if delivery is TimedOut {
            seq![CommandModel::SetState { state: EngineState::Null }]
        } else {
            Seq::empty()
        })
    }
}

/// True when `reply` and the recorder `after` are what `delivery` makes
/// of a waiting `stop` on the recorder `before`.
///
/// The run is released whatever was delivered: the engine is to undo the
/// whole plan, and the watcher is to be joined unless it never answered.
/// The caller gets success for `Stopped`, and for a watcher that was gone
/// already; the failure that came with `Error`; a state error after a
/// timeout. Without an active run nothing changes and the call is refused.
pub open spec fn stop_settled(
    before: RecorderModel,
    after: RecorderModel,
    reply: Reply,
    delivery: DeliveryModel,
) -> bool {
    &&& !before.running() ==> {
        &&& after == before
        &&& fails_with(reply.result, ErrorModel::AppError("already stopped"@))
        &&& reply.commands@.len() == 0
        &&& !reply.join_watcher
    }
    &&& before.running() ==> {
        &&& after == before.release()
        &&& agrees(reply.result, delivery.stop_verdict())
        &&& reply.join_watcher == (before.watching && !(delivery is TimedOut))
        &&& undoes(
            reply.commands.deep_view(),
            before.run->0.plan(),
            before.run->0.plan().len() as int,
        )
    }
}

/// What a call of the controller comes to: the result for the caller, the
/// commands that the engine is still to carry out as far as it can, and
/// whether the watcher thread is to be joined.
#[derive(Debug, PartialEq, Eq)]
pub struct Reply {
    pub result: Result<(), RecorderError>,
    pub commands: Vec<EngineCommand>,
    pub join_watcher: bool,
}

/// Mathematical model of a [`Recorder`]: the run that is active, if there
/// is one, whether a watcher is registered for it, and whether the
/// receiving half of a rendezvous channel is held for it.
pub struct RecorderModel {
    pub run: Option<GstPipeline>,
    pub watching: bool,
    pub listening: bool,
}

impl RecorderModel {
    /// Whether a run is active.
    pub open spec fn running(self) -> bool {
        self.run is Some
    }

    /// The lifecycle state last settled: that of the active run, and
    /// `Stopped` without one.
    pub open spec fn status(self) -> PipelineState {
        match self.run {
            Some(p) => p.lifecycle(),
            None => PipelineState::Stopped,
        }
    }

    /// The recorder after `pipeline` was handed over for installation. It
    /// becomes the active run unless the engine failed a step of its plan
    /// or a run is active already; then nothing changes.
    pub open spec fn install(self, pipeline: GstPipeline, failed: bool) -> RecorderModel {
        if self.running() || failed {
            self
        } else {
            RecorderModel {
                run: Some(pipeline),
                watching: self.watching,
                listening: self.listening,
            }
        }
    }

    /// What a start request for `config` is refused with, if it is: that a
    /// run was started already, or that the selection is not valid.
    pub open spec fn start_refusal(self, config: Config) -> Option<ErrorModel> {
        if self.running() {
            Some(ErrorModel::AppError("already started"@))
        } else if !config.valid_selection() {
            Some(ErrorModel::ElementError("Encoder not implemented"@))
        } else {
            None
        }
    }

    /// What a stop request is refused with, if it is: that no run is active.
    pub open spec fn stop_refusal(self) -> Option<ErrorModel> {
        if self.running() {
            None
        } else {
            Some(ErrorModel::AppError("already stopped"@))
        }
    }

    /// Whether a watcher is to be spawned: for an active run that has none.
    pub open spec fn needs_watcher(self) -> bool {
        self.running() && !self.watching
    }

    /// The recorder after a watcher was asked for: where one is due, it is
    /// registered and the receiving half of a fresh channel is held.
    pub open spec fn spawn(self) -> RecorderModel {
        if self.needs_watcher() {
            RecorderModel { run: self.run, watching: true, listening: true }
        } else {
            self
        }
    }

    /// The recorder after the active run settled on what a delivery shows.
    pub open spec fn observe(self, shown: Option<PipelineState>) -> RecorderModel {
        match (self.run, shown) {
            (Some(p), Some(state)) => RecorderModel {
                run: Some(p.settled(state)),
                watching: self.watching,
                listening: self.listening,
            },
            _ => self,
        }
    }

    /// The recorder after the active run was released: the run, the
    /// watcher's registration and the channel are gone.
    pub open spec fn release(self) -> RecorderModel {
        RecorderModel { run: None, watching: false, listening: false }
    }
}

/// What the watcher publishes for a bus message is what the waiting call
/// returns: success for the container reaching `Playing` and for the end
/// of the stream, and for an error of the engine an element error with the
/// engine's text, from `start` and from `stop` alike.
pub proof fn lemma_verdict_of_a_message(message: MessageModel)
    requires
        notice_for(message) is Some,
    ensures
        !(message is Error) ==> DeliveryModel::Published(notice_for(message)->0).start_verdict()
            is None && DeliveryModel::Published(notice_for(message)->0).stop_verdict() is None,
        message matches MessageModel::Error(text) ==> DeliveryModel::Published(
            notice_for(message)->0,
        ).start_verdict() == Some(ErrorModel::ElementError(text)) && DeliveryModel::Published(
            notice_for(message)->0,
        ).stop_verdict() == Some(ErrorModel::ElementError(text)),
        ends_run(message) <==> notice_for(message)->0.is_terminal(),
{
}

/// One run at a time: once a pipeline is installed, a run is active, every
/// start request is refused as started already, and a further pipeline
/// that is handed over leaves the active run as it is.
pub proof fn lemma_single_run(
    recorder: RecorderModel,
    first: GstPipeline,
    second: GstPipeline,
    failed: bool,
    config: Config,
)
    requires
        !recorder.running(),
    ensures
        recorder.install(first, false).running(),
        recorder.install(first, false).run == Some(first),
        recorder.install(first, false).start_refusal(config) == Some(
            ErrorModel::AppError("already started"@),
        ),
        recorder.install(first, false).install(second, failed) == recorder.install(first, false),
{
}

/// A run begins exactly when every step of the plan succeeded: on a
/// recorder without a run, the pipeline that is handed over becomes the
/// active run if the engine failed no step, and only then.
pub proof fn lemma_run_begins_iff_no_step_failed(
    recorder: RecorderModel,
    pipeline: GstPipeline,
    failed: bool,
)
    requires
        !recorder.running(),
    ensures
        recorder.install(pipeline, failed).running() <==> !failed,
        !failed ==> recorder.install(pipeline, failed).run == Some(pipeline),
{
}

/// A pipeline whose plan the engine failed leaves no run behind: the
/// recorder is as it was, and a start request with a valid selection is
/// admitted again.
pub proof fn lemma_failed_assembly_leaves_no_run(
    recorder: RecorderModel,
    pipeline: GstPipeline,
    config: Config,
)
    requires
        !recorder.running(),
        config.valid_selection(),
    ensures
        recorder.install(pipeline, true) == recorder,
        recorder.install(pipeline, true).start_refusal(config) is None,
{
}

/// Without an active run a stop request is refused as stopped already;
/// with one it is admitted.
pub proof fn lemma_stop_needs_a_run(recorder: RecorderModel)
    ensures
        !recorder.running() ==> recorder.stop_refusal() == Some(
            ErrorModel::AppError("already stopped"@),
        ),
        recorder.running() ==> recorder.stop_refusal() is None,
{
}

/// Releasing a run makes room for the next: afterwards a stop request is
/// refused, a start request with a valid selection is admitted, and the
/// state shown is `Stopped`.
pub proof fn lemma_release_makes_room(recorder: RecorderModel, config: Config)
    requires
        config.valid_selection(),
    ensures
        !recorder.release().running(),
        recorder.release().stop_refusal() == Some(ErrorModel::AppError("already stopped"@)),
        recorder.release().start_refusal(config) is None,
        recorder.release().status() == PipelineState::Stopped,
{
}

/// Whatever a run settles on leaves it active, and `Error` is sticky: once
/// a run has settled on it, the state shown stays `Error` until the run
/// is released.
pub proof fn lemma_error_stays(recorder: RecorderModel, later: Option<PipelineState>)
    requires
        recorder.running(),
    ensures
        recorder.observe(later).running(),
        recorder.observe(Some(PipelineState::Error)).status() == PipelineState::Error,
        recorder.observe(Some(PipelineState::Error)).observe(later).status()
            == PipelineState::Error,
{
    let p = recorder.run->0;
    p.lemma_settled(PipelineState::Error);
    let failed = p.settled(PipelineState::Error);
    if later is Some {
        p.lemma_settled(later->0);
        failed.lemma_settled(later->0);
    }
}

/// A run settles on `Playing` only from `Stopped`, which is where a new
/// run begins: the state shown after a fresh run saw `Playing` is
/// `Playing`, and after it then saw `Stopped` it is `Stopped` again.
pub proof fn lemma_play_then_stop(recorder: RecorderModel)
    requires
        recorder.running(),
        recorder.status() == PipelineState::Stopped,
    ensures
        recorder.observe(Some(PipelineState::Playing)).status() == PipelineState::Playing,
        recorder.observe(Some(PipelineState::Playing)).observe(
            Some(PipelineState::Stopped),
        ).status() == PipelineState::Stopped,
{
    let p = recorder.run->0;
    p.lemma_settled(PipelineState::Playing);
    p.settled(PipelineState::Playing).lemma_settled(PipelineState::Stopped);
}

/// The lifecycle controller: it admits one run at a time and decides what
/// each answer of the engine and of the watcher means for it.
#[derive(Debug)]
pub struct Recorder {
    pipeline: Option<GstPipeline>,
    join_handle: bool,
    state_rx: Option<Receiver<Notice>>,
}

impl View for Recorder {
    type V = RecorderModel;

    closed spec fn view(&self) -> RecorderModel {
        RecorderModel {
            run: self.pipeline,
            watching: self.join_handle,
            listening: self.state_rx is Some,
        }
    }
}

impl Recorder {
    /// Every pipeline it holds is well formed, and a channel is held for
    /// an active run only.
    pub open spec fn wf(&self) -> bool {
        &&& self@.run matches Some(p) ==> p.wf()
        &&& self@.listening ==> self@.running()
    }

    /// Whether the controller holds the receiving half of a rendezvous
    /// channel.
    pub open spec fn listening(&self) -> bool {
        self@.listening
    }

    /// A controller without a run.
    pub fn new() -> (res: Result<Self, RecorderError>)
        ensures
            res matches Ok(r) && !r@.running() && !r@.watching && !r.listening() && r.wf(),
    {
        Ok(Recorder { pipeline: None, join_handle: false, state_rx: None })
    }

    /// Whether a run is active.
    pub fn is_running(&self) -> (res: bool)
        ensures
            res == self@.running(),
    {
        self.pipeline.is_some()
    }

    /// Admits a run and assembles its pipeline.
    ///
    /// Refused while a run is active. Otherwise the pipeline that `config`
    /// selects is assembled as [`GstPipeline::assemble`] says, which fails
    /// for a selection that is not valid. The plan of the pipeline is for
    /// the engine to carry out; what came of it goes to [`Self::install`].
    pub fn start(&self, config: Config) -> (res: Result<GstPipeline, RecorderError>)
        ensures
            self@.start_refusal(config) matches Some(e) ==> fails_with(res, e),
            self@.start_refusal(config) is None ==> (res matches Ok(p) && p.wf() && p.plan()
                == GstPipeline::assembly(config) && p.lifecycle() == PipelineState::Stopped
                && p.label() == config.name@ && p.lasting() == config.duration),
    {
        if self.pipeline.is_some() {
            return Err(RecorderError::AppError(String::from_str("already started")));
        }
        GstPipeline::assemble(config)
    }

    /// Takes an assembled pipeline whose plan the engine has carried out,
    /// with the step that failed if one did.
    ///
    /// The pipeline becomes the active run exactly when no step failed and
    /// no run is active. Otherwise it is given up: the caller gets the
    /// error of the failed step, or that a run was started already, and the
    /// commands that undo what the engine did carry out.
    pub fn install(&mut self, pipeline: GstPipeline, failure: Option<StepFailure>) -> (res: Reply)
        requires
            old(self).wf(),
            pipeline.wf(),
        ensures
            final(self).wf(),
            final(self)@ == old(self)@.install(pipeline, failure is Some),
            final(self).listening() == old(self).listening(),
            !res.join_watcher,
            old(self)@.running() ==> fails_with(
                res.result,
                ErrorModel::AppError("already started"@),
            ),
            !old(self)@.running() && failure is None ==> res.result is Ok && res.commands@.len()
                == 0,
            !old(self)@.running() ==> (failure matches Some(f) ==> res.result matches Err(e) && e@
                == (if f.index < pipeline.plan().len() {
                ErrorModel::ElementError(
                    pipeline.plan()[f.index as int].failure_text(f.cause@),
                )
            } else {
                ErrorModel::AppError("no such step"@)
            })),
            old(self)@.running() || failure is Some ==> undoes(
                res.commands.deep_view(),
                pipeline.plan(),
                match failure {
                    Some(f) => clamped(f.index, pipeline.plan().len()),
                    None => pipeline.plan().len() as int,
                },
            ),
    {
        let executed = match &failure {
            Some(f) => f.index,
            None => pipeline.steps().len(),
        };
        if self.pipeline.is_some() {
            return Reply {
                result: Err(RecorderError::AppError(String::from_str("already started"))),
                commands: pipeline.teardown(executed),
                join_watcher: false,
            };
        }
        match failure {
            Some(f) => Reply {
                result: Err(pipeline.failure(&f)),
                commands: pipeline.teardown(executed),
                join_watcher: false,
            },
            None => {
                self.pipeline = Some(pipeline);
                Reply { result: Ok(()), commands: Vec::new(), join_watcher: false }
            },
        }
    }

    /// Registers a watcher for the active run unless it has one. Where it
    /// registers one, it opens a fresh rendezvous channel, keeps the
    /// receiving half and hands out the sending half, for the watcher that
    /// the caller is to spawn.
    pub fn maybe_start_thread(&mut self) -> (res: Option<Sender<Notice>>)
        ensures
            res is Some <==> old(self)@.needs_watcher(),
            res matches Some(tx) ==> capacity_of(tx) == RENDEZVOUS_CAPACITY,
            res is Some ==> final(self).listening(),
            res is None ==> final(self).listening() == old(self).listening(),
            final(self)@ == old(self)@.spawn(),
            final(self).wf() == old(self).wf(),
    {
        if self.join_handle {
            return None;
        }
        if self.pipeline.is_none() {
            return None;
        }
        let (state_tx, state_rx) = bounded(RENDEZVOUS_CAPACITY);
        self.state_rx = Some(state_rx);
        self.join_handle = true;
        Some(state_tx)
    }

    /// The pipeline of the active run.
    pub fn lock_pipeline(&self) -> (res: Result<&GstPipeline, RecorderError>)
        ensures
            self@.run matches Some(p) ==> res == Ok::<&GstPipeline, RecorderError>(&p),
            self@.run is None ==> fails_with(res, ErrorModel::AppError("Pipeline is None"@)),
    {
        match &self.pipeline {
            Some(pipeline) => Ok(pipeline),
            None => Err(RecorderError::AppError(String::from_str("Pipeline is None"))),
        }
    }

    /// The error of a refused request for `target`, where `cause` is the
    /// engine's reason: a state error that names the target and the reason.
    pub open spec fn refused_state(target: EngineState, cause: Seq<char>) -> ErrorModel {
        GstPipeline::refused_state(target, cause)
    }

    /// What the engine's answer to a request for `target` means for the
    /// active run: nothing on success, and else the state error of
    /// [`GstPipeline::set_state`], handed on as it is. Without a run there
    /// is no pipeline to ask.
    pub fn change_pipeline_state(&self, target: EngineState, outcome: Result<(), String>) -> (res:
        Result<(), RecorderError>)
        ensures
            !self@.running() ==> fails_with(res, ErrorModel::AppError("Pipeline is None"@)),
            self@.running() && outcome is Ok ==> res is Ok,
            self@.running() ==> (outcome matches Err(cause) ==> fails_with(
                res,
                Self::refused_state(target, cause@),
            )),
    {
        let gst_pipeline = match self.lock_pipeline() {
            Ok(pipeline) => pipeline,
            Err(e) => {
                return Err(e);
            },
        };
        gst_pipeline.set_state(target, outcome)
    }

    /// The error that `delivery` stands for when `start` waited for it, if
    /// it stands for one.
    fn start_error(delivery: Delivery) -> (res: Result<(), RecorderError>)
        ensures
            agrees(res, delivery@.start_verdict()),
    {
        match delivery {
            Delivery::Published(notice) => Self::notice_error(notice),
            Delivery::Disconnected => Err(
                RecorderError::StateError(
                    String::from_str("Error during state transition: RecvError"),
                ),
            ),
            Delivery::TimedOut => Err(
                RecorderError::StateError(
                    String::from_str("Timed out waiting for the pipeline state"),
                ),
            ),
        }
    }

    /// The error that `delivery` stands for when `stop` waited for it, if
    /// it stands for one.
    fn stop_error(delivery: Delivery) -> (res: Result<(), RecorderError>)
        ensures
            agrees(res, delivery@.stop_verdict()),
    {
        match delivery {
            Delivery::Published(notice) => Self::notice_error(notice),
            Delivery::Disconnected => Ok(()),
            Delivery::TimedOut => Err(
                RecorderError::StateError(
                    String::from_str("Timed out waiting for the pipeline state"),
                ),
            ),
        }
    }

    /// The failure that a published notice stands for, if it is one of an
    /// error.
    fn notice_error(notice: Notice) -> (res: Result<(), RecorderError>)
        ensures
            agrees(res, DeliveryModel::failure_of(notice@)),
    {
        match notice.state {
            PipelineState::Error => match notice.failure {
                Some(e) => Err(e),
                None => Err(RecorderError::PipelineInErrorState),
            },
            _ => Ok(()),
        }
    }

    /// The lifecycle state that `delivery` shows, if it shows one.
    fn shown(delivery: &Delivery) -> (res: Option<PipelineState>)
        ensures
            res == delivery@.shows(),
    {
        match delivery {
            Delivery::Published(notice) => Some(notice.state),
            Delivery::Disconnected => None,
            Delivery::TimedOut => Some(PipelineState::Error),
        }
    }

    /// Settles the active run on the state that was shown, if there is a
    /// run and a state.
    fn settle(&mut self, shown: Option<PipelineState>)
        ensures
            final(self)@ == old(self)@.observe(shown),
            final(self).wf() == old(self).wf(),
            final(self).listening() == old(self).listening(),
    {
        match shown {
            Some(state) => {
                match self.pipeline.take() {
                    Some(mut pipeline) => {
                        proof {
                            pipeline.lemma_settled(state);
                        }
                        let _ = pipeline.observe(state);
                        self.pipeline = Some(pipeline);
                    },
                    None => {},
                }
            },
            None => {},
        }
    }

    /// Ends the wait of `start` with what the rendezvous delivered after
    /// the engine was asked for `Playing`: see [`start_settled`].
    pub fn confirm_start(&mut self, delivery: Delivery) -> (res: Reply)
        ensures
            final(self).wf() == old(self).wf(),
            final(self).listening() == old(self).listening(),
            start_settled(old(self)@, final(self)@, res, delivery@),
    {
        if self.pipeline.is_none() {
            return Reply {
                result: Err(RecorderError::AppError(String::from_str("Pipeline is None"))),
                commands: Vec::new(),
                join_watcher: false,
            };
        }
        let mut commands: Vec<EngineCommand> = Vec::new();
        assert(commands.deep_view() =~= Seq::<CommandModel>::empty());
        match &delivery {
            Delivery::TimedOut => {
                commands.push(EngineCommand::SetState { state: EngineState::Null });
                assert(commands.deep_view() =~= seq![
                    CommandModel::SetState { state: EngineState::Null },
                ]);
            },
            _ => {},
        }
        self.settle(Self::shown(&delivery));
        Reply { result: Self::start_error(delivery), commands, join_watcher: false }
    }

    /// Admits a stop request: refused without an active run, and else the
    /// command that sends the end of stream into the pipeline. The answer
    /// of the rendezvous goes to [`Self::confirm_stop`].
    pub fn stop(&self) -> (res: Result<EngineCommand, RecorderError>)
        ensures
            self@.stop_refusal() matches Some(e) ==> fails_with(res, e),
            self@.stop_refusal() is None ==> (res matches Ok(c) && c@ == CommandModel::SendEos),
    {
        if self.pipeline.is_none() {
            return Err(RecorderError::AppError(String::from_str("already stopped")));
        }
        Ok(EngineCommand::SendEos)
    }

    /// Ends the wait of `stop` with what the rendezvous delivered after the
    /// end of stream was sent: see [`stop_settled`].
    pub fn confirm_stop(&mut self, delivery: Delivery) -> (res: Reply)
        requires
            old(self).wf(),
        ensures
            final(self).wf(),
            !final(self).listening(),
            stop_settled(old(self)@, final(self)@, res, delivery@),
    {
        let pipeline = match self.pipeline.take() {
            Some(pipeline) => pipeline,
            None => {
                return Reply {
                    result: Err(RecorderError::AppError(String::from_str("already stopped"))),
                    commands: Vec::new(),
                    join_watcher: false,
                };
            },
        };
        let answered = match &delivery {
            Delivery::TimedOut => false,
            _ => true,
        };
        let join_watcher = self.join_handle && answered;
        self.join_handle = false;
        self.state_rx = None;
        let commands = pipeline.teardown(pipeline.steps().len());
        Reply { result: Self::stop_error(delivery), commands, join_watcher }
    }

    /// What the rendezvous delivers within `millis` milliseconds. Without
    /// a channel there is no watcher to hear from, and the answer is that
    /// it is gone; with one, what comes is up to the watcher.
    fn wait(&self, millis: u32) -> (res: Delivery)
        ensures
            !self.listening() ==> res@ == DeliveryModel::Disconnected,
    {
        match &self.state_rx {
            Some(rx) => recv_timeout(rx, millis),
            None => Delivery::Disconnected,
        }
    }

    /// Waits for the first notice of the active run, for at most `millis`
    /// milliseconds, and ends the wait of `start` with what came: see
    /// [`Self::confirm_start`]. What comes is up to the watcher and the
    /// engine; whatever it is, the reply is the one that belongs to it.
    pub fn await_start(&mut self, millis: u32) -> (res: Reply)
        ensures
            final(self).wf() == old(self).wf(),
            exists|delivery: DeliveryModel|
                #[trigger] start_settled(old(self)@, final(self)@, res, delivery),
            !old(self).listening() ==> start_settled(
                old(self)@,
                final(self)@,
                res,
                DeliveryModel::Disconnected,
            ),
            final(self)@.running() == old(self)@.running(),
            final(self).listening() == old(self).listening(),
    {
        let delivery = if self.pipeline.is_some() {
            self.wait(millis)
        } else {
            Delivery::Disconnected
        };
        let ghost delivered = delivery@;
        let reply = self.confirm_start(delivery);
        assert(start_settled(old(self)@, self@, reply, delivered));
        reply
    }

    /// Waits for the last notice of the active run, for at most `millis`
    /// milliseconds, and ends the wait of `stop` with what came: see
    /// [`Self::confirm_stop`]. Whatever comes, the run is released.
    pub fn await_stop(&mut self, millis: u32) -> (res: Reply)
        requires
            old(self).wf(),
        ensures
            final(self).wf(),
            exists|delivery: DeliveryModel|
                #[trigger] stop_settled(old(self)@, final(self)@, res, delivery),
            !old(self).listening() ==> stop_settled(
                old(self)@,
                final(self)@,
                res,
                DeliveryModel::Disconnected,
            ),
            !final(self)@.running(),
            !final(self).listening(),
    {
        let delivery = if self.pipeline.is_some() {
            self.wait(millis)
        } else {
            Delivery::Disconnected
        };
        let ghost delivered = delivery@;
        let reply = self.confirm_stop(delivery);
        assert(stop_settled(old(self)@, self@, reply, delivered));
        reply
    }

    /// The lifecycle state last settled: that of the active run, and
    /// `Stopped` without one.
    pub fn get_state(&self) -> (res: PipelineState)
        ensures
            res == self@.status(),
    {
        match &self.pipeline {
            Some(pipeline) => pipeline._get_state(),
            None => PipelineState::Stopped,
        }
    }

    /// Watches a bus that delivers `messages` in order: classifies each
    /// one, publishes what it calls for, and stops with the first message
    /// that ends the run. Messages after that one stay on the bus.
    pub fn watch_bus(messages: &Vec<BusMessage>) -> (res: WatchLog)
        ensures
            res.consumed <= messages.len(),
            forall|i: int| 0 <= i < res.consumed - 1 ==> !ends_run(#[trigger] messages[i]@),
            res.finished ==> res.consumed >= 1 && ends_run(messages[res.consumed - 1]@),
            !res.finished ==> res.consumed == messages.len(),
            !res.finished ==> (forall|i: int|
                0 <= i < res.consumed ==> !ends_run(#[trigger] messages[i]@)),
            res.notices.deep_view() == notices_for(messages.deep_view().take(res.consumed as int)),
    {
        let mut notices: Vec<Notice> = Vec::new();
        let mut i: usize = 0;
        let mut finished = false;
        proof {
            assert(messages.deep_view().take(0) =~= Seq::<MessageModel>::empty());
            assert(notices.deep_view() =~= Seq::<NoticeModel>::empty());
        }
        while i < messages.len() && !finished
            invariant
                i <= messages.len(),
                finished ==> i >= 1 && ends_run(messages[i - 1]@),
                forall|j: int| 0 <= j < i - 1 ==> !ends_run(#[trigger] messages[j]@),
                !finished ==> forall|j: int| 0 <= j < i ==> !ends_run(#[trigger] messages[j]@),
                notices.deep_view() == notices_for(messages.deep_view().take(i as int)),
            decreases messages.len() - i + (if finished { 0int } else { 1int }),
        {
            let verdict = judge(&messages[i]);
            proof {
                let now = messages.deep_view().take(i as int + 1);
                assert(now.drop_last() =~= messages.deep_view().take(i as int));
                assert(now.last() == messages[i as int]@);
            }
            let ghost before = notices.deep_view();
            match verdict.notice {
                Some(n) => {
                    notices.push(n);
                    proof {
                        assert(notices.deep_view() =~= before.push(n@));
                    }
                },
                None => {},
            }
            finished = verdict.terminal;
            i = i + 1;
        }
        WatchLog { notices, consumed: i, finished }
    }
}

} // verus!
