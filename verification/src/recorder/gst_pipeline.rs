//! The lifecycle state machine and the assembled pipeline.
use crate::container::{
    attached_after, clamped, created_by, fits, lemma_step_effect, sound, undoes, with_elements,
    Container,
};
use crate::encoder::Encoder;
use crate::engine::{CommandModel, EngineCommand, EngineState, Step, StepFailure, StepModel};
use crate::input::Input;
use crate::output::Output;
use crate::recorder::errors::{fails_with, ErrorModel, RecorderError};
use crate::recorder::Config as RecorderConfig;
use crate::traits::{Pipeline, PipelineSink, PipelineSrc};
use vstd::prelude::*;
use vstd::string::*;

verus! {

/// Lifecycle state of a pipeline as the lifecycle manager tracks it.
#[derive(Clone, Copy, Debug, PartialEq, Eq, Structural)]
pub enum PipelineState {
    Stopped,
    Playing,
    Error,
}

impl PipelineState {
    /// The transition table: the state a request leads to, or `None` where the
    /// request is refused.
    ///
    /// `Stopped` may go to `Playing` and `Playing` to `Stopped`; every state
    /// may go to `Error`; nothing else is allowed. In particular `Error` is
    /// left by no request.
    pub open spec fn next(self, requested: PipelineState) -> Option<PipelineState> {
        match (self, requested) {
            (PipelineState::Stopped, PipelineState::Playing) => Some(PipelineState::Playing),
            (PipelineState::Playing, PipelineState::Stopped) => Some(PipelineState::Stopped),
            (_, PipelineState::Error) => Some(PipelineState::Error),
            (_, _) => None,
        }
    }

    /// The text of the refusal for a request that [`Self::next`] does not allow.
    pub open spec fn refusal(self, requested: PipelineState) -> Seq<char> {
        if self == PipelineState::Error {
            "cannot leave Error state"@
        } else {
            "invalid transition"@
        }
    }

    pub open spec fn spec_name(self) -> Seq<char> {
        match self {
            PipelineState::Stopped => "Stopped"@,
            PipelineState::Playing => "Playing"@,
            PipelineState::Error => "Error"@,
        }
    }

    /// The state's name, as it is printed.
    pub fn name(&self) -> (res: &'static str)
        ensures
            res@ == self.spec_name(),
    {
        match self {
            PipelineState::Stopped => "Stopped",
            PipelineState::Playing => "Playing",
            PipelineState::Error => "Error",
        }
    }

    /// Looks a request up in the transition table.
    pub fn is_valid_transition(&self, new_state: &PipelineState) -> (res: Result<
        PipelineState,
        RecorderError,
    >)
        ensures
            self.next(*new_state) matches Some(s) ==> res == Ok::<PipelineState, RecorderError>(s),
            self.next(*new_state) is None ==> fails_with(
                res,
                ErrorModel::AppError(self.refusal(*new_state)),
            ),
    {
        match (self, new_state) {
            (PipelineState::Stopped, PipelineState::Playing) => Ok(PipelineState::Playing),
            (PipelineState::Playing, PipelineState::Stopped) => Ok(PipelineState::Stopped),
            (_, PipelineState::Error) => Ok(PipelineState::Error),
            (PipelineState::Error, _) => Err(
                RecorderError::AppError(String::from_str("cannot leave Error state")),
            ),
            (_, _) => Err(RecorderError::AppError(String::from_str("invalid transition"))),
        }
    }

    /// Moves to `state` where the table allows it, and refuses otherwise,
    /// leaving the state as it was.
    pub fn set_state(&mut self, state: PipelineState) -> (res: Result<(), RecorderError>)
        ensures
            old(self).next(state) matches Some(s) ==> res.is_ok() && *final(self) == s,
            old(self).next(state) is None ==> *final(self) == *old(self) && fails_with(
                res,
                ErrorModel::AppError(old(self).refusal(state)),
            ),
    {
        let result = self.is_valid_transition(&state);
        match result {
            Ok(new_state) => {
                *self = new_state;
                Ok(())
            },
            Err(e) => Err(e),
        }
    }
}

/// `Error` is sticky: whatever is requested, a pipeline in `Error` stays there.
pub proof fn lemma_error_is_sticky(requested: PipelineState)
    ensures
        PipelineState::Error.next(requested) is Some ==> PipelineState::Error.next(requested)
            == Some(PipelineState::Error),
        requested != PipelineState::Error ==> PipelineState::Error.next(requested) is None,
{
}

/// A request is granted exactly when it is one of the three rows of the
/// table, and a granted request leads to the requested state.
pub proof fn lemma_transition_table(current: PipelineState, requested: PipelineState)
    ensures
        current.next(requested) is Some <==> (current == PipelineState::Stopped && requested
            == PipelineState::Playing) || (current == PipelineState::Playing && requested
            == PipelineState::Stopped) || requested == PipelineState::Error,
        current.next(requested) matches Some(s) ==> s == requested,
{
}

/// The step that links the input's outlet `from` to the encoder's inlet `to`.
pub open spec fn input_link(from: usize, to: usize) -> StepModel {
    StepModel {
        command: CommandModel::Link { from, to },
        message: "Error linking Input to Codec: "@,
        with_cause: true,
    }
}

/// The step that links the encoder's outlet `from` to the output's inlet `to`.
pub open spec fn output_link(from: usize, to: usize) -> StepModel {
    StepModel {
        command: CommandModel::Link { from, to },
        message: "Error linking Codec to Output: "@,
        with_cause: true,
    }
}

/// What attaching the three stages to a container with the plan `plan`
/// leads to: the plan afterwards, and the error if a stage was refused.
///
/// The stages are attached in the order input, encoder, output. The first
/// refusal ends it, and what was attached before stays attached.
pub open spec fn link_outcome(
    plan: Seq<StepModel>,
    input: Input,
    encoder: Encoder,
    output: Output,
) -> (Seq<StepModel>, Option<ErrorModel>) {
    let with_input = plan + input.attach_plan();
    let with_encoder = with_input + encoder.attach_plan();
    let with_output = with_encoder + output.attach_plan();
    if !sound(with_input) {
        (plan, Some(input.attach_refusal()))
    } else if !(encoder.implemented() && sound(with_encoder)) {
        (with_input, Some(encoder.attach_refusal()))
    } else if !sound(with_output) {
        (with_encoder, Some(output.attach_refusal()))
    } else {
        (with_output, None)
    }
}

/// What connecting the three stages in a container with the plan `plan`
/// leads to: the plan afterwards, and the error if a link was refused.
///
/// The input is linked to the encoder, then the encoder to the output. A
/// link is refused where one of its ends is not in the container, and
/// both where the encoder has no connection points.
pub open spec fn connect_outcome(
    plan: Seq<StepModel>,
    input: Input,
    encoder: Encoder,
    output: Output,
) -> (Seq<StepModel>, Option<ErrorModel>) {
    let attached = attached_after(plan);
    if !encoder.implemented() {
        (plan, Some(ErrorModel::ElementError("Encoder not implemented"@)))
    } else if !(attached.contains(input.outlet()) && attached.contains(encoder.inlet())) {
        (plan, Some(ErrorModel::ElementError("Error linking Input to Codec: "@)))
    } else if !(attached.contains(encoder.outlet()) && attached.contains(output.inlet())) {
        (
            plan.push(input_link(input.outlet(), encoder.inlet())),
            Some(ErrorModel::ElementError("Error linking Codec to Output: "@)),
        )
    } else {
        (
            plan.push(input_link(input.outlet(), encoder.inlet())).push(
                output_link(encoder.outlet(), output.inlet()),
            ),
            None,
        )
    }
}

/// What detaching the three stages from a container with the plan `plan`
/// leads to: the plan afterwards, and the first error if a stage was
/// refused.
///
/// Every stage is tried, in the order input, encoder, output; a refusal
/// does not keep the later ones from being detached.
pub open spec fn unlink_outcome(
    plan: Seq<StepModel>,
    input: Input,
    encoder: Encoder,
    output: Output,
) -> (Seq<StepModel>, Option<ErrorModel>) {
    let input_ok = sound(plan + input.detach_plan());
    let after_input = if input_ok {
        plan + input.detach_plan()
    } else {
        plan
    };
    let encoder_ok = encoder.implemented() && sound(after_input + encoder.detach_plan());
    let after_encoder = if encoder_ok {
        after_input + encoder.detach_plan()
    } else {
        after_input
    };
    let output_ok = sound(after_encoder + output.detach_plan());
    let after_output = if output_ok {
        after_encoder + output.detach_plan()
    } else {
        after_encoder
    };
    (
        after_output,
        if !input_ok {
            Some(input.detach_refusal())
        } else if !encoder_ok {
            Some(encoder.detach_refusal())
        } else if !output_ok {
            Some(output.detach_refusal())
        } else {
            None
        },
    )
}

/// True when `res` is what `outcome` calls for: success where it holds no
/// error, and else that error.
pub open spec fn agrees(res: Result<(), RecorderError>, outcome: Option<ErrorModel>) -> bool {
    match outcome {
        Some(e) => fails_with(res, e),
        None => res is Ok,
    }
}

/// The three stages of a run with the container that holds their elements.
#[derive(Debug)]
pub struct GstPipeline {
    name: String,
    duration: Option<u64>,
    pipeline: Container,
    state: PipelineState,
    input: Input,
    encoder: Encoder,
    output: Output,
}

impl GstPipeline {
    /// The container's plan is sound.
    pub closed spec fn wf(&self) -> bool {
        self.pipeline.wf()
    }

    /// The plan recorded so far.
    pub closed spec fn plan(&self) -> Seq<StepModel> {
        self.pipeline.plan()
    }

    /// The lifecycle state last settled.
    pub closed spec fn lifecycle(&self) -> PipelineState {
        self.state
    }

    /// The run's name.
    pub closed spec fn label(&self) -> Seq<char> {
        self.name@
    }

    /// After how many seconds the run ends by itself, if it does.
    pub closed spec fn lasting(&self) -> Option<u64> {
        self.duration
    }

    pub closed spec fn input(&self) -> Input {
        self.input
    }

    pub closed spec fn encoder(&self) -> Encoder {
        self.encoder
    }

    pub closed spec fn output(&self) -> Output {
        self.output
    }

    /// The pipeline after its lifecycle state was settled on `observed`:
    /// the state moves where the transition table allows it, and nothing
    /// else changes.
    pub closed spec fn settled(self, observed: PipelineState) -> GstPipeline {
        GstPipeline {
            state: match self.state.next(observed) {
                Some(s) => s,
                None => self.state,
            },
            ..self
        }
    }

    /// Settling changes the lifecycle state as the transition table says,
    /// and nothing else.
    pub proof fn lemma_settled(self, observed: PipelineState)
        ensures
            self.settled(observed).lifecycle() == (match self.lifecycle().next(observed) {
                Some(s) => s,
                None => self.lifecycle(),
            }),
            self.settled(observed).plan() == self.plan(),
            self.settled(observed).wf() == self.wf(),
            self.settled(observed).same_stages(&self),
    {
    }

    /// The same stages, name and duration: what no operation changes.
    pub open spec fn same_stages(&self, other: &GstPipeline) -> bool {
        &&& self.input() == other.input()
        &&& self.encoder() == other.encoder()
        &&& self.output() == other.output()
        &&& self.label() == other.label()
        &&& self.lasting() == other.lasting()
    }

    /// The plan of a well-formed pipeline is sound.
    pub proof fn lemma_plan_is_sound(&self)
        requires
            self.wf(),
        ensures
            sound(self.plan()),
    {
        self.pipeline.lemma_wf_is_sound();
    }

    /// The steps that create the elements of the three stages that `config`
    /// selects: those of the input, of the encoder, of the output.
    pub open spec fn creation(config: RecorderConfig) -> Seq<StepModel> {
        let inputs = Input::size(config.input);
        let encoders = Encoder::size(config.encoder);
        Input::creation(config.input, 0) + Encoder::creation(config.encoder, inputs as usize)
            + Output::creation(config.output, (inputs + encoders) as usize)
    }

    /// What holds of a pipeline that was just made for `config`: the plan
    /// creates the elements of the three stages and attaches none, the input
    /// has the first handles, the encoder the next, the output the last,
    /// and the pipeline is `Stopped`.
    pub open spec fn built_from(&self, config: RecorderConfig) -> bool {
        &&& self.wf()
        &&& self.plan() == Self::creation(config)
        &&& self.lifecycle() == PipelineState::Stopped
        &&& self.label() == config.name@
        &&& self.lasting() == config.duration
        &&& attached_after(self.plan()) == Set::<usize>::empty()
        &&& created_by(self.plan()) == Input::size(config.input) + Encoder::size(config.encoder)
            + Output::size(config.output)
        &&& self.input().handles() == seq![0usize, 1usize]
        &&& self.input().label() == Input::label_for(config.input)
        &&& (self.input() is Test <==> config.input.variant is Test)
        &&& self.encoder().selected_by(config.encoder.variant)
        &&& (config.encoder.variant.implemented() ==> self.encoder().handles() == seq![
            Input::size(config.input) as usize,
            (Input::size(config.input) + 1) as usize,
            (Input::size(config.input) + 2) as usize,
        ])
        &&& self.output().handles() == Output::handles_for(
            config.output,
            (Input::size(config.input) + Encoder::size(config.encoder)) as usize,
        )
        &&& self.output().label() == config.output.name@
        &&& (self.output() is FakeSink <==> config.output.variant is FakeSink)
    }

    /// Attaching the stages of a pipeline that was just made succeeds for a
    /// valid selection, with the steps of [`Self::attachment`], and leaves
    /// the elements of all three stages in the container. For any other
    /// selection the input is attached and the encoder is refused.
    pub proof fn lemma_link_fresh(&self, config: RecorderConfig)
        requires
            self.built_from(config),
        ensures
            config.valid_selection() ==> link_outcome(
                self.plan(),
                self.input(),
                self.encoder(),
                self.output(),
            ) == (Self::creation(config) + Self::attachment(config), None::<ErrorModel>),
            config.valid_selection() ==> sound(Self::creation(config) + Self::attachment(config)),
            config.valid_selection() ==> attached_after(
                Self::creation(config) + Self::attachment(config),
            ) == with_elements(
                with_elements(
                    with_elements(Set::<usize>::empty(), self.input().members()),
                    self.encoder().members(),
                ),
                self.output().members(),
            ),
            !config.valid_selection() ==> link_outcome(
                self.plan(),
                self.input(),
                self.encoder(),
                self.output(),
            ).1 == Some(ErrorModel::ElementError("Encoder not implemented"@)),
    {
        let created = self.plan();
        let input = self.input();
        let encoder = self.encoder();
        let output = self.output();
        self.lemma_plan_is_sound();
        let with_input = created + input.attach_plan();
        assert(fits(created, CommandModel::Add { elements: input.members() }));
        input.lemma_attach(created);
        if config.valid_selection() {
            assert(input.attach_plan() == Input::attachment(config.input, seq![0usize, 1usize]));
            assert(fits(with_input, CommandModel::Add { elements: encoder.members() }));
            encoder.lemma_attach(with_input);
            let with_encoder = with_input + encoder.attach_plan();
            assert(fits(with_encoder, CommandModel::Add { elements: output.members() }));
            output.lemma_attach(with_encoder);
            assert(with_encoder + output.attach_plan() =~= created + Self::attachment(config));
        }
    }

    /// Connecting the stages of a pipeline with a valid selection whose
    /// stages were just attached succeeds, with the steps of
    /// [`Self::connection`].
    pub proof fn lemma_connect_fresh(&self, fresh: GstPipeline, config: RecorderConfig)
        requires
            fresh.built_from(config),
            config.valid_selection(),
            self.same_stages(&fresh),
            self.plan() == Self::creation(config) + Self::attachment(config),
        ensures
            connect_outcome(self.plan(), self.input(), self.encoder(), self.output()) == (
                Self::assembly(config),
                None::<ErrorModel>,
            ),
    {
        fresh.lemma_link_fresh(config);
        let input = self.input();
        let encoder = self.encoder();
        let output = self.output();
        assert(input.members()[1] == input.outlet());
        assert(encoder.members()[0] == encoder.inlet());
        assert(encoder.members()[2] == encoder.outlet());
        assert(output.members()[0] == output.inlet());
        assert(self.plan().push(input_link(input.outlet(), encoder.inlet())).push(
            output_link(encoder.outlet(), output.inlet()),
        ) =~= Self::assembly(config));
    }

    /// Plans the creation of the elements of the three stages that `config`
    /// selects, in a container of their own. Nothing is attached yet, and
    /// the pipeline is `Stopped`.
    pub fn new(config: RecorderConfig) -> (res: Result<Self, RecorderError>)
        ensures
            res matches Ok(p) && p.built_from(config),
    {
        let mut pipeline = Container::new();
        let input = Input::new(config.input, &mut pipeline);
        let encoder = match Encoder::new(config.encoder, &mut pipeline) {
            Ok(encoder) => encoder,
            Err(e) => {
                return Err(e);
            },
        };
        let output = Output::new(config.output, &mut pipeline);
        assert(pipeline.plan() =~= Self::creation(config));
        Ok(
            Self {
                name: config.name,
                duration: config.duration,
                pipeline,
                state: PipelineState::Stopped,
                input,
                encoder,
                output,
            },
        )
    }

    /// The steps that attach the three stages that `config` selects, in
    /// the order input, encoder, output.
    pub open spec fn attachment(config: RecorderConfig) -> Seq<StepModel> {
        let inputs = Input::size(config.input);
        Input::attachment(config.input, seq![0usize, 1usize]) + Encoder::attachment(
            config.encoder,
            seq![inputs as usize, (inputs + 1) as usize, (inputs + 2) as usize],
        ) + Output::attachment(
            config.output,
            Output::handles_for(config.output, (inputs + 3) as usize),
        )
    }

    /// The steps that connect the three stages that `config` selects: the
    /// input's queue to the encoder's converter, then the encoder's parser
    /// to the first element of the output.
    pub open spec fn connection(config: RecorderConfig) -> Seq<StepModel> {
        let inputs = Input::size(config.input);
        seq![
            input_link(1, inputs as usize),
            output_link((inputs + 2) as usize, (inputs + 3) as usize),
        ]
    }

    /// The whole plan of a run with a valid selection: create the elements,
    /// attach the stages, connect them.
    pub open spec fn assembly(config: RecorderConfig) -> Seq<StepModel> {
        Self::creation(config) + Self::attachment(config) + Self::connection(config)
    }

    /// Assembles the pipeline that `config` selects: plans the creation of
    /// the elements of its stages, their attachment in the order input,
    /// encoder, output, and the two links between them. The pipeline is not
    /// started.
    ///
    /// With a valid selection this succeeds, and the plan is that of
    /// [`Self::assembly`]. With any other it fails, because the encoder
    /// cannot be attached.
    pub fn assemble(config: RecorderConfig) -> (res: Result<Self, RecorderError>)
        ensures
            config.valid_selection() ==> (res matches Ok(p) && p.wf() && p.plan() == Self::assembly(
                config,
            ) && p.lifecycle() == PipelineState::Stopped && p.label() == config.name@
                && p.lasting() == config.duration),
            config.valid_selection() ==> sound(Self::assembly(config)),
            !config.valid_selection() ==> fails_with(
                res,
                ErrorModel::ElementError("Encoder not implemented"@),
            ),
    {
        let mut pipeline = match Self::new(config) {
            Ok(pipeline) => pipeline,
            Err(e) => {
                return Err(e);
            },
        };
        let ghost fresh = pipeline;
        proof {
            fresh.lemma_link_fresh(config);
        }
        match pipeline.link_pipelines() {
            Ok(()) => {},
            Err(e) => {
                return Err(e);
            },
        }
        proof {
            pipeline.lemma_connect_fresh(fresh, config);
        }
        match pipeline.connect_pipelines() {
            Ok(()) => {
                proof {
                    pipeline.lemma_plan_is_sound();
                }
                Ok(pipeline)
            },
            Err(e) => Err(e),
        }
    }

    /// The plan recorded so far.
    pub fn steps(&self) -> (res: &Vec<Step>)
        ensures
            res.deep_view() == self.plan(),
    {
        self.pipeline.steps()
    }

    /// The run's name.
    pub fn name(&self) -> (res: &str)
        ensures
            res@ == self.label(),
    {
        self.name.as_str()
    }

    /// The error of a request for `state` that the engine refused with
    /// `cause`: a state error that names the state asked for and the
    /// engine's reason.
    pub open spec fn refused_state(state: EngineState, cause: Seq<char>) -> ErrorModel {
        ErrorModel::StateError(
            "Failed to transition pipeline state to "@ + state.spec_name() + ": "@ + cause,
        )
    }

    /// What the engine's answer to a request for `state` means: nothing on
    /// success, and on refusal a state error with the state asked for and
    /// the engine's reason. The lifecycle state is not touched: it moves
    /// only when the watcher has seen the change.
    pub fn set_state(&self, state: EngineState, outcome: Result<(), String>) -> (res: Result<
        (),
        RecorderError,
    >)
        ensures
            outcome is Ok ==> res is Ok,
            outcome matches Err(cause) ==> fails_with(res, Self::refused_state(state, cause@)),
    {
        match outcome {
            Ok(()) => Ok(()),
            Err(cause) => Err(
                RecorderError::StateError(
                    String::from_str("Failed to transition pipeline state to ").concat(
                        state.name(),
                    ).concat(": ").concat(cause.as_str()),
                ),
            ),
        }
    }

    /// What follows the engine's answer to step `index` of the plan. After
    /// a step that succeeded the next step is due, or none after the last;
    /// a step that failed ends the run of the plan, and no later step is
    /// carried out.
    pub fn after_step(&self, index: usize, outcome: Result<(), String>) -> (res: Result<
        Option<usize>,
        StepFailure,
    >)
        requires
            self.wf(),
            index < self.plan().len(),
        ensures
            outcome is Ok && index + 1 < self.plan().len() ==> res == Ok::<
                Option<usize>,
                StepFailure,
            >(Some((index + 1) as usize)),
            outcome is Ok && index + 1 == self.plan().len() ==> res == Ok::<
                Option<usize>,
                StepFailure,
            >(None),
            outcome matches Err(cause) ==> (res matches Err(f) && f.index == index && f.cause@
                == cause@),
    {
        let planned = self.pipeline.steps().len();
        match outcome {
            Ok(()) => if index + 1 < planned {
                Ok(Some(index + 1))
            } else {
                Ok(None)
            },
            Err(cause) => Err(StepFailure { index, cause }),
        }
    }

    /// The lifecycle state last settled.
    pub fn _get_state(&self) -> (res: PipelineState)
        ensures
            res == self.lifecycle(),
    {
        self.state
    }

    /// Settles the lifecycle state on `observed`, where the transition
    /// table allows it.
    pub fn observe(&mut self, observed: PipelineState) -> (res: Result<(), RecorderError>)
        ensures
            *final(self) == old(self).settled(observed),
            final(self).plan() == old(self).plan(),
            final(self).wf() == old(self).wf(),
            final(self).same_stages(old(self)),
            old(self).lifecycle().next(observed) matches Some(s) ==> res is Ok && final(self).lifecycle() == s,
            old(self).lifecycle().next(observed) is None ==> final(self).lifecycle() == old(self).lifecycle() && fails_with(
                res,
                ErrorModel::AppError(old(self).lifecycle().refusal(observed)),
            ),
    {
        self.state.set_state(observed)
    }

    /// Plans the attachment of the three stages: see [`link_outcome`].
    pub fn link_pipelines(&mut self) -> (res: Result<(), RecorderError>)
        requires
            old(self).wf(),
        ensures
            final(self).wf(),
            final(self).same_stages(old(self)),
            final(self).lifecycle() == old(self).lifecycle(),
            final(self).plan() == link_outcome(
                old(self).plan(),
                old(self).input(),
                old(self).encoder(),
                old(self).output(),
            ).0,
            agrees(
                res,
                link_outcome(
                    old(self).plan(),
                    old(self).input(),
                    old(self).encoder(),
                    old(self).output(),
                ).1,
            ),
    {
        match self.input.link(&mut self.pipeline) {
            Ok(()) => {},
            Err(e) => {
                return Err(e);
            },
        }
        match self.encoder.link(&mut self.pipeline) {
            Ok(()) => {},
            Err(e) => {
                return Err(e);
            },
        }
        self.output.link(&mut self.pipeline)
    }

    /// Plans the links between the stages: see [`connect_outcome`].
    pub fn connect_pipelines(&mut self) -> (res: Result<(), RecorderError>)
        requires
            old(self).wf(),
        ensures
            final(self).wf(),
            final(self).same_stages(old(self)),
            final(self).lifecycle() == old(self).lifecycle(),
            final(self).plan() == connect_outcome(
                old(self).plan(),
                old(self).input(),
                old(self).encoder(),
                old(self).output(),
            ).0,
            agrees(
                res,
                connect_outcome(
                    old(self).plan(),
                    old(self).input(),
                    old(self).encoder(),
                    old(self).output(),
                ).1,
            ),
    {
        let implemented = match &self.encoder {
            Encoder::X264(_) => true,
            Encoder::X265(_) => true,
            _ => false,
        };
        if !implemented {
            return Err(RecorderError::ElementError(String::from_str("Encoder not implemented")));
        }
        let input_src = self.input.source();
        let codec_sink = self.encoder.sink();
        let codec_src = self.encoder.source();
        let output_sink = self.output.sink();
        let ghost before = self.pipeline.plan();
        match self.pipeline.link(
            input_src,
            codec_sink,
            String::from_str("Error linking Input to Codec: "),
            true,
        ) {
            Ok(()) => {},
            Err(e) => {
                return Err(e);
            },
        }
        proof {
            lemma_step_effect(before, input_link(input_src, codec_sink));
        }
        self.pipeline.link(
            codec_src,
            output_sink,
            String::from_str("Error linking Codec to Output: "),
            true,
        )
    }

    /// Plans the detachment of the three stages: see [`unlink_outcome`].
    pub fn unlink_pipelines(&mut self) -> (res: Result<(), RecorderError>)
        requires
            old(self).wf(),
        ensures
            final(self).wf(),
            final(self).same_stages(old(self)),
            final(self).lifecycle() == old(self).lifecycle(),
            final(self).plan() == unlink_outcome(
                old(self).plan(),
                old(self).input(),
                old(self).encoder(),
                old(self).output(),
            ).0,
            agrees(
                res,
                unlink_outcome(
                    old(self).plan(),
                    old(self).input(),
                    old(self).encoder(),
                    old(self).output(),
                ).1,
            ),
    {
        let first = self.input.unlink(&mut self.pipeline);
        let second = self.encoder.unlink(&mut self.pipeline);
        let third = self.output.unlink(&mut self.pipeline);
        match first {
            Err(e) => Err(e),
            Ok(()) => match second {
                Err(e) => Err(e),
                Ok(()) => third,
            },
        }
    }

    /// The element error for a step that the engine failed, or an
    /// application error where the plan has no such step.
    pub fn failure(&self, failure: &StepFailure) -> (res: RecorderError)
        ensures
            failure.index < self.plan().len() ==> res@ == ErrorModel::ElementError(
                self.plan()[failure.index as int].failure_text(failure.cause@),
            ),
            failure.index >= self.plan().len() ==> res@ == ErrorModel::AppError("no such step"@),
    {
        let steps = self.pipeline.steps();
        if failure.index < steps.len() {
            steps[failure.index].error(failure.cause.as_str())
        } else {
            RecorderError::AppError(String::from_str("no such step"))
        }
    }

    /// The commands that undo a run whose engine carried out the first
    /// `executed` steps of the plan and no more.
    pub fn teardown(&self, executed: usize) -> (res: Vec<EngineCommand>)
        requires
            self.wf(),
        ensures
            undoes(res.deep_view(), self.plan(), clamped(executed, self.plan().len())),
    {
        self.pipeline.teardown(executed)
    }
}

} // verus!
