//! Error kinds of the recorder and the log entry the control API returns.
use crate::engine::EngineState;
use vstd::prelude::*;
use vstd::string::*;

verus! {

/// What went wrong, and in which part of a run.
#[derive(Clone, Debug, PartialEq, Eq)]
pub enum RecorderError {
    /// A named pipeline could not be taken to a state; holds the name and
    /// the state.
    PipelineStateChangeError(String, EngineState),
    PipelineInErrorState,
    PipelineLockError,
    /// A native element could not be created, added or linked.
    ElementError(String),
    InputError(String),
    OutputError(String),
    /// The engine rejected a transition, or none was confirmed.
    StateError(String),
    /// A protocol rule was broken by the caller.
    AppError(String),
}

/// Mathematical model of a [`RecorderError`].
pub enum ErrorModel {
    PipelineStateChangeError(Seq<char>, EngineState),
    PipelineInErrorState,
    PipelineLockError,
    ElementError(Seq<char>),
    InputError(Seq<char>),
    OutputError(Seq<char>),
    StateError(Seq<char>),
    AppError(Seq<char>),
}

impl ErrorModel {
    /// The text shown to a user for this error.
    pub open spec fn message(self) -> Seq<char> {
        match self {
            ErrorModel::PipelineStateChangeError(name, state) => "Failed to set "@ + name
                + " pipeline state to: "@ + state.spec_name(),
            ErrorModel::PipelineInErrorState => "Pipeline is in error state"@,
            ErrorModel::PipelineLockError => "Error locking pipeline"@,
            ErrorModel::ElementError(msg) => "Element error: "@ + msg,
            ErrorModel::InputError(msg) => "Input Error: "@ + msg,
            ErrorModel::OutputError(msg) => "Output Error: "@ + msg,
            ErrorModel::StateError(msg) => "State error: "@ + msg,
            ErrorModel::AppError(msg) => "Application Error: "@ + msg,
        }
    }

    /// The line a log receives for this error: the bare text for the kinds
    /// that carry one, the user text for the others.
    pub open spec fn trace(self) -> Seq<char> {
        match self {
            ErrorModel::OutputError(msg) => msg,
            ErrorModel::ElementError(msg) => msg,
            ErrorModel::StateError(msg) => msg,
            ErrorModel::AppError(msg) => msg,
            ErrorModel::InputError(msg) => msg,
            _ => self.message(),
        }
    }
}

impl View for RecorderError {
    type V = ErrorModel;

    open spec fn view(&self) -> ErrorModel {
        match self {
            RecorderError::PipelineStateChangeError(name, state) => {
                ErrorModel::PipelineStateChangeError(name@, *state)
            },
            RecorderError::PipelineInErrorState => ErrorModel::PipelineInErrorState,
            RecorderError::PipelineLockError => ErrorModel::PipelineLockError,
            RecorderError::ElementError(msg) => ErrorModel::ElementError(msg@),
            RecorderError::InputError(msg) => ErrorModel::InputError(msg@),
            RecorderError::OutputError(msg) => ErrorModel::OutputError(msg@),
            RecorderError::StateError(msg) => ErrorModel::StateError(msg@),
            RecorderError::AppError(msg) => ErrorModel::AppError(msg@),
        }
    }
}

impl DeepView for RecorderError {
    type V = ErrorModel;

    open spec fn deep_view(&self) -> ErrorModel {
        self@
    }
}

impl RecorderError {
    /// A copy with the same kind and text.
    pub fn duplicate(&self) -> (res: RecorderError)
        ensures
            res@ == self@,
    {
        match self {
            RecorderError::PipelineStateChangeError(name, state) => {
                RecorderError::PipelineStateChangeError(name.clone(), *state)
            },
            RecorderError::PipelineInErrorState => RecorderError::PipelineInErrorState,
            RecorderError::PipelineLockError => RecorderError::PipelineLockError,
            RecorderError::ElementError(msg) => RecorderError::ElementError(msg.clone()),
            RecorderError::InputError(msg) => RecorderError::InputError(msg.clone()),
            RecorderError::OutputError(msg) => RecorderError::OutputError(msg.clone()),
            RecorderError::StateError(msg) => RecorderError::StateError(msg.clone()),
            RecorderError::AppError(msg) => RecorderError::AppError(msg.clone()),
        }
    }

    /// The text shown to a user.
    pub fn message(&self) -> (res: String)
        ensures
            res@ == self@.message(),
    {
        match self {
            RecorderError::PipelineStateChangeError(name, state) => {
                String::from_str("Failed to set ").concat(name.as_str()).concat(
                    " pipeline state to: ",
                ).concat(state.name())
            },
            RecorderError::PipelineInErrorState => String::from_str("Pipeline is in error state"),
            RecorderError::PipelineLockError => String::from_str("Error locking pipeline"),
            RecorderError::ElementError(msg) => String::from_str("Element error: ").concat(
                msg.as_str(),
            ),
            RecorderError::InputError(msg) => String::from_str("Input Error: ").concat(
                msg.as_str(),
            ),
            RecorderError::OutputError(msg) => String::from_str("Output Error: ").concat(
                msg.as_str(),
            ),
            RecorderError::StateError(msg) => String::from_str("State error: ").concat(
                msg.as_str(),
            ),
            RecorderError::AppError(msg) => String::from_str("Application Error: ").concat(
                msg.as_str(),
            ),
        }
    }

    /// Hands the error back together with the line to write to the log.
    pub fn with_trace(self) -> (res: (RecorderError, String))
        ensures
            res.0 == self,
            res.1@ == self@.trace(),
    {
        let line = match &self {
            RecorderError::OutputError(msg) => msg.clone(),
            RecorderError::ElementError(msg) => msg.clone(),
            RecorderError::StateError(msg) => msg.clone(),
            RecorderError::AppError(msg) => msg.clone(),
            RecorderError::InputError(msg) => msg.clone(),
            RecorderError::PipelineStateChangeError(_, _) => self.message(),
            RecorderError::PipelineInErrorState => self.message(),
            RecorderError::PipelineLockError => self.message(),
        };
        (self, line)
    }
}

/// True when `r` is an error whose model is `e`.
pub open spec fn fails_with<T>(r: Result<T, RecorderError>, e: ErrorModel) -> bool {
    r matches Err(x) && x@ == e
}

/// What the control API reports when a request fails.
#[derive(Clone, Debug, PartialEq, Eq)]
pub struct RecorderErrorLog {
    pub error_message: Option<String>,
    pub error_pipeline_graph: Option<String>,
}

impl RecorderErrorLog {
    pub fn new(error_message: Option<String>, error_pipeline_graph: Option<String>) -> (res: Self)
        ensures
            res.error_message == error_message,
            res.error_pipeline_graph == error_pipeline_graph,
    {
        Self { error_message, error_pipeline_graph }
    }

    /// The log entry for an error: its user text, and no graph.
    pub fn from(err: RecorderError) -> (res: Self)
        ensures
            res.error_message matches Some(m) && m@ == err@.message(),
            res.error_pipeline_graph is None,
    {
        Self { error_message: Some(err.message()), error_pipeline_graph: None }
    }
}

} // verus!
