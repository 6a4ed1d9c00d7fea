//! The boundary to the media engine, as plain data.
use crate::recorder::errors::{ErrorModel, RecorderError};
use vstd::prelude::*;
use vstd::string::*;

verus! {

/// State of a native element or container, as the engine reports it.
#[derive(Clone, Copy, Debug, PartialEq, Eq, Structural)]
pub enum EngineState {
    VoidPending,
    Null,
    Ready,
    Paused,
    Playing,
}

impl EngineState {
    /// The name the engine prints for this state.
    pub open spec fn spec_name(self) -> Seq<char> {
        match self {
            EngineState::VoidPending => "VoidPending"@,
            EngineState::Null => "Null"@,
            EngineState::Ready => "Ready"@,
            EngineState::Paused => "Paused"@,
            EngineState::Playing => "Playing"@,
        }
    }

    pub fn name(&self) -> (res: &'static str)
        ensures
            res@ == self.spec_name(),
    {
        match self {
            EngineState::VoidPending => "VoidPending",
            EngineState::Null => "Null",
            EngineState::Ready => "Ready",
            EngineState::Paused => "Paused",
            EngineState::Playing => "Playing",
        }
    }
}

/// The value of an element property.
#[derive(Clone, Debug, PartialEq, Eq)]
pub enum PropertyValue {
    Bool(bool),
    U32(u32),
    I32(i32),
    U64(u64),
    /// A single-precision float, as its IEEE 754 bit pattern.
    F32(u32),
    Str(String),
    /// Text that the engine parses into the property's own type.
    Parsed(String),
}

/// Mathematical model of a [`PropertyValue`].
pub enum ValueModel {
    Bool(bool),
    U32(u32),
    I32(i32),
    U64(u64),
    F32(u32),
    Str(Seq<char>),
    Parsed(Seq<char>),
}

impl View for PropertyValue {
    type V = ValueModel;

    open spec fn view(&self) -> ValueModel {
        match self {
            PropertyValue::Bool(b) => ValueModel::Bool(*b),
            PropertyValue::U32(n) => ValueModel::U32(*n),
            PropertyValue::I32(n) => ValueModel::I32(*n),
            PropertyValue::U64(n) => ValueModel::U64(*n),
            PropertyValue::F32(bits) => ValueModel::F32(*bits),
            PropertyValue::Str(s) => ValueModel::Str(s@),
            PropertyValue::Parsed(s) => ValueModel::Parsed(s@),
        }
    }
}

/// A request to the engine. Elements are named by their handle: the number
/// of elements created before them.
#[derive(Clone, Debug, PartialEq, Eq)]
pub enum EngineCommand {
    /// Create an element of type `factory` called `name`; it becomes `element`.
    Create { element: usize, factory: String, name: String },
    /// Set property `key` of `element`.
    SetProperty { element: usize, key: String, value: PropertyValue },
    /// Count the overruns of the queue `element`.
    WatchOverrun { element: usize },
    /// Add `elements` to the container.
    Add { elements: Vec<usize> },
    /// Remove `elements` from the container.
    Remove { elements: Vec<usize> },
    /// Link each of `elements` to the one after it.
    LinkMany { elements: Vec<usize> },
    /// Link the outlet `from` to the inlet `to`.
    Link { from: usize, to: usize },
    /// Take the container to `state`.
    SetState { state: EngineState },
    /// Send an end-of-stream request into the container.
    SendEos,
}

/// Mathematical model of an [`EngineCommand`].
pub enum CommandModel {
    Create { element: usize, factory: Seq<char>, name: Seq<char> },
    SetProperty { element: usize, key: Seq<char>, value: ValueModel },
    WatchOverrun { element: usize },
    Add { elements: Seq<usize> },
    Remove { elements: Seq<usize> },
    LinkMany { elements: Seq<usize> },
    Link { from: usize, to: usize },
    SetState { state: EngineState },
    SendEos,
}

impl View for EngineCommand {
    type V = CommandModel;

    open spec fn view(&self) -> CommandModel {
        match self {
            EngineCommand::Create { element, factory, name } => CommandModel::Create {
                element: *element,
                factory: factory@,
                name: name@,
            },
            EngineCommand::SetProperty { element, key, value } => CommandModel::SetProperty {
                element: *element,
                key: key@,
                value: value@,
            },
            EngineCommand::WatchOverrun { element } => CommandModel::WatchOverrun {
                element: *element,
            },
            EngineCommand::Add { elements } => CommandModel::Add { elements: elements@ },
            EngineCommand::Remove { elements } => CommandModel::Remove { elements: elements@ },
            EngineCommand::LinkMany { elements } => CommandModel::LinkMany { elements: elements@ },
            EngineCommand::Link { from, to } => CommandModel::Link { from: *from, to: *to },
            EngineCommand::SetState { state } => CommandModel::SetState { state: *state },
            EngineCommand::SendEos => CommandModel::SendEos,
        }
    }
}

impl DeepView for EngineCommand {
    type V = CommandModel;

    open spec fn deep_view(&self) -> CommandModel {
        self@
    }
}

/// One step of a plan: a command, and the element error to report when the
/// engine fails it.
#[derive(Clone, Debug, PartialEq, Eq)]
pub struct Step {
    pub command: EngineCommand,
    /// The text of the error.
    pub message: String,
    /// Whether the engine's own text is appended to `message`.
    pub with_cause: bool,
}

/// Mathematical model of a [`Step`].
pub struct StepModel {
    pub command: CommandModel,
    pub message: Seq<char>,
    pub with_cause: bool,
}

impl StepModel {
    /// The text of the error for this step when the engine fails it and
    /// gives `cause` as the reason.
    pub open spec fn failure_text(self, cause: Seq<char>) -> Seq<char> {
        if self.with_cause {
            self.message + cause
        } else {
            self.message
        }
    }
}

impl View for Step {
    type V = StepModel;

    open spec fn view(&self) -> StepModel {
        StepModel { command: self.command@, message: self.message@, with_cause: self.with_cause }
    }
}

impl DeepView for Step {
    type V = StepModel;

    open spec fn deep_view(&self) -> StepModel {
        self@
    }
}

impl Step {
    /// The error to report when the engine fails this step and gives `cause`
    /// as the reason.
    pub fn error(&self, cause: &str) -> (res: RecorderError)
        ensures
            res@ == ErrorModel::ElementError(self@.failure_text(cause@)),
    {
        if self.with_cause {
            RecorderError::ElementError(self.message.clone().concat(cause))
        } else {
            RecorderError::ElementError(self.message.clone())
        }
    }
}

/// The engine's report of a failed step: its place in the plan, and the
/// engine's own text.
#[derive(Clone, Debug, PartialEq, Eq)]
pub struct StepFailure {
    pub index: usize,
    pub cause: String,
}

/// Who sent a state-change message.
#[derive(Clone, Copy, Debug, PartialEq, Eq, Structural)]
pub enum Subject {
    /// The pipeline container itself.
    Container,
    /// One of the elements inside the container.
    Element,
    /// The message names no sender.
    Absent,
}

/// A message taken from the container's event bus.
#[derive(Clone, Debug, PartialEq, Eq)]
pub enum BusMessage {
    /// The stream has ended.
    Eos,
    /// The engine reports an error, with its text.
    Error(String),
    /// `subject` went from `old` to `current`, on its way to `pending`.
    StateChanged { subject: Subject, old: EngineState, current: EngineState, pending: EngineState },
    /// Any other message.
    Other,
}

/// Mathematical model of a [`BusMessage`].
pub enum MessageModel {
    Eos,
    Error(Seq<char>),
    StateChanged { subject: Subject, old: EngineState, current: EngineState, pending: EngineState },
    Other,
}

impl View for BusMessage {
    type V = MessageModel;

    open spec fn view(&self) -> MessageModel {
        match self {
            BusMessage::Eos => MessageModel::Eos,
            BusMessage::Error(text) => MessageModel::Error(text@),
            BusMessage::StateChanged { subject, old, current, pending } => {
                MessageModel::StateChanged {
                    subject: *subject,
                    old: *old,
                    current: *current,
                    pending: *pending,
                }
            },
            BusMessage::Other => MessageModel::Other,
        }
    }
}

impl DeepView for BusMessage {
    type V = MessageModel;

    open spec fn deep_view(&self) -> MessageModel {
        self@
    }
}

} // verus!
