//! The output stage: where the encoded stream goes.
use crate::container::Container;
use crate::engine::StepModel;
use crate::recorder::errors::{ErrorModel, RecorderError};
use crate::traits::{Pipeline, PipelineSink};
use vstd::prelude::*;
use vstd::string::*;

pub mod fakesink;
pub mod filesink;
pub mod muxer;

verus! {

/// Which output to use, and what to call it.
#[derive(Clone, Debug, PartialEq, Eq)]
pub struct Config {
    pub name: String,
    pub variant: Variant,
}

impl Config {
    /// Every setting has the value it starts out with.
    pub open spec fn is_default(self) -> bool {
        &&& self.name@ == "output"@
        &&& self.variant.is_default()
    }
}

impl Default for Config {
    fn default() -> (res: Self)
        ensures
            res.is_default(),
    {
        Config { name: String::from_str("output"), variant: Variant::default() }
    }
}

/// The outputs there are, each with its settings.
#[derive(Clone, Debug, PartialEq, Eq)]
pub enum Variant {
    FakeSink(fakesink::Config),
    FileSink(filesink::Config),
}

impl Variant {
    /// Every setting has the value it starts out with.
    pub open spec fn is_default(self) -> bool {
        &&& self matches Variant::FileSink(c)
        &&& c.is_default()
    }
}

impl Default for Variant {
    fn default() -> (res: Self)
        ensures
            res.is_default(),
    {
        Variant::FileSink(filesink::Config::default())
    }
}

/// The output stage of a pipeline.
#[derive(Debug)]
pub enum Output {
    FakeSink(fakesink::FakeSink),
    FileSink(filesink::FileSink),
}

impl Output {
    /// The steps that create the output that `config` selects, where `base`
    /// elements exist already.
    pub open spec fn creation(config: Config, base: usize) -> Seq<StepModel> {
        match config.variant {
            Variant::FakeSink(c) => fakesink::FakeSink::creation(config.name@, base),
            Variant::FileSink(c) => filesink::FileSink::creation(
                config.name@,
                c.muxer_config.spec_name(),
                c.location@,
                base,
            ),
        }
    }

    /// How many elements the output that `config` selects is made of.
    pub open spec fn size(config: Config) -> nat {
        match config.variant {
            Variant::FakeSink(c) => 1,
            Variant::FileSink(c) => 3,
        }
    }

    /// The handles of the output that `config` selects, where `base`
    /// elements exist already.
    pub open spec fn handles_for(config: Config, base: usize) -> Seq<usize> {
        match config.variant {
            Variant::FakeSink(c) => seq![base],
            Variant::FileSink(c) => seq![base, (base + 1) as usize, (base + 2) as usize],
        }
    }

    /// The steps that attach the output that `config` selects, with the
    /// elements `handles`.
    pub open spec fn attachment(config: Config, handles: Seq<usize>) -> Seq<StepModel> {
        match config.variant {
            Variant::FakeSink(c) => fakesink::FakeSink::attachment(config.name@, handles),
            Variant::FileSink(c) => filesink::FileSink::attachment(handles),
        }
    }

    /// The stage's name.
    pub open spec fn label(&self) -> Seq<char> {
        match self {
            Output::FakeSink(sink) => sink.label(),
            Output::FileSink(sink) => sink.label(),
        }
    }

    /// The stage's elements in the order in which they are linked.
    pub open spec fn handles(&self) -> Seq<usize> {
        match self {
            Output::FakeSink(sink) => sink.handles(),
            Output::FileSink(sink) => sink.handles(),
        }
    }

    /// Plans the creation of the output that `config` selects.
    pub fn new(config: Config, pipeline: &mut Container) -> (res: Self)
        requires
            old(pipeline).wf(),
        ensures
            final(pipeline).wf(),
            final(pipeline).attached() == old(pipeline).attached(),
            final(pipeline).count() == old(pipeline).count() + Self::size(config),
            final(pipeline).plan() == old(pipeline).plan() + Self::creation(
                config,
                old(pipeline).count() as usize,
            ),
            res.label() == config.name@,
            res.handles() == Self::handles_for(config, old(pipeline).count() as usize),
            res is FakeSink <==> config.variant is FakeSink,
    {
        let _base = pipeline.len();
        match config.variant {
            Variant::FakeSink(c) => Output::FakeSink(
                fakesink::FakeSink::new(config.name, c, pipeline),
            ),
            Variant::FileSink(c) => Output::FileSink(
                filesink::FileSink::new(config.name, c, pipeline),
            ),
        }
    }
}

impl Pipeline for Output {
    open spec fn implemented(&self) -> bool {
        true
    }

    open spec fn attach_plan(&self) -> Seq<StepModel> {
        match self {
            Output::FakeSink(sink) => sink.attach_plan(),
            Output::FileSink(sink) => sink.attach_plan(),
        }
    }

    open spec fn detach_plan(&self) -> Seq<StepModel> {
        match self {
            Output::FakeSink(sink) => sink.detach_plan(),
            Output::FileSink(sink) => sink.detach_plan(),
        }
    }

    open spec fn members(&self) -> Seq<usize> {
        match self {
            Output::FakeSink(x) => x.members(),
            Output::FileSink(x) => x.members(),
        }
    }

    proof fn lemma_attach(&self, plan: Seq<StepModel>) {
        match self {
            Output::FakeSink(x) => x.lemma_attach(plan),
            Output::FileSink(x) => x.lemma_attach(plan),
        }
    }

    proof fn lemma_detach(&self, plan: Seq<StepModel>) {
        match self {
            Output::FakeSink(x) => x.lemma_detach(plan),
            Output::FileSink(x) => x.lemma_detach(plan),
        }
    }

    open spec fn attach_refusal(&self) -> ErrorModel {
        match self {
            Output::FakeSink(sink) => sink.attach_refusal(),
            Output::FileSink(sink) => sink.attach_refusal(),
        }
    }

    open spec fn detach_refusal(&self) -> ErrorModel {
        match self {
            Output::FakeSink(sink) => sink.detach_refusal(),
            Output::FileSink(sink) => sink.detach_refusal(),
        }
    }

    fn link(&self, pipeline: &mut Container) -> (res: Result<(), RecorderError>) {
        match self {
            Output::FakeSink(sink) => sink.link(pipeline),
            Output::FileSink(sink) => sink.link(pipeline),
        }
    }

    fn unlink(&self, pipeline: &mut Container) -> (res: Result<(), RecorderError>) {
        match self {
            Output::FakeSink(sink) => sink.unlink(pipeline),
            Output::FileSink(sink) => sink.unlink(pipeline),
        }
    }
}

impl PipelineSink for Output {
    open spec fn has_inlet(&self) -> bool {
        true
    }

    open spec fn inlet(&self) -> usize {
        match self {
            Output::FakeSink(sink) => sink.inlet(),
            Output::FileSink(sink) => sink.inlet(),
        }
    }

    fn sink(&self) -> (res: usize) {
        match self {
            Output::FakeSink(sink) => sink.sink(),
            Output::FileSink(sink) => sink.sink(),
        }
    }
}

} // verus!
