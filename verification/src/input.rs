//! The input stage: where the pictures come from.
use crate::container::Container;
use crate::engine::StepModel;
use crate::recorder::errors::{ErrorModel, RecorderError};
use crate::traits::{Pipeline, PipelineSrc};
use vstd::prelude::*;
use vstd::string::*;

pub mod test;
pub mod v4l2;

verus! {

/// Which input to use, and what to call it.
#[derive(Clone, Debug, PartialEq, Eq)]
pub struct Config {
    pub name: String,
    pub variant: Variant,
}

impl Config {
    /// Every setting has the value it starts out with.
    pub open spec fn is_default(self) -> bool {
        &&& self.name@ == "input"@
        &&& self.variant.is_default()
    }
}

impl Default for Config {
    fn default() -> (res: Self)
        ensures
            res.is_default(),
    {
        Config { name: String::from_str("input"), variant: Variant::default() }
    }
}

/// The statistics of an input.
#[derive(Clone, Debug, PartialEq, Eq)]
pub enum InputStats {
    Test(test::Stats),
    V4l2(v4l2::Stats),
}

/// The inputs there are, each with its settings.
#[derive(Clone, Debug, PartialEq, Eq)]
pub enum Variant {
    Test(test::Config),
    V4l2(v4l2::Config),
}

impl Variant {
    /// Every setting has the value it starts out with.
    pub open spec fn is_default(self) -> bool {
        &&& self matches Variant::V4l2(c)
        &&& c.is_default()
    }
}

impl Default for Variant {
    fn default() -> (res: Self)
        ensures
            res.is_default(),
    {
        Variant::V4l2(v4l2::Config::default())
    }
}

/// The input stage of a pipeline.
#[derive(Debug)]
pub enum Input {
    Test(test::Test),
    V4l2(v4l2::V4l2),
}

impl Input {
    /// The steps that create the input that `config` selects, where `base`
    /// elements exist already. A device source is always called `v4l2src`.
    pub open spec fn creation(config: Config, base: usize) -> Seq<StepModel> {
        match config.variant {
            Variant::Test(c) => test::Test::creation(config.name@, base),
            Variant::V4l2(c) => v4l2::V4l2::creation("v4l2src"@, c.device@, base),
        }
    }

    /// How many elements the input that `config` selects is made of.
    pub open spec fn size(config: Config) -> nat {
        match config.variant {
            Variant::Test(c) => 3,
            Variant::V4l2(c) => 2,
        }
    }

    /// The name that the input that `config` selects goes by.
    pub open spec fn label_for(config: Config) -> Seq<char> {
        match config.variant {
            Variant::Test(c) => config.name@,
            Variant::V4l2(c) => "v4l2src"@,
        }
    }

    /// The steps that attach the input that `config` selects, with the
    /// elements `handles`.
    pub open spec fn attachment(config: Config, handles: Seq<usize>) -> Seq<StepModel> {
        match config.variant {
            Variant::Test(c) => test::Test::attachment(config.name@, handles),
            Variant::V4l2(c) => v4l2::V4l2::attachment("v4l2src"@, handles),
        }
    }

    /// The stage's name.
    pub open spec fn label(&self) -> Seq<char> {
        match self {
            Input::Test(input) => input.label(),
            Input::V4l2(input) => input.label(),
        }
    }

    /// The stage's elements in the order in which they are linked.
    pub open spec fn handles(&self) -> Seq<usize> {
        match self {
            Input::Test(input) => input.handles(),
            Input::V4l2(input) => input.handles(),
        }
    }

    /// Plans the creation of the input that `config` selects.
    pub fn new(config: Config, pipeline: &mut Container) -> (res: Self)
        requires
            old(pipeline).wf(),
        ensures
            final(pipeline).wf(),
            final(pipeline).attached() == old(pipeline).attached(),
            final(pipeline).count() == old(pipeline).count() + Self::size(config),
            final(pipeline).plan() == old(pipeline).plan() + Self::creation(
                config,
                old(pipeline).count() as usize,
            ),
            res.label() == Self::label_for(config),
            res.handles() == seq![
                old(pipeline).count() as usize,
                (old(pipeline).count() + 1) as usize,
            ],
            res is Test <==> config.variant is Test,
    {
        match config.variant {
            Variant::Test(c) => Input::Test(test::Test::new(config.name, c, pipeline)),
            Variant::V4l2(c) => Input::V4l2(
                v4l2::V4l2::new(String::from_str("v4l2src"), c, pipeline),
            ),
        }
    }
}

impl Pipeline for Input {
    open spec fn implemented(&self) -> bool {
        true
    }

    open spec fn attach_plan(&self) -> Seq<StepModel> {
        match self {
            Input::Test(input) => input.attach_plan(),
            Input::V4l2(input) => input.attach_plan(),
        }
    }

    open spec fn detach_plan(&self) -> Seq<StepModel> {
        match self {
            Input::Test(input) => input.detach_plan(),
            Input::V4l2(input) => input.detach_plan(),
        }
    }

    open spec fn members(&self) -> Seq<usize> {
        match self {
            Input::Test(x) => x.members(),
            Input::V4l2(x) => x.members(),
        }
    }

    proof fn lemma_attach(&self, plan: Seq<StepModel>) {
        match self {
            Input::Test(x) => x.lemma_attach(plan),
            Input::V4l2(x) => x.lemma_attach(plan),
        }
    }

    proof fn lemma_detach(&self, plan: Seq<StepModel>) {
        match self {
            Input::Test(x) => x.lemma_detach(plan),
            Input::V4l2(x) => x.lemma_detach(plan),
        }
    }

    open spec fn attach_refusal(&self) -> ErrorModel {
        match self {
            Input::Test(input) => input.attach_refusal(),
            Input::V4l2(input) => input.attach_refusal(),
        }
    }

    open spec fn detach_refusal(&self) -> ErrorModel {
        match self {
            Input::Test(input) => input.detach_refusal(),
            Input::V4l2(input) => input.detach_refusal(),
        }
    }

    fn link(&self, pipeline: &mut Container) -> (res: Result<(), RecorderError>) {
        match self {
            Input::Test(input) => input.link(pipeline),
            Input::V4l2(input) => input.link(pipeline),
        }
    }

    fn unlink(&self, pipeline: &mut Container) -> (res: Result<(), RecorderError>) {
        match self {
            Input::Test(input) => input.unlink(pipeline),
            Input::V4l2(input) => input.unlink(pipeline),
        }
    }
}

impl PipelineSrc for Input {
    open spec fn has_outlet(&self) -> bool {
        true
    }

    open spec fn outlet(&self) -> usize {
        match self {
            Input::Test(input) => input.outlet(),
            Input::V4l2(input) => input.outlet(),
        }
    }

    fn source(&self) -> (res: usize) {
        match self {
            Input::Test(input) => input.source(),
            Input::V4l2(input) => input.source(),
        }
    }
}

} // verus!
