//! The discard sink.
use crate::container::{lemma_one_effect, lemma_sound_one, Container};
use crate::engine::{CommandModel, StepModel};
use crate::recorder::errors::{ErrorModel, RecorderError};
use crate::traits::{Pipeline, PipelineSink};
use crate::util::join3;
use vstd::prelude::*;
use vstd::string::*;

verus! {

/// The discard sink has no settings.
#[derive(Clone, Debug, PartialEq, Eq)]
pub struct Config {}

impl Default for Config {
    fn default() -> (res: Self) {
        Self {  }
    }
}

/// The statistics of a discard sink: a note that there are none.
#[derive(Clone, Debug, PartialEq, Eq)]
pub struct FakeStats {
    pub stats: String,
}

impl Default for FakeStats {
    fn default() -> (res: Self)
        ensures
            res.stats@ == "Not implemented for Fake"@,
    {
        Self { stats: String::from_str("Not implemented for Fake") }
    }
}

/// A sink that throws away what it gets.
#[derive(Debug)]
pub struct FakeSink {
    pub name: String,
    video: usize,
}

impl FakeSink {
    /// The stage's name.
    pub closed spec fn label(&self) -> Seq<char> {
        self.name@
    }

    /// The stage's one element.
    pub closed spec fn handles(&self) -> Seq<usize> {
        seq![self.video]
    }

    /// The step that creates the element of a discard sink called `name`,
    /// where `base` elements exist already.
    pub open spec fn creation(name: Seq<char>, base: usize) -> Seq<StepModel> {
        seq![
            StepModel {
                command: CommandModel::Create {
                    element: base,
                    factory: "fakesink"@,
                    name: "output_"@ + name + "_fakesink_video"@,
                },
                message: "Error creating "@ + name + " video fakesink"@,
                with_cause: false,
            },
        ]
    }

    /// The step that attaches a discard sink called `name` with the element
    /// `handles`.
    pub open spec fn attachment(name: Seq<char>, handles: Seq<usize>) -> Seq<StepModel> {
        seq![
            StepModel {
                command: CommandModel::Add { elements: handles },
                message: "Error adding "@ + name + " audio and video fakesink elements"@,
                with_cause: false,
            },
        ]
    }

    /// The step that detaches a discard sink called `name` with the element
    /// `handles`.
    pub open spec fn detachment(name: Seq<char>, handles: Seq<usize>) -> Seq<StepModel> {
        seq![
            StepModel {
                command: CommandModel::Remove { elements: handles },
                message: "Error removing "@ + name + " audio and video fakesink elements"@,
                with_cause: false,
            },
        ]
    }

    pub fn _name(&self) -> (res: &'static str)
        ensures
            res@ == "Fake"@,
    {
        "Fake"
    }

    /// Plans the creation of the stage's element.
    pub fn new(name: String, config: Config, pipeline: &mut Container) -> (res: Self)
        requires
            old(pipeline).wf(),
        ensures
            final(pipeline).wf(),
            final(pipeline).attached() == old(pipeline).attached(),
            final(pipeline).count() == old(pipeline).count() + 1,
            final(pipeline).plan() == old(pipeline).plan() + Self::creation(
                name@,
                old(pipeline).count() as usize,
            ),
            res.label() == name@,
            res.handles() == seq![old(pipeline).count() as usize],
    {
        let ghost before = pipeline.plan();
        let ghost base = pipeline.count() as usize;
        let element_name = join3("output_", name.as_str(), "_fakesink_video");
        let message = join3("Error creating ", name.as_str(), " video fakesink");
        let video = pipeline.create("fakesink", element_name.as_str(), message);
        assert(pipeline.plan() =~= before + Self::creation(name@, base));
        FakeSink { name, video }
    }

    pub fn _get_stats(&self) -> (res: FakeStats)
        ensures
            res.stats@ == "Not implemented for Fake"@,
    {
        FakeStats::default()
    }
}

impl Pipeline for FakeSink {
    open spec fn implemented(&self) -> bool {
        true
    }

    open spec fn attach_plan(&self) -> Seq<StepModel> {
        Self::attachment(self.label(), self.handles())
    }

    open spec fn detach_plan(&self) -> Seq<StepModel> {
        Self::detachment(self.label(), self.handles())
    }

    open spec fn members(&self) -> Seq<usize> {
        self.handles()
    }

    proof fn lemma_attach(&self, plan: Seq<StepModel>) {
        lemma_one_effect(plan, self.attach_plan()[0]);
        assert(self.attach_plan() =~= seq![self.attach_plan()[0]]);
    }

    proof fn lemma_detach(&self, plan: Seq<StepModel>) {
        lemma_one_effect(plan, self.detach_plan()[0]);
        assert(self.detach_plan() =~= seq![self.detach_plan()[0]]);
    }

    open spec fn attach_refusal(&self) -> ErrorModel {
        ErrorModel::ElementError(
            "Error adding "@ + self.label() + " audio and video fakesink elements"@,
        )
    }

    open spec fn detach_refusal(&self) -> ErrorModel {
        ErrorModel::ElementError(
            "Error removing "@ + self.label() + " audio and video fakesink elements"@,
        )
    }

    fn link(&self, pipeline: &mut Container) -> (res: Result<(), RecorderError>) {
        let mut elements: Vec<usize> = Vec::new();
        elements.push(self.video);
        assert(elements@ =~= self.handles());
        let message = join3(
            "Error adding ",
            self.name.as_str(),
            " audio and video fakesink elements",
        );
        proof {
            pipeline.lemma_wf_is_sound();
            lemma_sound_one(pipeline.plan(), self.attach_plan()[0]);
            assert(self.attach_plan() =~= seq![self.attach_plan()[0]]);
        }
        pipeline.add_many(elements, message, false)
    }

    fn unlink(&self, pipeline: &mut Container) -> (res: Result<(), RecorderError>) {
        let mut elements: Vec<usize> = Vec::new();
        elements.push(self.video);
        assert(elements@ =~= self.handles());
        let message = join3(
            "Error removing ",
            self.name.as_str(),
            " audio and video fakesink elements",
        );
        proof {
            pipeline.lemma_wf_is_sound();
            lemma_sound_one(pipeline.plan(), self.detach_plan()[0]);
            assert(self.detach_plan() =~= seq![self.detach_plan()[0]]);
        }
        pipeline.remove_many(elements, message, false)
    }
}

impl PipelineSink for FakeSink {
    open spec fn has_inlet(&self) -> bool {
        true
    }

    /// The first element of the chain.
    open spec fn inlet(&self) -> usize {
        self.handles()[0]
    }

    fn sink(&self) -> (res: usize) {
        self.video
    }
}

} // verus!
