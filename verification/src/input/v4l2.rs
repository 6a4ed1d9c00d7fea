//! Capture from a video device.
use crate::container::{
    attach_chain, chain_attachment, lemma_chain_effect, lemma_one_effect, lemma_sound_one,
    overrun_step, property_step, Container,
};
use crate::engine::{CommandModel, PropertyValue, StepModel, ValueModel};
use crate::recorder::errors::{ErrorModel, RecorderError};
use crate::traits::{Pipeline, PipelineSrc};
use crate::util::{creation_step, gst_create_element, join3};
use vstd::prelude::*;
use vstd::string::*;

verus! {

/// Fill levels and overruns of the stage's queue.
#[derive(Clone, Debug, PartialEq, Eq)]
pub struct Stats {
    pub video_queue_current_level_buffers: u32,
    pub video_queue_current_level_bytes: u32,
    pub video_queue_current_level_time: u64,
    pub video_queue_overrun_count: u64,
}

impl Default for Stats {
    fn default() -> (res: Self)
        ensures
            res.video_queue_current_level_buffers == 0,
            res.video_queue_current_level_bytes == 0,
            res.video_queue_current_level_time == 0,
            res.video_queue_overrun_count == 0,
    {
        Stats {
            video_queue_current_level_buffers: 0,
            video_queue_current_level_bytes: 0,
            video_queue_current_level_time: 0,
            video_queue_overrun_count: 0,
        }
    }
}

impl Stats {
    /// Counts one more overrun of the queue. An overrun is no failure: it
    /// is counted and the run goes on.
    pub fn record_overrun(&mut self)
        requires
            old(self).video_queue_overrun_count < u64::MAX,
        ensures
            final(self).video_queue_overrun_count == old(self).video_queue_overrun_count + 1,
            final(self).video_queue_current_level_buffers == old(
                self,
            ).video_queue_current_level_buffers,
            final(self).video_queue_current_level_bytes == old(self).video_queue_current_level_bytes,
            final(self).video_queue_current_level_time == old(self).video_queue_current_level_time,
    {
        self.video_queue_overrun_count = self.video_queue_overrun_count + 1;
    }
}

/// Which device to capture from.
#[derive(Clone, Debug, PartialEq, Eq)]
pub struct Config {
    pub device: String,
}

impl Config {
    /// Every setting has the value it starts out with.
    pub open spec fn is_default(self) -> bool {
        &&& self.device@ == "/dev/video0"@
    }
}

impl Default for Config {
    fn default() -> (res: Self)
        ensures
            res.is_default(),
    {
        Self { device: String::from_str("/dev/video0") }
    }
}

/// A device source followed by a queue.
#[derive(Debug)]
pub struct V4l2 {
    pub name: String,
    config: Config,
    video: usize,
    video_queue: usize,
}

impl V4l2 {
    /// The stage's name.
    pub closed spec fn label(&self) -> Seq<char> {
        self.name@
    }

    /// The stage's elements in the order in which they are linked: the
    /// source, then the queue.
    pub closed spec fn handles(&self) -> Seq<usize> {
        seq![self.video, self.video_queue]
    }

    /// The steps that create the elements of a device source called `name`
    /// that reads `device`, where `base` elements exist already.
    pub open spec fn creation(name: Seq<char>, device: Seq<char>, base: usize) -> Seq<StepModel> {
        let video = base;
        let queue = (base + 1) as usize;
        seq![
            creation_step(video, "v4l2src"@, "input_"@ + name + "_v4l2src"@),
            property_step(video, "device"@, ValueModel::Str(device)),
            creation_step(queue, "queue"@, "input_"@ + name + "_video_queue"@),
            overrun_step(queue),
        ]
    }

    /// The steps that attach a device source called `name` with the
    /// elements `handles`.
    pub open spec fn attachment(name: Seq<char>, handles: Seq<usize>) -> Seq<StepModel> {
        chain_attachment(
            handles,
            "Error adding "@ + name + " elements to pipeline"@,
            "Error linking "@ + name + " video elements"@,
            false,
        )
    }

    /// The step that detaches a device source called `name` with the
    /// elements `handles`.
    pub open spec fn detachment(name: Seq<char>, handles: Seq<usize>) -> Seq<StepModel> {
        seq![
            StepModel {
                command: CommandModel::Remove { elements: handles },
                message: "Error unlinking "@ + name + " elements"@,
                with_cause: false,
            },
        ]
    }

    /// Plans the creation of the stage's elements.
    pub fn new(name: String, config: Config, pipeline: &mut Container) -> (res: Self)
        requires
            old(pipeline).wf(),
        ensures
            final(pipeline).wf(),
            final(pipeline).attached() == old(pipeline).attached(),
            final(pipeline).count() == old(pipeline).count() + 2,
            final(pipeline).plan() == old(pipeline).plan() + Self::creation(
                name@,
                config.device@,
                old(pipeline).count() as usize,
            ),
            res.label() == name@,
            res.handles() == seq![
                old(pipeline).count() as usize,
                (old(pipeline).count() + 1) as usize,
            ],
    {
        let ghost before = pipeline.plan();
        let ghost base = pipeline.count() as usize;
        let video_name = join3("input_", name.as_str(), "_v4l2src");
        let video = gst_create_element(pipeline, "v4l2src", video_name.as_str());
        pipeline.set_property(video, "device", PropertyValue::Str(config.device.clone()));
        let queue_name = join3("input_", name.as_str(), "_video_queue");
        let video_queue = gst_create_element(pipeline, "queue", queue_name.as_str());
        pipeline.watch_overrun(video_queue);
        assert(pipeline.plan() =~= before + Self::creation(name@, config.device@, base));
        Self { name, config, video, video_queue }
    }

    pub fn _name(&self) -> (res: &str)
        ensures
            res@ == self.label(),
    {
        self.name.as_str()
    }

    /// The queue's statistics: the overruns that `counted` holds, with the
    /// fill levels that the engine reports for the queue.
    pub fn _get_stats(&self, counted: &Stats, buffers: u32, bytes: u32, time: u64) -> (res: Stats)
        ensures
            res.video_queue_current_level_buffers == buffers,
            res.video_queue_current_level_bytes == bytes,
            res.video_queue_current_level_time == time,
            res.video_queue_overrun_count == counted.video_queue_overrun_count,
    {
        Stats {
            video_queue_current_level_buffers: buffers,
            video_queue_current_level_bytes: bytes,
            video_queue_current_level_time: time,
            video_queue_overrun_count: counted.video_queue_overrun_count,
        }
    }
}

impl Pipeline for V4l2 {
    open spec fn implemented(&self) -> bool {
        true
    }

    open spec fn attach_plan(&self) -> Seq<StepModel> {
        Self::attachment(self.label(), self.handles())
    }

    open spec fn detach_plan(&self) -> Seq<StepModel> {
        Self::detachment(self.label(), self.handles())
    }

    open spec fn members(&self) -> Seq<usize> {
        self.handles()
    }

    proof fn lemma_attach(&self, plan: Seq<StepModel>) {
        let chain = self.attach_plan();
        lemma_chain_effect(plan, self.handles(), chain[0].message, chain[1].message, false);
    }

    proof fn lemma_detach(&self, plan: Seq<StepModel>) {
        lemma_one_effect(plan, self.detach_plan()[0]);
        assert(self.detach_plan() =~= seq![self.detach_plan()[0]]);
    }

    open spec fn attach_refusal(&self) -> ErrorModel {
        ErrorModel::ElementError("Error adding "@ + self.label() + " elements to pipeline"@)
    }

    open spec fn detach_refusal(&self) -> ErrorModel {
        ErrorModel::ElementError("Error unlinking "@ + self.label() + " elements"@)
    }

    fn link(&self, pipeline: &mut Container) -> (res: Result<(), RecorderError>) {
        let mut elements: Vec<usize> = Vec::new();
        elements.push(self.video);
        elements.push(self.video_queue);
        assert(elements@ =~= self.handles());
        attach_chain(
            pipeline,
            elements,
            join3("Error adding ", self.name.as_str(), " elements to pipeline"),
            join3("Error linking ", self.name.as_str(), " video elements"),
            false,
        )
    }

    fn unlink(&self, pipeline: &mut Container) -> (res: Result<(), RecorderError>) {
        let mut elements: Vec<usize> = Vec::new();
        elements.push(self.video);
        elements.push(self.video_queue);
        assert(elements@ =~= self.handles());
        let message = join3("Error unlinking ", self.name.as_str(), " elements");
        proof {
            pipeline.lemma_wf_is_sound();
            lemma_sound_one(pipeline.plan(), self.detach_plan()[0]);
            assert(self.detach_plan() =~= seq![self.detach_plan()[0]]);
        }
        pipeline.remove_many(elements, message, false)
    }
}

impl PipelineSrc for V4l2 {
    open spec fn has_outlet(&self) -> bool {
        true
    }

    /// The last element of the chain.
    open spec fn outlet(&self) -> usize {
        self.handles().last()
    }

    fn source(&self) -> (res: usize) {
        self.video_queue
    }
}

} // verus!
