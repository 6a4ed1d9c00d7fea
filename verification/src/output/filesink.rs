//! The file sink: a queue, a multiplexer and a file writer.
use crate::container::{
    attach_chain, chain_attachment, lemma_chain_effect, lemma_one_effect, lemma_sound_one,
    overrun_step, property_step, Container,
};
use crate::engine::{CommandModel, PropertyValue, StepModel, ValueModel};
use crate::output::muxer::Config as MuxerConfig;
use crate::recorder::errors::{ErrorModel, RecorderError};
use crate::traits::{Pipeline, PipelineSink};
use crate::util::{creation_step, gst_create_element, join2, join3};
use vstd::prelude::*;
use vstd::string::*;

verus! {

/// Where to write, in which format, and how the writer is set up.
#[derive(Clone, Debug, PartialEq, Eq)]
pub struct Config {
    pub muxer_config: MuxerConfig,
    pub location: String,
    pub append: bool,
    pub async_to_pause: bool,
    pub blocksize: u32,
    pub buffer_mode: String,
    pub buffer_size: u32,
    pub max_bitrate: u64,
    pub max_lateness: i64,
    pub max_transient_error_timeout: i32,
    pub o_sync: bool,
    pub processing_deadline: u64,
    pub qos: bool,
    pub render_delay: u64,
    pub sync: bool,
    pub throttle_time: u64,
    pub ts_offset: u64,
}

impl Config {
    /// Every setting has the value it starts out with.
    pub open spec fn is_default(self) -> bool {
        &&& self.muxer_config.is_default()
        &&& !self.append
        &&& self.async_to_pause
        &&& self.blocksize == 4096
        &&& self.buffer_mode@ == "default"@
        &&& self.buffer_size == 65535
        &&& self.location@ == "/tmp/output.mkv"@
        &&& self.max_bitrate == 0
        &&& self.max_lateness == -1
        &&& self.max_transient_error_timeout == 0
        &&& !self.o_sync
        &&& self.processing_deadline == 20000000
        &&& !self.qos
        &&& self.render_delay == 0
        &&& !self.sync
        &&& self.throttle_time == 0
        &&& self.ts_offset == 0
    }
}

impl Default for Config {
    fn default() -> (res: Self)
        ensures
            res.is_default(),
    {
        Config {
            muxer_config: MuxerConfig::default(),
            append: false,
            async_to_pause: true,
            blocksize: 4096,
            buffer_mode: String::from_str("default"),
            buffer_size: 65535,
            location: String::from_str("/tmp/output.mkv"),
            max_bitrate: 0,
            max_lateness: -1,
            max_transient_error_timeout: 0,
            o_sync: false,
            processing_deadline: 20000000,
            qos: false,
            render_delay: 0,
            sync: false,
            throttle_time: 0,
            ts_offset: 0,
        }
    }
}

/// A sink that writes the stream to a file.
#[derive(Debug)]
pub struct FileSink {
    name: String,
    config: Config,
    video_queue: usize,
    muxer: usize,
    filesink: usize,
}

impl FileSink {
    /// The stage's name.
    pub closed spec fn label(&self) -> Seq<char> {
        self.name@
    }

    /// The stage's elements in the order in which they are linked: the
    /// queue, the multiplexer, the file writer.
    pub closed spec fn handles(&self) -> Seq<usize> {
        seq![self.video_queue, self.muxer, self.filesink]
    }

    /// The steps that create the elements of a file sink called `name`
    /// that packs with `muxer` and writes to `location`, where `base`
    /// elements exist already.
    pub open spec fn creation(
        name: Seq<char>,
        muxer: Seq<char>,
        location: Seq<char>,
        base: usize,
    ) -> Seq<StepModel> {
        let queue = base;
        let mux = (base + 1) as usize;
        let file = (base + 2) as usize;
        seq![
            creation_step(queue, "queue"@, "output_"@ + name + "_video_queue"@),
            overrun_step(queue),
            creation_step(mux, muxer, muxer + "_output_muxer"@),
            creation_step(file, "filesink"@, name + "_output_filesink"@),
            property_step(file, "location"@, ValueModel::Str(location)),
        ]
    }

    /// The steps that attach a file sink with the elements `handles`.
    pub open spec fn attachment(handles: Seq<usize>) -> Seq<StepModel> {
        chain_attachment(
            handles,
            "Failed to add elements to pipeline: "@,
            "Failed to link elements in pipeline: "@,
            true,
        )
    }

    /// The step that detaches a file sink with the elements `handles`.
    pub open spec fn detachment(handles: Seq<usize>) -> Seq<StepModel> {
        seq![
            StepModel {
                command: CommandModel::Remove { elements: handles },
                message: "Failed to remove elements from pipeline: "@,
                with_cause: true,
            },
        ]
    }

    /// Plans the creation of the stage's elements.
    pub fn new(name: String, config: Config, pipeline: &mut Container) -> (res: Self)
        requires
            old(pipeline).wf(),
        ensures
            final(pipeline).wf(),
            final(pipeline).attached() == old(pipeline).attached(),
            final(pipeline).count() == old(pipeline).count() + 3,
            final(pipeline).plan() == old(pipeline).plan() + Self::creation(
                name@,
                config.muxer_config.spec_name(),
                config.location@,
                old(pipeline).count() as usize,
            ),
            res.label() == name@,
            res.handles() == seq![
                old(pipeline).count() as usize,
                (old(pipeline).count() + 1) as usize,
                (old(pipeline).count() + 2) as usize,
            ],
    {
        let ghost before = pipeline.plan();
        let ghost base = pipeline.count() as usize;
        let queue_name = join3("output_", name.as_str(), "_video_queue");
        let video_queue = gst_create_element(pipeline, "queue", queue_name.as_str());
        pipeline.watch_overrun(video_queue);
        let muxer_type = config.muxer_config.name();
        let muxer_name = join2(muxer_type, "_output_muxer");
        let muxer = gst_create_element(pipeline, muxer_type, muxer_name.as_str());
        let file_name = join2(name.as_str(), "_output_filesink");
        let filesink = gst_create_element(pipeline, "filesink", file_name.as_str());
        pipeline.set_property(filesink, "location", PropertyValue::Str(config.location.clone()));
        assert(pipeline.plan() =~= before + Self::creation(
            name@,
            config.muxer_config.spec_name(),
            config.location@,
            base,
        ));
        FileSink { name, config, video_queue, muxer, filesink }
    }

    /// The stage's three elements, in the order in which they are linked.
    fn elements(&self) -> (res: Vec<usize>)
        ensures
            res@ == self.handles(),
    {
        let mut elements: Vec<usize> = Vec::new();
        elements.push(self.video_queue);
        elements.push(self.muxer);
        elements.push(self.filesink);
        assert(elements@ =~= self.handles());
        elements
    }
}

impl Pipeline for FileSink {
    open spec fn implemented(&self) -> bool {
        true
    }

    open spec fn attach_plan(&self) -> Seq<StepModel> {
        Self::attachment(self.handles())
    }

    open spec fn detach_plan(&self) -> Seq<StepModel> {
        Self::detachment(self.handles())
    }

    open spec fn members(&self) -> Seq<usize> {
        self.handles()
    }

    proof fn lemma_attach(&self, plan: Seq<StepModel>) {
        let chain = self.attach_plan();
        lemma_chain_effect(plan, self.handles(), chain[0].message, chain[1].message, true);
    }

    proof fn lemma_detach(&self, plan: Seq<StepModel>) {
        lemma_one_effect(plan, self.detach_plan()[0]);
        assert(self.detach_plan() =~= seq![self.detach_plan()[0]]);
    }

    open spec fn attach_refusal(&self) -> ErrorModel {
        ErrorModel::ElementError("Failed to add elements to pipeline: "@)
    }

    open spec fn detach_refusal(&self) -> ErrorModel {
        ErrorModel::ElementError("Failed to remove elements from pipeline: "@)
    }

    fn link(&self, pipeline: &mut Container) -> (res: Result<(), RecorderError>) {
        attach_chain(
            pipeline,
            self.elements(),
            String::from_str("Failed to add elements to pipeline: "),
            String::from_str("Failed to link elements in pipeline: "),
            true,
        )
    }

    fn unlink(&self, pipeline: &mut Container) -> (res: Result<(), RecorderError>) {
        let message = String::from_str("Failed to remove elements from pipeline: ");
        proof {
            pipeline.lemma_wf_is_sound();
            lemma_sound_one(pipeline.plan(), self.detach_plan()[0]);
            assert(self.detach_plan() =~= seq![self.detach_plan()[0]]);
        }
        pipeline.remove_many(self.elements(), message, true)
    }
}

impl PipelineSink for FileSink {
    open spec fn has_inlet(&self) -> bool {
        true
    }

    /// The first element of the chain.
    open spec fn inlet(&self) -> usize {
        self.handles()[0]
    }

    fn sink(&self) -> (res: usize) {
        self.video_queue
    }
}

} // verus!
