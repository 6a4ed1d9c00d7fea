//! The H.265 software encoder.
use crate::container::{
    attach_chain, chain_attachment, lemma_chain_effect, lemma_one_effect, lemma_sound_one,
    Container,
};
use crate::encoder::Config as EncoderConfig;
use crate::engine::{CommandModel, StepModel};
use crate::recorder::errors::{fails_with, ErrorModel, RecorderError};
use crate::traits::{Pipeline, PipelineSink, PipelineSrc};
use crate::util::{codec_creation, create_codec};
use vstd::prelude::*;
use vstd::string::*;

verus! {

/// The settings of the `x265enc` element.
#[derive(Clone, Debug, PartialEq, Eq)]
pub struct Config {
    pub bitrate: u32,
    pub key_int_max: i32,
    /// Further options, as `key=value` pairs.
    pub option_string: String,
    pub name: String,
    /// Speed against quality, from `ultrafast` to `placebo`.
    pub speed_preset: String,
    pub tune: String,
}

impl Config {
    /// Every setting has the value it starts out with.
    pub open spec fn is_default(self) -> bool {
        &&& self.bitrate == 5000
        &&& self.key_int_max == 250
        &&& self.option_string@ == ""@
        &&& self.name@ == "x265enc"@
        &&& self.speed_preset@ == "ultrafast"@
        &&& self.tune@ == "zerolatency"@
    }
}

impl Default for Config {
    fn default() -> (res: Self)
        ensures
            res.is_default(),
    {
        Self {
            bitrate: 5000,
            key_int_max: 250,
            option_string: String::from_str(""),
            name: String::from_str("x265enc"),
            speed_preset: String::from_str("ultrafast"),
            tune: String::from_str("zerolatency"),
        }
    }
}

/// A converter, the encoder and a parser, linked in this order.
#[derive(Debug)]
pub struct Encoder {
    name: String,
    video_convert: usize,
    encoder: usize,
    h265parse: usize,
}

impl Encoder {
    /// The stage's elements in the order in which they are linked: the
    /// converter, the encoder, the parser.
    pub closed spec fn handles(&self) -> Seq<usize> {
        seq![self.video_convert, self.encoder, self.h265parse]
    }

    /// The steps that attach an encoder stage with the elements `handles`.
    pub open spec fn attachment(handles: Seq<usize>) -> Seq<StepModel> {
        chain_attachment(
            handles,
            "Failed to add elements to pipeline: "@,
            "Failed to link elements in pipeline: "@,
            true,
        )
    }

    /// The step that detaches an encoder stage with the elements `handles`.
    pub open spec fn detachment(handles: Seq<usize>) -> Seq<StepModel> {
        seq![
            StepModel {
                command: CommandModel::Remove { elements: handles },
                message: "Failed to remove elements from pipeline: "@,
                with_cause: true,
            },
        ]
    }

    /// Plans the creation of the stage's elements: a converter, the video
    /// encoder that `config` selects, and an H.265 parser. Fails, with
    /// only the converter planned, where that encoder is not implemented.
    pub fn new(config: EncoderConfig, pipeline: &mut Container) -> (res: Result<Self, RecorderError>)
        requires
            old(pipeline).wf(),
        ensures
            final(pipeline).wf(),
            final(pipeline).attached() == old(pipeline).attached(),
            final(pipeline).plan() == old(pipeline).plan() + codec_creation(
                config,
                "h265parse"@,
                old(pipeline).count() as usize,
            ),
            config.variant.implemented() ==> final(pipeline).count() == old(pipeline).count() + 3,
            config.variant.implemented() ==> (res matches Ok(e) && e.handles() == seq![
                old(pipeline).count() as usize,
                (old(pipeline).count() + 1) as usize,
                (old(pipeline).count() + 2) as usize,
            ]),
            !config.variant.implemented() ==> final(pipeline).count() == old(pipeline).count() + 1
                && fails_with(res, ErrorModel::ElementError("Encoder not implemented"@)),
    {
        match create_codec(pipeline, &config, "h265parse") {
            Ok((video_convert, encoder, h265parse)) => Ok(
                Encoder { name: config.name, video_convert, encoder, h265parse },
            ),
            Err(e) => Err(e),
        }
    }

    /// The stage's three elements, in the order in which they are linked.
    fn elements(&self) -> (res: Vec<usize>)
        ensures
            res@ == self.handles(),
    {
        let mut elements: Vec<usize> = Vec::new();
        elements.push(self.video_convert);
        elements.push(self.encoder);
        elements.push(self.h265parse);
        assert(elements@ =~= self.handles());
        elements
    }
}

impl Pipeline for Encoder {
    open spec fn implemented(&self) -> bool {
        true
    }

    open spec fn attach_plan(&self) -> Seq<StepModel> {
        Self::attachment(self.handles())
    }

    open spec fn detach_plan(&self) -> Seq<StepModel> {
        Self::detachment(self.handles())
    }

    open spec fn members(&self) -> Seq<usize> {
        self.handles()
    }

    proof fn lemma_attach(&self, plan: Seq<StepModel>) {
        let chain = self.attach_plan();
        lemma_chain_effect(plan, self.handles(), chain[0].message, chain[1].message, true);
    }

    proof fn lemma_detach(&self, plan: Seq<StepModel>) {
        lemma_one_effect(plan, self.detach_plan()[0]);
        assert(self.detach_plan() =~= seq![self.detach_plan()[0]]);
    }

    open spec fn attach_refusal(&self) -> ErrorModel {
        ErrorModel::ElementError("Failed to add elements to pipeline: "@)
    }

    open spec fn detach_refusal(&self) -> ErrorModel {
        ErrorModel::ElementError("Failed to remove elements from pipeline: "@)
    }

    fn link(&self, pipeline: &mut Container) -> (res: Result<(), RecorderError>) {
        attach_chain(
            pipeline,
            self.elements(),
            String::from_str("Failed to add elements to pipeline: "),
            String::from_str("Failed to link elements in pipeline: "),
            true,
        )
    }

    fn unlink(&self, pipeline: &mut Container) -> (res: Result<(), RecorderError>) {
        let message = String::from_str("Failed to remove elements from pipeline: ");
        proof {
            pipeline.lemma_wf_is_sound();
            lemma_sound_one(pipeline.plan(), self.detach_plan()[0]);
            assert(self.detach_plan() =~= seq![self.detach_plan()[0]]);
        }
        pipeline.remove_many(self.elements(), message, true)
    }
}

impl PipelineSrc for Encoder {
    open spec fn has_outlet(&self) -> bool {
        true
    }

    /// The last element of the chain.
    open spec fn outlet(&self) -> usize {
        self.handles().last()
    }

    fn source(&self) -> (res: usize) {
        self.h265parse
    }
}

impl PipelineSink for Encoder {
    open spec fn has_inlet(&self) -> bool {
        true
    }

    /// The first element of the chain.
    open spec fn inlet(&self) -> usize {
        self.handles()[0]
    }

    fn sink(&self) -> (res: usize) {
        self.video_convert
    }
}

} // verus!
