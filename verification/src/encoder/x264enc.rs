//! The H.264 software encoder.
use crate::container::{
    attach_chain, chain_attachment, lemma_chain_effect, lemma_one_effect, lemma_sound_one,
    Container,
};
use crate::encoder::Config as EncoderConfig;
use crate::engine::{CommandModel, StepModel};
use crate::recorder::errors::{fails_with, ErrorModel, RecorderError};
use crate::traits::{Pipeline, PipelineSink, PipelineSrc};
use crate::util::{codec_creation, create_codec};
use vstd::prelude::*;
use vstd::string::*;

verus! {

/// The settings of the `x264enc` element, one field for each property.
#[derive(Clone, Debug, PartialEq, Eq)]
pub struct Config {
    /// Partitions to consider, as the engine's flag names: `i4x4`, `i8x8`,
    /// `p8x8`, `p4x4`, `b8x8`.
    pub analyse: String,
    pub aud: bool,
    pub b_adapt: bool,
    pub b_pyramid: bool,
    pub bframes: u32,
    pub bitrate: u32,
    pub byte_stream: bool,
    pub cabac: bool,
    pub dct8x8: bool,
    /// Stereo frame packing: `auto`, `checkerboard`, `column-interleaved`,
    /// `row-interleaved`, `side-by-side`, `top-bottom`, `frame-interleaved`.
    pub frame_packing: String,
    pub insert_vui: bool,
    pub interlaced: bool,
    pub intra_refresh: bool,
    /// Quantizer factor between I and P frames, a single-precision float as
    /// its IEEE 754 bit pattern.
    pub ip_factor: u32,
    pub key_int_max: u32,
    pub mb_tree: bool,
    /// Motion estimation: `dia`, `hex`, `umh`, `esa`, `tesa`.
    pub me: String,
    pub min_force_key_unit_interval: u64,
    pub multipass_cache_file: String,
    pub name: String,
    pub noise_reduction: u32,
    /// Further options, as `key=value` pairs.
    pub option_string: String,
    /// Rate control: `cbr`, `quant`, `qual`, `pass1`, `pass2`, `pass3`.
    pub pass: String,
    /// Quantizer factor between P and B frames, a single-precision float as
    /// its IEEE 754 bit pattern.
    pub pb_factor: u32,
    /// Psychovisual tuning: `none`, `film`, `animation`, `grain`, `psnr`,
    /// `ssim`.
    pub psy_tune: String,
    pub qos: bool,
    pub qp_max: u32,
    pub qp_min: u32,
    pub qp_step: u32,
    pub quantizer: u32,
    pub rc_lookahead: i32,
    pub ref_frames: u32,
    pub sliced_threads: bool,
    /// Speed against quality, from `ultrafast` to `placebo`.
    pub speed_preset: String,
    pub sps_id: u32,
    pub subme: u32,
    pub sync_lookahead: i32,
    pub threads: u32,
    pub trellis: bool,
    /// Tuning flags: `stillimage`, `fastdecode`, `zerolatency`.
    pub tune: String,
    pub vbv_buffer_capacity: u32,
    pub weightb: bool,
}

impl Config {
    /// Every setting has the value it starts out with.
    pub open spec fn is_default(self) -> bool {
        &&& self.analyse@ == ""@
        &&& self.aud
        &&& self.b_adapt
        &&& !self.b_pyramid
        &&& self.bframes == 0
        &&& self.bitrate == 2048
        &&& !self.byte_stream
        &&& self.cabac
        &&& !self.dct8x8
        &&& self.frame_packing@ == "auto"@
        &&& self.insert_vui
        &&& !self.interlaced
        &&& !self.intra_refresh
        &&& self.ip_factor == 0x3FB3_3333
        &&& self.key_int_max == 60
        &&& self.mb_tree
        &&& self.me@ == "hex"@
        &&& self.min_force_key_unit_interval == 0
        &&& self.multipass_cache_file@ == "x264enc0"@
        &&& self.name@ == "x264enc0"@
        &&& self.noise_reduction == 0
        &&& self.option_string@ == ""@
        &&& self.pass@ == "cbr"@
        &&& self.pb_factor == 0x3FA6_6666
        &&& self.psy_tune@ == "none"@
        &&& !self.qos
        &&& self.qp_max == 51
        &&& self.qp_min == 10
        &&& self.qp_step == 4
        &&& self.quantizer == 21
        &&& self.rc_lookahead == 40
        &&& self.ref_frames == 3
        &&& !self.sliced_threads
        &&& self.speed_preset@ == "medium"@
        &&& self.sps_id == 0
        &&& self.subme == 1
        &&& self.sync_lookahead == -1
        &&& self.threads == 0
        &&& self.trellis
        &&& self.tune@ == ""@
        &&& self.vbv_buffer_capacity == 600
        &&& !self.weightb
    }
}

impl Default for Config {
    fn default() -> (res: Self)
        ensures
            res.is_default(),
    {
        Self {
            analyse: String::from_str(""),
            aud: true,
            b_adapt: true,
            b_pyramid: false,
            bframes: 0,
            bitrate: 2048,
            byte_stream: false,
            cabac: true,
            dct8x8: false,
            frame_packing: String::from_str("auto"),
            insert_vui: true,
            interlaced: false,
            intra_refresh: false,
            ip_factor: 0x3FB3_3333,
            key_int_max: 60,
            mb_tree: true,
            me: String::from_str("hex"),
            min_force_key_unit_interval: 0,
            multipass_cache_file: String::from_str("x264enc0"),
            name: String::from_str("x264enc0"),
            noise_reduction: 0,
            option_string: String::from_str(""),
            pass: String::from_str("cbr"),
            pb_factor: 0x3FA6_6666,
            psy_tune: String::from_str("none"),
            qos: false,
            qp_max: 51,
            qp_min: 10,
            qp_step: 4,
            quantizer: 21,
            rc_lookahead: 40,
            ref_frames: 3,
            sliced_threads: false,
            speed_preset: String::from_str("medium"),
            sps_id: 0,
            subme: 1,
            sync_lookahead: -1,
            threads: 0,
            trellis: true,
            tune: String::from_str(""),
            vbv_buffer_capacity: 600,
            weightb: false,
        }
    }
}

/// A converter, the encoder and a parser, linked in this order.
#[derive(Debug)]
pub struct Encoder {
    name: String,
    video_convert: usize,
    encoder: usize,
    h264parse: usize,
}

impl Encoder {
    /// The stage's elements in the order in which they are linked: the
    /// converter, the encoder, the parser.
    pub closed spec fn handles(&self) -> Seq<usize> {
        seq![self.video_convert, self.encoder, self.h264parse]
    }

    /// The steps that attach an encoder stage with the elements `handles`.
    pub open spec fn attachment(handles: Seq<usize>) -> Seq<StepModel> {
        chain_attachment(
            handles,
            "Failed to add elements to pipeline: "@,
            "Failed to link elements in pipeline: "@,
            true,
        )
    }

    /// The step that detaches an encoder stage with the elements `handles`.
    pub open spec fn detachment(handles: Seq<usize>) -> Seq<StepModel> {
        seq![
            StepModel {
                command: CommandModel::Remove { elements: handles },
                message: "Failed to remove elements from pipeline: "@,
                with_cause: true,
            },
        ]
    }

    /// Plans the creation of the stage's elements: a converter, the video
    /// encoder that `config` selects, and an H.264 parser. Fails, with
    /// only the converter planned, where that encoder is not implemented.
    pub fn new(config: EncoderConfig, pipeline: &mut Container) -> (res: Result<Self, RecorderError>)
        requires
            old(pipeline).wf(),
        ensures
            final(pipeline).wf(),
            final(pipeline).attached() == old(pipeline).attached(),
            final(pipeline).plan() == old(pipeline).plan() + codec_creation(
                config,
                "h264parse"@,
                old(pipeline).count() as usize,
            ),
            config.variant.implemented() ==> final(pipeline).count() == old(pipeline).count() + 3,
            config.variant.implemented() ==> (res matches Ok(e) && e.handles() == seq![
                old(pipeline).count() as usize,
                (old(pipeline).count() + 1) as usize,
                (old(pipeline).count() + 2) as usize,
            ]),
            !config.variant.implemented() ==> final(pipeline).count() == old(pipeline).count() + 1
                && fails_with(res, ErrorModel::ElementError("Encoder not implemented"@)),
    {
        match create_codec(pipeline, &config, "h264parse") {
            Ok((video_convert, encoder, h264parse)) => Ok(
                Encoder { name: config.name, video_convert, encoder, h264parse },
            ),
            Err(e) => Err(e),
        }
    }

    /// The stage's three elements, in the order in which they are linked.
    fn elements(&self) -> (res: Vec<usize>)
        ensures
            res@ == self.handles(),
    {
        let mut elements: Vec<usize> = Vec::new();
        elements.push(self.video_convert);
        elements.push(self.encoder);
        elements.push(self.h264parse);
        assert(elements@ =~= self.handles());
        elements
    }
}

impl Pipeline for Encoder {
    open spec fn implemented(&self) -> bool {
        true
    }

    open spec fn attach_plan(&self) -> Seq<StepModel> {
        Self::attachment(self.handles())
    }

    open spec fn detach_plan(&self) -> Seq<StepModel> {
        Self::detachment(self.handles())
    }

    open spec fn members(&self) -> Seq<usize> {
        self.handles()
    }

    proof fn lemma_attach(&self, plan: Seq<StepModel>) {
        let chain = self.attach_plan();
        lemma_chain_effect(plan, self.handles(), chain[0].message, chain[1].message, true);
    }

    proof fn lemma_detach(&self, plan: Seq<StepModel>) {
        lemma_one_effect(plan, self.detach_plan()[0]);
        assert(self.detach_plan() =~= seq![self.detach_plan()[0]]);
    }

    open spec fn attach_refusal(&self) -> ErrorModel {
        ErrorModel::ElementError("Failed to add elements to pipeline: "@)
    }

    open spec fn detach_refusal(&self) -> ErrorModel {
        ErrorModel::ElementError("Failed to remove elements from pipeline: "@)
    }

    fn link(&self, pipeline: &mut Container) -> (res: Result<(), RecorderError>) {
        attach_chain(
            pipeline,
            self.elements(),
            String::from_str("Failed to add elements to pipeline: "),
            String::from_str("Failed to link elements in pipeline: "),
            true,
        )
    }

    fn unlink(&self, pipeline: &mut Container) -> (res: Result<(), RecorderError>) {
        let message = String::from_str("Failed to remove elements from pipeline: ");
        proof {
            pipeline.lemma_wf_is_sound();
            lemma_sound_one(pipeline.plan(), self.detach_plan()[0]);
            assert(self.detach_plan() =~= seq![self.detach_plan()[0]]);
        }
        pipeline.remove_many(self.elements(), message, true)
    }
}

impl PipelineSrc for Encoder {
    open spec fn has_outlet(&self) -> bool {
        true
    }

    /// The last element of the chain.
    open spec fn outlet(&self) -> usize {
        self.handles().last()
    }

    fn source(&self) -> (res: usize) {
        self.h264parse
    }
}

impl PipelineSink for Encoder {
    open spec fn has_inlet(&self) -> bool {
        true
    }

    /// The first element of the chain.
    open spec fn inlet(&self) -> usize {
        self.handles()[0]
    }

    fn sink(&self) -> (res: usize) {
        self.video_convert
    }
}

} // verus!
