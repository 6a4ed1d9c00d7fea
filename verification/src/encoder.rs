//! The encoder stage: what turns pictures into a compressed stream.
use crate::container::Container;
use crate::engine::StepModel;
use crate::recorder::errors::{ErrorModel, RecorderError};
use crate::traits::{Pipeline, PipelineSink, PipelineSrc};
use crate::util::codec_creation;
use vstd::prelude::*;
use vstd::string::*;

pub mod av1enc;
pub mod nvh264enc;
pub mod nvh265enc;
pub mod x264enc;
pub mod x265enc;

verus! {

/// Which encoder to use, and what to call it.
#[derive(Clone, Debug, PartialEq, Eq)]
pub struct Config {
    pub name: String,
    pub variant: VideoEncoder,
}

impl Config {
    /// Every setting has the value it starts out with.
    pub open spec fn is_default(self) -> bool {
        &&& self.name@ == "encoder"@
        &&& self.variant.is_default()
    }
}

impl Default for Config {
    fn default() -> (res: Self)
        ensures
            res.is_default(),
    {
        Config { name: String::from_str("encoder"), variant: VideoEncoder::default() }
    }
}

/// The encoders there are, each with its settings.
#[derive(Clone, Debug, PartialEq, Eq)]
pub enum VideoEncoder {
    X264(x264enc::Config),
    NVH264,
    X265(x265enc::Config),
    NVH265,
    AV1(av1enc::Config),
}

impl VideoEncoder {
    /// Whether an element exists for this encoder: for the software
    /// encoders, and for no other.
    pub open spec fn implemented(self) -> bool {
        self is X264 || self is X265 || self is AV1
    }

    /// Whether a stage with this encoder can be attached to a container:
    /// for H.264 and H.265 in software, and for no other.
    pub open spec fn attachable(self) -> bool {
        self is X264 || self is X265
    }
}

impl VideoEncoder {
    /// Every setting has the value it starts out with.
    pub open spec fn is_default(self) -> bool {
        &&& self matches VideoEncoder::X264(c)
        &&& c.is_default()
    }
}

impl Default for VideoEncoder {
    fn default() -> (res: Self)
        ensures
            res.is_default(),
    {
        VideoEncoder::X264(x264enc::Config::default())
    }
}

/// The encoder stage of a pipeline.
#[derive(Debug)]
pub enum Encoder {
    X264(x264enc::Encoder),
    NVH264,
    X265(x265enc::Encoder),
    NVH265,
    AV1(av1enc::Encoder),
}

impl Encoder {
    /// The element type of the parser that follows the encoder that
    /// `variant` selects.
    pub open spec fn parser(variant: VideoEncoder) -> Seq<char> {
        match variant {
            VideoEncoder::X264(_) => "h264parse"@,
            VideoEncoder::X265(_) => "h265parse"@,
            _ => "av1parse"@,
        }
    }

    /// The steps that create the encoder stage that `config` selects, where
    /// `base` elements exist already. A hardware encoder has no elements.
    pub open spec fn creation(config: Config, base: usize) -> Seq<StepModel> {
        if config.variant.implemented() {
            codec_creation(config, Self::parser(config.variant), base)
        } else {
            Seq::empty()
        }
    }

    /// The steps that attach the encoder stage that `config` selects, with
    /// the elements `handles`. An encoder that cannot be attached has none.
    pub open spec fn attachment(config: Config, handles: Seq<usize>) -> Seq<StepModel> {
        match config.variant {
            VideoEncoder::X264(_) => x264enc::Encoder::attachment(handles),
            VideoEncoder::X265(_) => x265enc::Encoder::attachment(handles),
            _ => Seq::empty(),
        }
    }

    /// How many elements the encoder stage that `config` selects is made of.
    pub open spec fn size(config: Config) -> nat {
        if config.variant.implemented() {
            3
        } else {
            0
        }
    }

    /// The stage's elements in the order in which they are linked.
    pub open spec fn handles(&self) -> Seq<usize> {
        match self {
            Encoder::X264(enc) => enc.handles(),
            Encoder::X265(enc) => enc.handles(),
            Encoder::AV1(enc) => enc.handles(),
            _ => Seq::empty(),
        }
    }

    /// The variant of the stage that `variant` selects.
    pub open spec fn selected_by(&self, variant: VideoEncoder) -> bool {
        match variant {
            VideoEncoder::X264(_) => self is X264,
            VideoEncoder::NVH264 => self is NVH264,
            VideoEncoder::X265(_) => self is X265,
            VideoEncoder::NVH265 => self is NVH265,
            VideoEncoder::AV1(_) => self is AV1,
        }
    }

    /// Plans the creation of the encoder stage that `config` selects.
    pub fn new(config: Config, pipeline: &mut Container) -> (res: Result<Self, RecorderError>)
        requires
            old(pipeline).wf(),
        ensures
            final(pipeline).wf(),
            final(pipeline).attached() == old(pipeline).attached(),
            final(pipeline).count() == old(pipeline).count() + Self::size(config),
            final(pipeline).plan() == old(pipeline).plan() + Self::creation(
                config,
                old(pipeline).count() as usize,
            ),
            res matches Ok(e) && e.selected_by(config.variant) && (config.variant.implemented()
                ==> e.handles() == seq![
                old(pipeline).count() as usize,
                (old(pipeline).count() + 1) as usize,
                (old(pipeline).count() + 2) as usize,
            ]),
    {
        let ghost before = pipeline.plan();
        match &config.variant {
            VideoEncoder::X264(_) => match x264enc::Encoder::new(config, pipeline) {
                Ok(enc) => Ok(Encoder::X264(enc)),
                Err(e) => Err(e),
            },
            VideoEncoder::NVH264 => {
                assert(pipeline.plan() =~= before + Seq::<StepModel>::empty());
                Ok(Encoder::NVH264)
            },
            VideoEncoder::X265(_) => match x265enc::Encoder::new(config, pipeline) {
                Ok(enc) => Ok(Encoder::X265(enc)),
                Err(e) => Err(e),
            },
            VideoEncoder::NVH265 => {
                assert(pipeline.plan() =~= before + Seq::<StepModel>::empty());
                Ok(Encoder::NVH265)
            },
            VideoEncoder::AV1(_) => match av1enc::Encoder::new(config, pipeline) {
                Ok(enc) => Ok(Encoder::AV1(enc)),
                Err(e) => Err(e),
            },
        }
    }

    /// The element type of the stage's encoder.
    pub fn name(&self) -> (res: String)
        ensures
            res@ == match self {
                Encoder::X264(_) => "x264enc"@,
                Encoder::NVH264 => "nvh264enc"@,
                Encoder::X265(_) => "x265enc"@,
                Encoder::NVH265 => "nvh265enc"@,
                Encoder::AV1(_) => "av1enc"@,
            },
    {
        match self {
            Encoder::X264(_) => String::from_str("x264enc"),
            Encoder::NVH264 => String::from_str("nvh264enc"),
            Encoder::X265(_) => String::from_str("x265enc"),
            Encoder::NVH265 => String::from_str("nvh265enc"),
            Encoder::AV1(_) => String::from_str("av1enc"),
        }
    }
}

impl Pipeline for Encoder {
    /// Only the H.264 and the H.265 software encoder can be attached.
    open spec fn implemented(&self) -> bool {
        self is X264 || self is X265
    }

    open spec fn attach_plan(&self) -> Seq<StepModel> {
        match self {
            Encoder::X264(enc) => enc.attach_plan(),
            Encoder::X265(enc) => enc.attach_plan(),
            _ => Seq::empty(),
        }
    }

    open spec fn detach_plan(&self) -> Seq<StepModel> {
        match self {
            Encoder::X264(enc) => enc.detach_plan(),
            Encoder::X265(enc) => enc.detach_plan(),
            _ => Seq::empty(),
        }
    }

    open spec fn members(&self) -> Seq<usize> {
        match self {
            Encoder::X264(x) => x.members(),
            Encoder::X265(x) => x.members(),
            _ => Seq::empty(),
        }
    }

    proof fn lemma_attach(&self, plan: Seq<StepModel>) {
        match self {
            Encoder::X264(x) => x.lemma_attach(plan),
            Encoder::X265(x) => x.lemma_attach(plan),
            _ => {},
        }
    }

    proof fn lemma_detach(&self, plan: Seq<StepModel>) {
        match self {
            Encoder::X264(x) => x.lemma_detach(plan),
            Encoder::X265(x) => x.lemma_detach(plan),
            _ => {},
        }
    }

    open spec fn attach_refusal(&self) -> ErrorModel {
        match self {
            Encoder::X264(enc) => enc.attach_refusal(),
            Encoder::X265(enc) => enc.attach_refusal(),
            _ => ErrorModel::ElementError("Encoder not implemented"@),
        }
    }

    open spec fn detach_refusal(&self) -> ErrorModel {
        match self {
            Encoder::X264(enc) => enc.detach_refusal(),
            Encoder::X265(enc) => enc.detach_refusal(),
            _ => ErrorModel::ElementError("Encoder not implemented"@),
        }
    }

    fn link(&self, pipeline: &mut Container) -> (res: Result<(), RecorderError>) {
        match self {
            Encoder::X264(enc) => enc.link(pipeline),
            Encoder::X265(enc) => enc.link(pipeline),
            _ => Err(RecorderError::ElementError(String::from_str("Encoder not implemented"))),
        }
    }

    fn unlink(&self, pipeline: &mut Container) -> (res: Result<(), RecorderError>) {
        match self {
            Encoder::X264(enc) => enc.unlink(pipeline),
            Encoder::X265(enc) => enc.unlink(pipeline),
            _ => Err(RecorderError::ElementError(String::from_str("Encoder not implemented"))),
        }
    }
}

impl PipelineSink for Encoder {
    /// Every encoder that is made of elements has an inlet: the software
    /// encoders. A hardware encoder has no element to name.
    open spec fn has_inlet(&self) -> bool {
        self is X264 || self is X265 || self is AV1
    }

    open spec fn inlet(&self) -> usize {
        match self {
            Encoder::X264(enc) => enc.inlet(),
            Encoder::X265(enc) => enc.inlet(),
            Encoder::AV1(enc) => enc.inlet(),
            _ => 0,
        }
    }

    fn sink(&self) -> (res: usize) {
        match self {
            Encoder::X264(enc) => enc.sink(),
            Encoder::X265(enc) => enc.sink(),
            Encoder::AV1(enc) => enc.sink(),
            _ => 0,
        }
    }
}

impl PipelineSrc for Encoder {
    /// Every encoder that is made of elements has an outlet: the software
    /// encoders. A hardware encoder has no element to name.
    open spec fn has_outlet(&self) -> bool {
        self is X264 || self is X265 || self is AV1
    }

    open spec fn outlet(&self) -> usize {
        match self {
            Encoder::X264(enc) => enc.outlet(),
            Encoder::X265(enc) => enc.outlet(),
            Encoder::AV1(enc) => enc.outlet(),
            _ => 0,
        }
    }

    fn source(&self) -> (res: usize) {
        match self {
            Encoder::X264(enc) => enc.source(),
            Encoder::X265(enc) => enc.source(),
            Encoder::AV1(enc) => enc.source(),
            _ => 0,
        }
    }
}

} // verus!
