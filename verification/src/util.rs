//! Helpers that plan the creation of elements.
use crate::container::{property_step, Container};
use crate::encoder::{x264enc, x265enc, Config as EncoderConfig, VideoEncoder};
use crate::engine::{CommandModel, PropertyValue, StepModel, ValueModel};
use crate::recorder::errors::{fails_with, ErrorModel, RecorderError};
use vstd::prelude::*;
use vstd::string::*;

verus! {

/// The step that creates `element` as a `factory` called `name`.
pub open spec fn creation_step(element: usize, factory: Seq<char>, name: Seq<char>) -> StepModel {
    StepModel {
        command: CommandModel::Create { element, factory, name },
        message: "Error creating "@ + name + " "@ + factory,
        with_cause: false,
    }
}

/// `a` followed by `b`, as owned text.
pub fn join2(a: &str, b: &str) -> (res: String)
    ensures
        res@ == a@ + b@,
{
    String::from_str(a).concat(b)
}

/// `a`, `b` and `c` in a row, as owned text.
pub fn join3(a: &str, b: &str, c: &str) -> (res: String)
    ensures
        res@ == a@ + b@ + c@,
{
    String::from_str(a).concat(b).concat(c)
}

/// Plans the creation of an element of type `element_type` called `name`,
/// and returns its handle.
pub fn gst_create_element(pipeline: &mut Container, element_type: &str, name: &str) -> (res: usize)
    requires
        old(pipeline).wf(),
    ensures
        final(pipeline).wf(),
        res == old(pipeline).count(),
        final(pipeline).count() == old(pipeline).count() + 1,
        final(pipeline).attached() == old(pipeline).attached(),
        final(pipeline).plan() == old(pipeline).plan().push(
            creation_step(res, element_type@, name@),
        ),
{
    let message = String::from_str("Error creating ").concat(name).concat(" ").concat(
        element_type,
    );
    pipeline.create(element_type, name, message)
}

/// The step that creates `element` as the video encoder of type `factory`.
pub open spec fn codec_step(element: usize, factory: Seq<char>) -> StepModel {
    StepModel {
        command: CommandModel::Create { element, factory, name: "video_encoder"@ },
        message: "Error creating "@ + factory,
        with_cause: false,
    }
}

/// The steps that set the properties of the `x265enc` element `x265`.
pub open spec fn x265_props(x265: usize, config: x265enc::Config) -> Seq<StepModel> {
    seq![
        property_step(x265, "bitrate"@, ValueModel::U32(config.bitrate)),
        property_step(x265, "key-int-max"@, ValueModel::I32(config.key_int_max)),
        property_step(x265, "option-string"@, ValueModel::Str(config.option_string@)),
        property_step(x265, "speed-preset"@, ValueModel::Parsed(config.speed_preset@)),
        property_step(x265, "tune"@, ValueModel::Parsed(config.tune@)),
    ]
}

/// The steps that set the properties of the `x264enc` element `x264`: one
/// for each field of its settings. The table is long, so it comes in six
/// parts.
pub open spec fn x264_props(x264: usize, config: x264enc::Config) -> Seq<StepModel> {
    x264_stream_props(x264, config) + x264_frame_props(x264, config) + x264_motion_props(
        x264,
        config,
    ) + x264_rate_props(x264, config) + x264_quantizer_props(x264, config) + x264_search_props(
        x264,
        config,
    )
}

/// The part of [`x264_props`] from `analyse` to `byte-stream`.
pub open spec fn x264_stream_props(x264: usize, config: x264enc::Config) -> Seq<StepModel> {
    seq![
        property_step(x264, "analyse"@, ValueModel::Parsed(config.analyse@)),
        property_step(x264, "aud"@, ValueModel::Bool(config.aud)),
        property_step(x264, "bitrate"@, ValueModel::U32(config.bitrate)),
        property_step(x264, "b-adapt"@, ValueModel::Bool(config.b_adapt)),
        property_step(x264, "bframes"@, ValueModel::U32(config.bframes)),
        property_step(x264, "b-pyramid"@, ValueModel::Bool(config.b_pyramid)),
        property_step(x264, "byte-stream"@, ValueModel::Bool(config.byte_stream)),
    ]
}

/// The part of [`x264_props`] from `cabac` to `ip-factor`.
pub open spec fn x264_frame_props(x264: usize, config: x264enc::Config) -> Seq<StepModel> {
    seq![
        property_step(x264, "cabac"@, ValueModel::Bool(config.cabac)),
        property_step(x264, "dct8x8"@, ValueModel::Bool(config.dct8x8)),
        property_step(x264, "frame-packing"@, ValueModel::Parsed(config.frame_packing@)),
        property_step(x264, "insert-vui"@, ValueModel::Bool(config.insert_vui)),
        property_step(x264, "interlaced"@, ValueModel::Bool(config.interlaced)),
        property_step(x264, "intra-refresh"@, ValueModel::Bool(config.intra_refresh)),
        property_step(x264, "ip-factor"@, ValueModel::F32(config.ip_factor)),
    ]
}

/// The part of [`x264_props`] from `key-int-max` to `noise-reduction`.
pub open spec fn x264_motion_props(x264: usize, config: x264enc::Config) -> Seq<StepModel> {
    seq![
        property_step(x264, "key-int-max"@, ValueModel::U32(config.key_int_max)),
        property_step(x264, "mb-tree"@, ValueModel::Bool(config.mb_tree)),
        property_step(x264, "me"@, ValueModel::Parsed(config.me@)),
        property_step(
            x264,
            "min-force-key-unit-interval"@,
            ValueModel::U64(config.min_force_key_unit_interval),
        ),
        property_step(x264, "multipass-cache-file"@, ValueModel::Str(config.multipass_cache_file@)),
        property_step(x264, "name"@, ValueModel::Str(config.name@)),
        property_step(x264, "noise-reduction"@, ValueModel::U32(config.noise_reduction)),
    ]
}

/// The part of [`x264_props`] from `option-string` to `qp-min`.
pub open spec fn x264_rate_props(x264: usize, config: x264enc::Config) -> Seq<StepModel> {
    seq![
        property_step(x264, "option-string"@, ValueModel::Str(config.option_string@)),
        property_step(x264, "pass"@, ValueModel::Parsed(config.pass@)),
        property_step(x264, "pb-factor"@, ValueModel::F32(config.pb_factor)),
        property_step(x264, "psy-tune"@, ValueModel::Parsed(config.psy_tune@)),
        property_step(x264, "qos"@, ValueModel::Bool(config.qos)),
        property_step(x264, "qp-max"@, ValueModel::U32(config.qp_max)),
        property_step(x264, "qp-min"@, ValueModel::U32(config.qp_min)),
    ]
}

/// The part of [`x264_props`] from `qp-step` to `sps-id`.
pub open spec fn x264_quantizer_props(x264: usize, config: x264enc::Config) -> Seq<StepModel> {
    seq![
        property_step(x264, "qp-step"@, ValueModel::U32(config.qp_step)),
        property_step(x264, "quantizer"@, ValueModel::U32(config.quantizer)),
        property_step(x264, "rc-lookahead"@, ValueModel::I32(config.rc_lookahead)),
        property_step(x264, "ref"@, ValueModel::U32(config.ref_frames)),
        property_step(x264, "sliced-threads"@, ValueModel::Bool(config.sliced_threads)),
        property_step(x264, "speed-preset"@, ValueModel::Parsed(config.speed_preset@)),
        property_step(x264, "sps-id"@, ValueModel::U32(config.sps_id)),
    ]
}

/// The part of [`x264_props`] from `subme` to `weightb`.
pub open spec fn x264_search_props(x264: usize, config: x264enc::Config) -> Seq<StepModel> {
    seq![
        property_step(x264, "subme"@, ValueModel::U32(config.subme)),
        property_step(x264, "sync-lookahead"@, ValueModel::I32(config.sync_lookahead)),
        property_step(x264, "threads"@, ValueModel::U32(config.threads)),
        property_step(x264, "trellis"@, ValueModel::Bool(config.trellis)),
        property_step(x264, "tune"@, ValueModel::Parsed(config.tune@)),
        property_step(x264, "vbv-buf-capacity"@, ValueModel::U32(config.vbv_buffer_capacity)),
        property_step(x264, "weightb"@, ValueModel::Bool(config.weightb)),
    ]
}

/// The steps that create the video encoder that `config` selects as
/// `element` and set it up. There are none for an encoder that is not
/// implemented.
pub open spec fn video_encoder_creation(config: VideoEncoder, element: usize) -> Seq<StepModel> {
    match config {
        VideoEncoder::X264(c) => seq![codec_step(element, "x264enc"@)] + x264_props(element, c),
        VideoEncoder::X265(c) => seq![codec_step(element, "x265enc"@)] + x265_props(element, c),
        VideoEncoder::AV1(c) => seq![codec_step(element, "av1enc"@)],
        _ => Seq::empty(),
    }
}

/// Plans the creation of the video encoder that `config` selects, with its
/// properties, and returns its handle. Fails, with nothing planned, for an
/// encoder that is not implemented.
pub fn gst_create_video_encoder(pipeline: &mut Container, config: &VideoEncoder) -> (res: Result<
    usize,
    RecorderError,
>)
    requires
        old(pipeline).wf(),
    ensures
        final(pipeline).wf(),
        final(pipeline).attached() == old(pipeline).attached(),
        final(pipeline).plan() == old(pipeline).plan() + video_encoder_creation(
            *config,
            old(pipeline).count() as usize,
        ),
        config.implemented() ==> res == Ok::<usize, RecorderError>(old(pipeline).count() as usize)
            && final(pipeline).count() == old(pipeline).count() + 1,
        !config.implemented() ==> fails_with(
            res,
            ErrorModel::ElementError("Encoder not implemented"@),
        ) && final(pipeline).count() == old(pipeline).count(),
{
    let ghost before = pipeline.plan();
    match config {
        VideoEncoder::X264(config) => {
            let encoder = pipeline.create(
                "x264enc",
                "video_encoder",
                join2("Error creating ", "x264enc"),
            );
            set_x264_props(pipeline, encoder, config);
            assert(pipeline.plan() =~= before + (seq![codec_step(encoder, "x264enc"@)] + x264_props(
                encoder,
                *config,
            )));
            Ok(encoder)
        },
        VideoEncoder::X265(config) => {
            let encoder = pipeline.create(
                "x265enc",
                "video_encoder",
                join2("Error creating ", "x265enc"),
            );
            set_x265_props(pipeline, encoder, config);
            assert(pipeline.plan() =~= before + (seq![codec_step(encoder, "x265enc"@)] + x265_props(
                encoder,
                *config,
            )));
            Ok(encoder)
        },
        VideoEncoder::AV1(_) => {
            let encoder = pipeline.create(
                "av1enc",
                "video_encoder",
                join2("Error creating ", "av1enc"),
            );
            assert(pipeline.plan() =~= before + seq![codec_step(encoder, "av1enc"@)]);
            Ok(encoder)
        },
        _ => {
            assert(pipeline.plan() =~= before + Seq::<StepModel>::empty());
            Err(RecorderError::ElementError(String::from_str("Encoder not implemented")))
        },
    }
}

/// Plans setting the properties of the `x265enc` element `x265`.
pub fn set_x265_props(pipeline: &mut Container, x265: usize, config: &x265enc::Config)
    requires
        old(pipeline).wf(),
        x265 < old(pipeline).count(),
    ensures
        final(pipeline).wf(),
        final(pipeline).count() == old(pipeline).count(),
        final(pipeline).attached() == old(pipeline).attached(),
        final(pipeline).plan() == old(pipeline).plan() + x265_props(x265, *config),
{
    let ghost before = pipeline.plan();
    pipeline.set_property(x265, "bitrate", PropertyValue::U32(config.bitrate));
    pipeline.set_property(x265, "key-int-max", PropertyValue::I32(config.key_int_max));
    pipeline.set_property(x265, "option-string", PropertyValue::Str(config.option_string.clone()));
    pipeline.set_property(x265, "speed-preset", PropertyValue::Parsed(config.speed_preset.clone()));
    pipeline.set_property(x265, "tune", PropertyValue::Parsed(config.tune.clone()));
    assert(pipeline.plan() =~= before + x265_props(x265, *config));
}

/// Plans setting the properties of the `x264enc` element `x264`.
pub fn set_x264_props(pipeline: &mut Container, x264: usize, config: &x264enc::Config)
    requires
        old(pipeline).wf(),
        x264 < old(pipeline).count(),
    ensures
        final(pipeline).wf(),
        final(pipeline).count() == old(pipeline).count(),
        final(pipeline).attached() == old(pipeline).attached(),
        final(pipeline).plan() == old(pipeline).plan() + x264_props(x264, *config),
{
    let ghost before = pipeline.plan();
    set_x264_stream_props(pipeline, x264, config);
    set_x264_frame_props(pipeline, x264, config);
    set_x264_motion_props(pipeline, x264, config);
    set_x264_rate_props(pipeline, x264, config);
    set_x264_quantizer_props(pipeline, x264, config);
    set_x264_search_props(pipeline, x264, config);
    assert(pipeline.plan() =~= before + x264_props(x264, *config));
}

/// Plans setting the properties from `analyse` to `byte-stream`.
fn set_x264_stream_props(pipeline: &mut Container, x264: usize, config: &x264enc::Config)
    requires
        old(pipeline).wf(),
        x264 < old(pipeline).count(),
    ensures
        final(pipeline).wf(),
        final(pipeline).count() == old(pipeline).count(),
        final(pipeline).attached() == old(pipeline).attached(),
        final(pipeline).plan() == old(pipeline).plan() + x264_stream_props(x264, *config),
{
    let ghost before = pipeline.plan();
    pipeline.set_property(x264, "analyse", PropertyValue::Parsed(config.analyse.clone()));
    pipeline.set_property(x264, "aud", PropertyValue::Bool(config.aud));
    pipeline.set_property(x264, "bitrate", PropertyValue::U32(config.bitrate));
    pipeline.set_property(x264, "b-adapt", PropertyValue::Bool(config.b_adapt));
    pipeline.set_property(x264, "bframes", PropertyValue::U32(config.bframes));
    pipeline.set_property(x264, "b-pyramid", PropertyValue::Bool(config.b_pyramid));
    pipeline.set_property(x264, "byte-stream", PropertyValue::Bool(config.byte_stream));
    assert(pipeline.plan() =~= before + x264_stream_props(x264, *config));
}

/// Plans setting the properties from `cabac` to `ip-factor`.
fn set_x264_frame_props(pipeline: &mut Container, x264: usize, config: &x264enc::Config)
    requires
        old(pipeline).wf(),
        x264 < old(pipeline).count(),
    ensures
        final(pipeline).wf(),
        final(pipeline).count() == old(pipeline).count(),
        final(pipeline).attached() == old(pipeline).attached(),
        final(pipeline).plan() == old(pipeline).plan() + x264_frame_props(x264, *config),
{
    let ghost before = pipeline.plan();
    pipeline.set_property(x264, "cabac", PropertyValue::Bool(config.cabac));
    pipeline.set_property(x264, "dct8x8", PropertyValue::Bool(config.dct8x8));
    pipeline.set_property(
        x264,
        "frame-packing",
        PropertyValue::Parsed(config.frame_packing.clone()),
    );
    pipeline.set_property(x264, "insert-vui", PropertyValue::Bool(config.insert_vui));
    pipeline.set_property(x264, "interlaced", PropertyValue::Bool(config.interlaced));
    pipeline.set_property(x264, "intra-refresh", PropertyValue::Bool(config.intra_refresh));
    pipeline.set_property(x264, "ip-factor", PropertyValue::F32(config.ip_factor));
    assert(pipeline.plan() =~= before + x264_frame_props(x264, *config));
}

/// Plans setting the properties from `key-int-max` to `noise-reduction`.
fn set_x264_motion_props(pipeline: &mut Container, x264: usize, config: &x264enc::Config)
    requires
        old(pipeline).wf(),
        x264 < old(pipeline).count(),
    ensures
        final(pipeline).wf(),
        final(pipeline).count() == old(pipeline).count(),
        final(pipeline).attached() == old(pipeline).attached(),
        final(pipeline).plan() == old(pipeline).plan() + x264_motion_props(x264, *config),
{
    let ghost before = pipeline.plan();
    pipeline.set_property(x264, "key-int-max", PropertyValue::U32(config.key_int_max));
    pipeline.set_property(x264, "mb-tree", PropertyValue::Bool(config.mb_tree));
    pipeline.set_property(x264, "me", PropertyValue::Parsed(config.me.clone()));
    pipeline.set_property(
        x264,
        "min-force-key-unit-interval",
        PropertyValue::U64(config.min_force_key_unit_interval),
    );
    pipeline.set_property(
        x264,
        "multipass-cache-file",
        PropertyValue::Str(config.multipass_cache_file.clone()),
    );
    pipeline.set_property(x264, "name", PropertyValue::Str(config.name.clone()));
    pipeline.set_property(x264, "noise-reduction", PropertyValue::U32(config.noise_reduction));
    assert(pipeline.plan() =~= before + x264_motion_props(x264, *config));
}

/// Plans setting the properties from `option-string` to `qp-min`.
fn set_x264_rate_props(pipeline: &mut Container, x264: usize, config: &x264enc::Config)
    requires
        old(pipeline).wf(),
        x264 < old(pipeline).count(),
    ensures
        final(pipeline).wf(),
        final(pipeline).count() == old(pipeline).count(),
        final(pipeline).attached() == old(pipeline).attached(),
        final(pipeline).plan() == old(pipeline).plan() + x264_rate_props(x264, *config),
{
    let ghost before = pipeline.plan();
    pipeline.set_property(x264, "option-string", PropertyValue::Str(config.option_string.clone()));
    pipeline.set_property(x264, "pass", PropertyValue::Parsed(config.pass.clone()));
    pipeline.set_property(x264, "pb-factor", PropertyValue::F32(config.pb_factor));
    pipeline.set_property(x264, "psy-tune", PropertyValue::Parsed(config.psy_tune.clone()));
    pipeline.set_property(x264, "qos", PropertyValue::Bool(config.qos));
    pipeline.set_property(x264, "qp-max", PropertyValue::U32(config.qp_max));
    pipeline.set_property(x264, "qp-min", PropertyValue::U32(config.qp_min));
    assert(pipeline.plan() =~= before + x264_rate_props(x264, *config));
}

/// Plans setting the properties from `qp-step` to `sps-id`.
fn set_x264_quantizer_props(pipeline: &mut Container, x264: usize, config: &x264enc::Config)
    requires
        old(pipeline).wf(),
        x264 < old(pipeline).count(),
    ensures
        final(pipeline).wf(),
        final(pipeline).count() == old(pipeline).count(),
        final(pipeline).attached() == old(pipeline).attached(),
        final(pipeline).plan() == old(pipeline).plan() + x264_quantizer_props(x264, *config),
{
    let ghost before = pipeline.plan();
    pipeline.set_property(x264, "qp-step", PropertyValue::U32(config.qp_step));
    pipeline.set_property(x264, "quantizer", PropertyValue::U32(config.quantizer));
    pipeline.set_property(x264, "rc-lookahead", PropertyValue::I32(config.rc_lookahead));
    pipeline.set_property(x264, "ref", PropertyValue::U32(config.ref_frames));
    pipeline.set_property(x264, "sliced-threads", PropertyValue::Bool(config.sliced_threads));
    pipeline.set_property(x264, "speed-preset", PropertyValue::Parsed(config.speed_preset.clone()));
    pipeline.set_property(x264, "sps-id", PropertyValue::U32(config.sps_id));
    assert(pipeline.plan() =~= before + x264_quantizer_props(x264, *config));
}

/// Plans setting the properties from `subme` to `weightb`.
fn set_x264_search_props(pipeline: &mut Container, x264: usize, config: &x264enc::Config)
    requires
        old(pipeline).wf(),
        x264 < old(pipeline).count(),
    ensures
        final(pipeline).wf(),
        final(pipeline).count() == old(pipeline).count(),
        final(pipeline).attached() == old(pipeline).attached(),
        final(pipeline).plan() == old(pipeline).plan() + x264_search_props(x264, *config),
{
    let ghost before = pipeline.plan();
    pipeline.set_property(x264, "subme", PropertyValue::U32(config.subme));
    pipeline.set_property(x264, "sync-lookahead", PropertyValue::I32(config.sync_lookahead));
    pipeline.set_property(x264, "threads", PropertyValue::U32(config.threads));
    pipeline.set_property(x264, "trellis", PropertyValue::Bool(config.trellis));
    pipeline.set_property(x264, "tune", PropertyValue::Parsed(config.tune.clone()));
    pipeline.set_property(x264, "vbv-buf-capacity", PropertyValue::U32(config.vbv_buffer_capacity));
    pipeline.set_property(x264, "weightb", PropertyValue::Bool(config.weightb));
    assert(pipeline.plan() =~= before + x264_search_props(x264, *config));
}

/// The steps that create the elements of an encoder stage, where `base`
/// elements exist already: a converter, the video encoder that `config`
/// selects and, where that one is implemented, a parser of type `parser`.
pub open spec fn codec_creation(config: EncoderConfig, parser: Seq<char>, base: usize) -> Seq<
    StepModel,
> {
    let front = seq![creation_step(base, "videoconvert"@, "videoconvert0"@)]
        + video_encoder_creation(config.variant, (base + 1) as usize);
    if config.variant.implemented() {
        front.push(
            creation_step(
                (base + 2) as usize,
                parser,
                "output_"@ + config.name@ + "_"@ + parser,
            ),
        )
    } else {
        front
    }
}

/// Plans the creation of the elements of an encoder stage and returns
/// their handles: see [`codec_creation`]. Fails for an encoder that is not
/// implemented.
pub fn create_codec(pipeline: &mut Container, config: &EncoderConfig, parser: &str) -> (res: Result<
    (usize, usize, usize),
    RecorderError,
>)
    requires
        old(pipeline).wf(),
    ensures
        final(pipeline).wf(),
        final(pipeline).attached() == old(pipeline).attached(),
        final(pipeline).plan() == old(pipeline).plan() + codec_creation(
            *config,
            parser@,
            old(pipeline).count() as usize,
        ),
        config.variant.implemented() ==> res == Ok::<(usize, usize, usize), RecorderError>(
            (
                old(pipeline).count() as usize,
                (old(pipeline).count() + 1) as usize,
                (old(pipeline).count() + 2) as usize,
            ),
        ) && final(pipeline).count() == old(pipeline).count() + 3,
        !config.variant.implemented() ==> fails_with(
            res,
            ErrorModel::ElementError("Encoder not implemented"@),
        ) && final(pipeline).count() == old(pipeline).count() + 1,
{
    let ghost before = pipeline.plan();
    let ghost base = pipeline.count() as usize;
    let video_convert = gst_create_element(pipeline, "videoconvert", "videoconvert0");
    let encoder = match gst_create_video_encoder(pipeline, &config.variant) {
        Ok(encoder) => encoder,
        Err(e) => {
            assert(pipeline.plan() =~= before + codec_creation(*config, parser@, base));
            return Err(e);
        },
    };
    let parser_name = String::from_str("output_").concat(config.name.as_str()).concat("_").concat(
        parser,
    );
    let parse = gst_create_element(pipeline, parser, parser_name.as_str());
    assert(pipeline.plan() =~= before + codec_creation(*config, parser@, base));
    Ok((video_convert, encoder, parse))
}

} // verus!
