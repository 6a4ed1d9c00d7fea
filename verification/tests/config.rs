use recorder::container::Container;
use recorder::encoder::{self, av1enc, nvh264enc, nvh265enc, x264enc, x265enc, VideoEncoder};
use recorder::engine::{EngineCommand, PropertyValue};
use recorder::input::{self, v4l2};
use recorder::output::muxer::{
    Config as MuxerConfig, FlvConfig, MatroskaConfig, Mp4Config, MpegTsConfig, WebmConfig,
};
use recorder::output::{self, fakesink, filesink};
use recorder::recorder::Config;
use recorder::util::{gst_create_element, set_x264_props, set_x265_props};

#[test]
fn muxers_are_named_after_their_element() {
    assert_eq!(Mp4Config::name(), "mp4mux");
    assert_eq!(FlvConfig::name(), "flvmux");
    assert_eq!(MpegTsConfig::name(), "mpegtsmux");
    assert_eq!(MatroskaConfig::name(), "matroskamux");
    assert_eq!(WebmConfig::name(), "webmmux");
    assert_eq!(MuxerConfig::Flv(FlvConfig::default()).name(), "flvmux");
    assert_eq!(MuxerConfig::Mpeg4(Mp4Config::default()).name(), "mp4mux");
    assert_eq!(MuxerConfig::MpegTs(MpegTsConfig::default()).name(), "mpegtsmux");
    assert_eq!(MuxerConfig::Matroska(MatroskaConfig::default()).name(), "matroskamux");
    assert_eq!(MuxerConfig::Webm(WebmConfig::default()).name(), "webmmux");
}

#[test]
fn muxer_defaults() {
    assert_eq!(MuxerConfig::default(), MuxerConfig::Matroska(MatroskaConfig { streamable: true }));
    assert_eq!(WebmConfig::default(), WebmConfig { streamable: true });
    assert_eq!(FlvConfig::default(), FlvConfig { latency: 0, start_time: 0, streamable: true });
    assert_eq!(
        MpegTsConfig::default(),
        MpegTsConfig { alignment: -1, bitrate: 0, latency: 0, min_upstream_latency: 0 }
    );
    assert_eq!(
        Mp4Config::default(),
        Mp4Config {
            faststart: false,
            faststart_file: "/tmp/faststartfile".to_string(),
            force_chunks: false,
            force_create_timecode_track: false,
            fragment_duration: 0,
            fragment_mode: "dash-or-mss".to_string(),
            interleave_bytes: 0,
            interleave_time: 250000000,
            latency: 0,
            max_raw_audio_drift: 40000000,
            min_upstream_latency: 0,
            moov_recovery_file: String::new(),
            movie_timescale: 0,
            presentation_time: true,
            reserved_bytes_per_sec: 550,
            reserved_max_duration: 18446744073709551615,
            reserved_moov_update_period: 18446744073709551615,
            reserved_prefill: false,
            start_gap_threshold: 0,
            start_time: 18446744073709551615,
            stgart_time_selection: "zero".to_string(),
            streamable: false,
            track_timescale: 0,
        }
    );
}

#[test]
fn stage_defaults() {
    assert_eq!(
        input::Config::default(),
        input::Config {
            name: "input".to_string(),
            variant: input::Variant::V4l2(v4l2::Config { device: "/dev/video0".to_string() }),
        }
    );
    assert_eq!(encoder::Config::default().name, "encoder");
    assert_eq!(
        encoder::Config::default().variant,
        VideoEncoder::X264(x264enc::Config::default())
    );
    assert_eq!(output::Config::default().name, "output");
    assert_eq!(
        output::Config::default().variant,
        output::Variant::FileSink(filesink::Config::default())
    );
    assert_eq!(fakesink::FakeStats::default().stats, "Not implemented for Fake");
    assert_eq!(av1enc::Config::default().name, "av1enc");
    assert_eq!(nvh264enc::NvH264Config::default().name, "nvh265enc");
    assert_eq!(nvh265enc::NvH265Config::default().name, "nvh265enc");
    let run = Config::default();
    assert_eq!(run.name, "recorder");
    assert_eq!(run.duration, None);
    assert_eq!(run.input, input::Config::default());
    assert_eq!(run.output, output::Config::default());
    assert_eq!(run.encoder, encoder::Config::default());
}

#[test]
fn file_sink_defaults() {
    assert_eq!(
        filesink::Config::default(),
        filesink::Config {
            muxer_config: MuxerConfig::Matroska(MatroskaConfig { streamable: true }),
            location: "/tmp/output.mkv".to_string(),
            append: false,
            async_to_pause: true,
            blocksize: 4096,
            buffer_mode: "default".to_string(),
            buffer_size: 65535,
            max_bitrate: 0,
            max_lateness: -1,
            max_transient_error_timeout: 0,
            o_sync: false,
            processing_deadline: 20000000,
            qos: false,
            render_delay: 0,
            sync: false,
            throttle_time: 0,
            ts_offset: 0,
        }
    );
}

#[test]
fn x265_defaults() {
    assert_eq!(
        x265enc::Config::default(),
        x265enc::Config {
            bitrate: 5000,
            key_int_max: 250,
            option_string: String::new(),
            name: "x265enc".to_string(),
            speed_preset: "ultrafast".to_string(),
            tune: "zerolatency".to_string(),
        }
    );
}

#[test]
fn x264_defaults() {
    let c = x264enc::Config::default();
    assert_eq!(c.analyse, "");
    assert!(c.aud);
    assert!(c.b_adapt);
    assert!(!c.b_pyramid);
    assert_eq!(c.bframes, 0);
    assert_eq!(c.bitrate, 2048);
    assert!(!c.byte_stream);
    assert!(c.cabac);
    assert!(!c.dct8x8);
    assert_eq!(c.frame_packing, "auto");
    assert!(c.insert_vui);
    assert!(!c.interlaced);
    assert!(!c.intra_refresh);
    assert_eq!(f32::from_bits(c.ip_factor), 1.4);
    assert_eq!(c.key_int_max, 60);
    assert!(c.mb_tree);
    assert_eq!(c.me, "hex");
    assert_eq!(c.min_force_key_unit_interval, 0);
    assert_eq!(c.multipass_cache_file, "x264enc0");
    assert_eq!(c.name, "x264enc0");
    assert_eq!(c.noise_reduction, 0);
    assert_eq!(c.option_string, "");
    assert_eq!(c.pass, "cbr");
    assert_eq!(f32::from_bits(c.pb_factor), 1.3);
    assert_eq!(c.psy_tune, "none");
    assert!(!c.qos);
    assert_eq!(c.qp_max, 51);
    assert_eq!(c.qp_min, 10);
    assert_eq!(c.qp_step, 4);
    assert_eq!(c.quantizer, 21);
    assert_eq!(c.rc_lookahead, 40);
    assert_eq!(c.ref_frames, 3);
    assert!(!c.sliced_threads);
    assert_eq!(c.speed_preset, "medium");
    assert_eq!(c.sps_id, 0);
    assert_eq!(c.subme, 1);
    assert_eq!(c.sync_lookahead, -1);
    assert_eq!(c.threads, 0);
    assert!(c.trellis);
    assert_eq!(c.tune, "");
    assert_eq!(c.vbv_buffer_capacity, 600);
    assert!(!c.weightb);
}

fn properties_of(container: &Container, from: usize) -> Vec<(usize, String, PropertyValue)> {
    container.steps()[from..]
        .iter()
        .map(|s| match &s.command {
            EngineCommand::SetProperty { element, key, value } => {
                (*element, key.clone(), value.clone())
            }
            other => panic!("not a property: {other:?}"),
        })
        .collect()
}

#[test]
fn the_x264_table_in_order() {
    let mut container = Container::new();
    let x264 = gst_create_element(&mut container, "x264enc", "video_encoder");
    set_x264_props(&mut container, x264, &x264enc::Config::default());
    let text = |s: &str| PropertyValue::Str(s.to_string());
    let parsed = |s: &str| PropertyValue::Parsed(s.to_string());
    let expected: Vec<(&str, PropertyValue)> = vec![
        ("analyse", parsed("")),
        ("aud", PropertyValue::Bool(true)),
        ("bitrate", PropertyValue::U32(2048)),
        ("b-adapt", PropertyValue::Bool(true)),
        ("bframes", PropertyValue::U32(0)),
        ("b-pyramid", PropertyValue::Bool(false)),
        ("byte-stream", PropertyValue::Bool(false)),
        ("cabac", PropertyValue::Bool(true)),
        ("dct8x8", PropertyValue::Bool(false)),
        ("frame-packing", parsed("auto")),
        ("insert-vui", PropertyValue::Bool(true)),
        ("interlaced", PropertyValue::Bool(false)),
        ("intra-refresh", PropertyValue::Bool(false)),
        ("ip-factor", PropertyValue::F32(1.4f32.to_bits())),
        ("key-int-max", PropertyValue::U32(60)),
        ("mb-tree", PropertyValue::Bool(true)),
        ("me", parsed("hex")),
        ("min-force-key-unit-interval", PropertyValue::U64(0)),
        ("multipass-cache-file", text("x264enc0")),
        ("name", text("x264enc0")),
        ("noise-reduction", PropertyValue::U32(0)),
        ("option-string", text("")),
        ("pass", parsed("cbr")),
        ("pb-factor", PropertyValue::F32(1.3f32.to_bits())),
        ("psy-tune", parsed("none")),
        ("qos", PropertyValue::Bool(false)),
        ("qp-max", PropertyValue::U32(51)),
        ("qp-min", PropertyValue::U32(10)),
        ("qp-step", PropertyValue::U32(4)),
        ("quantizer", PropertyValue::U32(21)),
        ("rc-lookahead", PropertyValue::I32(40)),
        ("ref", PropertyValue::U32(3)),
        ("sliced-threads", PropertyValue::Bool(false)),
        ("speed-preset", parsed("medium")),
        ("sps-id", PropertyValue::U32(0)),
        ("subme", PropertyValue::U32(1)),
        ("sync-lookahead", PropertyValue::I32(-1)),
        ("threads", PropertyValue::U32(0)),
        ("trellis", PropertyValue::Bool(true)),
        ("tune", parsed("")),
        ("vbv-buf-capacity", PropertyValue::U32(600)),
        ("weightb", PropertyValue::Bool(false)),
    ];
    let got = properties_of(&container, 1);
    assert_eq!(got.len(), 42);
    for (i, (key, value)) in expected.into_iter().enumerate() {
        assert_eq!(got[i], (0, key.to_string(), value));
    }
}

#[test]
fn the_x264_table_takes_its_values_from_the_settings() {
    let mut container = Container::new();
    let _first = gst_create_element(&mut container, "queue", "q");
    let x264 = gst_create_element(&mut container, "x264enc", "video_encoder");
    let config = x264enc::Config {
        bitrate: 9000,
        tune: "zerolatency".to_string(),
        weightb: true,
        ..x264enc::Config::default()
    };
    set_x264_props(&mut container, x264, &config);
    let got = properties_of(&container, 2);
    assert_eq!(got[2], (1, "bitrate".to_string(), PropertyValue::U32(9000)));
    assert_eq!(got[39], (1, "tune".to_string(), PropertyValue::Parsed("zerolatency".to_string())));
    assert_eq!(got[41], (1, "weightb".to_string(), PropertyValue::Bool(true)));
}

#[test]
fn the_x265_table_in_order() {
    let mut container = Container::new();
    let x265 = gst_create_element(&mut container, "x265enc", "video_encoder");
    let config = x265enc::Config { bitrate: 1, key_int_max: -2, ..x265enc::Config::default() };
    set_x265_props(&mut container, x265, &config);
    assert_eq!(
        properties_of(&container, 1),
        vec![
            (0, "bitrate".to_string(), PropertyValue::U32(1)),
            (0, "key-int-max".to_string(), PropertyValue::I32(-2)),
            (0, "option-string".to_string(), PropertyValue::Str(String::new())),
            (0, "speed-preset".to_string(), PropertyValue::Parsed("ultrafast".to_string())),
            (0, "tune".to_string(), PropertyValue::Parsed("zerolatency".to_string())),
        ]
    );
}
