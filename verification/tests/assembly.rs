use recorder::encoder::{self, VideoEncoder};
use recorder::engine::{EngineCommand, EngineState, PropertyValue, Step, StepFailure};
use recorder::input::{self, test as test_input, v4l2};
use recorder::output::{self, fakesink, filesink};
use recorder::recorder::errors::RecorderError;
use recorder::recorder::gst_pipeline::{GstPipeline, PipelineState};
use recorder::recorder::Config;

fn scenario(encoder: VideoEncoder) -> Config {
    Config {
        name: "recorder".to_string(),
        duration: None,
        input: input::Config {
            name: "input".to_string(),
            variant: input::Variant::Test(test_input::Config {}),
        },
        output: output::Config {
            name: "output".to_string(),
            variant: output::Variant::FakeSink(fakesink::Config {}),
        },
        encoder: encoder::Config { name: "encoder".to_string(), variant: encoder },
    }
}

fn synthetic() -> Config {
    scenario(VideoEncoder::default())
}

fn create(element: usize, factory: &str, name: &str) -> Step {
    Step {
        command: EngineCommand::Create {
            element,
            factory: factory.to_string(),
            name: name.to_string(),
        },
        message: format!("Error creating {name} {factory}"),
        with_cause: false,
    }
}

fn set(element: usize, key: &str, value: PropertyValue) -> Step {
    Step {
        command: EngineCommand::SetProperty { element, key: key.to_string(), value },
        message: format!("Error setting {key}"),
        with_cause: false,
    }
}

fn step(command: EngineCommand, message: &str, with_cause: bool) -> Step {
    Step { command, message: message.to_string(), with_cause }
}

#[test]
fn the_plan_of_the_synthetic_run() {
    let pipeline = GstPipeline::assemble(synthetic()).unwrap();
    let steps = pipeline.steps();
    assert_eq!(steps.len(), 59);
    assert_eq!(steps[0], create(0, "videotestsrc", "input_input_videotestsrc"));
    assert_eq!(steps[1], set(0, "is-live", PropertyValue::Bool(true)));
    assert_eq!(steps[2], set(0, "pattern", PropertyValue::Parsed("smpte".to_string())));
    assert_eq!(steps[3], create(1, "queue", "input_input_video_queue"));
    assert_eq!(
        steps[4],
        step(EngineCommand::WatchOverrun { element: 1 }, "Error watching overruns", false)
    );
    assert_eq!(steps[5], create(2, "videoconvert", "input_input_video_convert"));
    assert_eq!(steps[6], create(3, "videoconvert", "videoconvert0"));
    assert_eq!(
        steps[7],
        step(
            EngineCommand::Create {
                element: 4,
                factory: "x264enc".to_string(),
                name: "video_encoder".to_string(),
            },
            "Error creating x264enc",
            false,
        )
    );
    assert_eq!(steps[8], set(4, "analyse", PropertyValue::Parsed(String::new())));
    assert_eq!(steps[49], set(4, "weightb", PropertyValue::Bool(false)));
    assert_eq!(steps[50], create(5, "h264parse", "output_encoder_h264parse"));
    assert_eq!(
        steps[51],
        step(
            EngineCommand::Create {
                element: 6,
                factory: "fakesink".to_string(),
                name: "output_output_fakesink_video".to_string(),
            },
            "Error creating output video fakesink",
            false,
        )
    );
    assert_eq!(
        steps[52],
        step(
            EngineCommand::Add { elements: vec![0, 1] },
            "Error adding input elements to pipeline",
            false
        )
    );
    assert_eq!(
        steps[53],
        step(
            EngineCommand::LinkMany { elements: vec![0, 1] },
            "Error linking input video elements",
            false
        )
    );
    assert_eq!(
        steps[54],
        step(
            EngineCommand::Add { elements: vec![3, 4, 5] },
            "Failed to add elements to pipeline: ",
            true
        )
    );
    assert_eq!(
        steps[55],
        step(
            EngineCommand::LinkMany { elements: vec![3, 4, 5] },
            "Failed to link elements in pipeline: ",
            true
        )
    );
    assert_eq!(
        steps[56],
        step(
            EngineCommand::Add { elements: vec![6] },
            "Error adding output audio and video fakesink elements",
            false
        )
    );
    assert_eq!(
        steps[57],
        step(EngineCommand::Link { from: 1, to: 3 }, "Error linking Input to Codec: ", true)
    );
    assert_eq!(
        steps[58],
        step(EngineCommand::Link { from: 5, to: 6 }, "Error linking Codec to Output: ", true)
    );
    assert_eq!(pipeline._get_state(), PipelineState::Stopped);
    assert_eq!(pipeline.name(), "recorder");
}

#[test]
fn the_plan_of_the_default_run() {
    let pipeline = GstPipeline::assemble(Config::default()).unwrap();
    let steps = pipeline.steps();
    assert_eq!(steps[0], create(0, "v4l2src", "input_v4l2src_v4l2src"));
    assert_eq!(steps[1], set(0, "device", PropertyValue::Str("/dev/video0".to_string())));
    assert_eq!(steps[2], create(1, "queue", "input_v4l2src_video_queue"));
    assert_eq!(steps[4], create(2, "videoconvert", "videoconvert0"));
    assert_eq!(steps[48], create(4, "h264parse", "output_encoder_h264parse"));
    assert_eq!(steps[49], create(5, "queue", "output_output_video_queue"));
    assert_eq!(steps[51], create(6, "matroskamux", "matroskamux_output_muxer"));
    assert_eq!(steps[52], create(7, "filesink", "output_output_filesink"));
    assert_eq!(steps[53], set(7, "location", PropertyValue::Str("/tmp/output.mkv".to_string())));
    assert_eq!(
        steps[54],
        step(
            EngineCommand::Add { elements: vec![0, 1] },
            "Error adding v4l2src elements to pipeline",
            false
        )
    );
    assert_eq!(
        steps[58],
        step(
            EngineCommand::Add { elements: vec![5, 6, 7] },
            "Failed to add elements to pipeline: ",
            true
        )
    );
}

#[test]
fn the_plan_of_the_default_run_ends_with_the_two_links() {
    let pipeline = GstPipeline::assemble(Config::default()).unwrap();
    let steps = pipeline.steps();
    let n = steps.len();
    assert_eq!(n, 62);
    assert_eq!(
        steps[n - 2],
        step(EngineCommand::Link { from: 1, to: 2 }, "Error linking Input to Codec: ", true)
    );
    assert_eq!(
        steps[n - 1],
        step(EngineCommand::Link { from: 4, to: 5 }, "Error linking Codec to Output: ", true)
    );
}

#[test]
fn stages_are_attached_in_the_order_input_encoder_output() {
    let pipeline = GstPipeline::assemble(synthetic()).unwrap();
    let added: Vec<Vec<usize>> = pipeline
        .steps()
        .iter()
        .filter_map(|s| match &s.command {
            EngineCommand::Add { elements } => Some(elements.clone()),
            _ => None,
        })
        .collect();
    assert_eq!(added, vec![vec![0, 1], vec![3, 4, 5], vec![6]]);
}

#[test]
fn h265_gets_its_own_parser_and_properties() {
    let config = scenario(VideoEncoder::X265(encoder::x265enc::Config::default()));
    let pipeline = GstPipeline::assemble(config).unwrap();
    let steps = pipeline.steps();
    assert_eq!(
        steps[7],
        step(
            EngineCommand::Create {
                element: 4,
                factory: "x265enc".to_string(),
                name: "video_encoder".to_string(),
            },
            "Error creating x265enc",
            false,
        )
    );
    assert_eq!(steps[8], set(4, "bitrate", PropertyValue::U32(5000)));
    assert_eq!(steps[9], set(4, "key-int-max", PropertyValue::I32(250)));
    assert_eq!(steps[10], set(4, "option-string", PropertyValue::Str(String::new())));
    assert_eq!(steps[11], set(4, "speed-preset", PropertyValue::Parsed("ultrafast".to_string())));
    assert_eq!(steps[12], set(4, "tune", PropertyValue::Parsed("zerolatency".to_string())));
    assert_eq!(steps[13], create(5, "h265parse", "output_encoder_h265parse"));
    assert_eq!(steps.len(), 22);
}

#[test]
fn an_encoder_that_cannot_be_attached_fails_the_assembly() {
    for variant in [
        VideoEncoder::NVH264,
        VideoEncoder::NVH265,
        VideoEncoder::AV1(encoder::av1enc::Config::default()),
    ] {
        assert_eq!(
            GstPipeline::assemble(scenario(variant)).err(),
            Some(RecorderError::ElementError("Encoder not implemented".to_string()))
        );
    }
}

#[test]
fn a_fresh_pipeline_attaches_nothing() {
    let pipeline = GstPipeline::new(synthetic()).unwrap();
    assert_eq!(pipeline.steps().len(), 52);
    assert!(pipeline
        .steps()
        .iter()
        .all(|s| !matches!(s.command, EngineCommand::Add { .. } | EngineCommand::Link { .. })));
    assert_eq!(
        pipeline.teardown(52),
        vec![
            EngineCommand::SetState { state: EngineState::Null },
            EngineCommand::Remove { elements: vec![] },
        ]
    );
}

#[test]
fn stages_cannot_be_attached_twice() {
    let mut pipeline = GstPipeline::new(synthetic()).unwrap();
    assert_eq!(pipeline.link_pipelines(), Ok(()));
    let planned = pipeline.steps().len();
    assert_eq!(planned, 57);
    assert_eq!(
        pipeline.link_pipelines(),
        Err(RecorderError::ElementError("Error adding input elements to pipeline".to_string()))
    );
    assert_eq!(pipeline.steps().len(), planned);
}

#[test]
fn stages_cannot_be_connected_before_they_are_attached() {
    let mut pipeline = GstPipeline::new(synthetic()).unwrap();
    assert_eq!(
        pipeline.connect_pipelines(),
        Err(RecorderError::ElementError("Error linking Input to Codec: ".to_string()))
    );
    assert_eq!(pipeline.steps().len(), 52);
}

#[test]
fn detaching_takes_every_stage_out() {
    let mut pipeline = GstPipeline::assemble(synthetic()).unwrap();
    assert_eq!(pipeline.unlink_pipelines(), Ok(()));
    let steps = pipeline.steps();
    assert_eq!(steps.len(), 62);
    assert_eq!(
        steps[59],
        step(EngineCommand::Remove { elements: vec![0, 1] }, "Error unlinking input elements", false)
    );
    assert_eq!(
        steps[60],
        step(
            EngineCommand::Remove { elements: vec![3, 4, 5] },
            "Failed to remove elements from pipeline: ",
            true
        )
    );
    assert_eq!(
        steps[61],
        step(
            EngineCommand::Remove { elements: vec![6] },
            "Error removing output audio and video fakesink elements",
            false
        )
    );
    assert_eq!(
        pipeline.teardown(62),
        vec![
            EngineCommand::SetState { state: EngineState::Null },
            EngineCommand::Remove { elements: vec![] },
        ]
    );
}

#[test]
fn detaching_is_tried_for_every_stage() {
    let mut pipeline = GstPipeline::new(synthetic()).unwrap();
    assert_eq!(
        pipeline.unlink_pipelines(),
        Err(RecorderError::ElementError("Error unlinking input elements".to_string()))
    );
    assert_eq!(pipeline.steps().len(), 52);
}

#[test]
fn teardown_removes_what_the_engine_got_to() {
    let pipeline = GstPipeline::assemble(synthetic()).unwrap();
    let null = EngineCommand::SetState { state: EngineState::Null };
    let cases: Vec<(usize, Vec<usize>)> = vec![
        (0, vec![]),
        (51, vec![]),
        (52, vec![0, 1]),
        (53, vec![0, 1]),
        (54, vec![0, 1, 3, 4, 5]),
        (55, vec![0, 1, 3, 4, 5]),
        (56, vec![0, 1, 3, 4, 5, 6]),
        (57, vec![0, 1, 3, 4, 5, 6]),
        (59, vec![0, 1, 3, 4, 5, 6]),
        (1000, vec![0, 1, 3, 4, 5, 6]),
    ];
    for (executed, elements) in cases {
        assert_eq!(
            pipeline.teardown(executed),
            vec![null.clone(), EngineCommand::Remove { elements }]
        );
    }
}

#[test]
fn a_failed_step_becomes_its_element_error() {
    let pipeline = GstPipeline::assemble(synthetic()).unwrap();
    let fail = |index: usize| {
        pipeline.failure(&StepFailure { index, cause: "engine says no".to_string() })
    };
    assert_eq!(
        fail(0),
        RecorderError::ElementError(
            "Error creating input_input_videotestsrc videotestsrc".to_string()
        )
    );
    assert_eq!(fail(7), RecorderError::ElementError("Error creating x264enc".to_string()));
    assert_eq!(
        fail(54),
        RecorderError::ElementError("Failed to add elements to pipeline: engine says no".to_string())
    );
    assert_eq!(
        fail(57),
        RecorderError::ElementError("Error linking Input to Codec: engine says no".to_string())
    );
    assert_eq!(
        fail(58),
        RecorderError::ElementError("Error linking Codec to Output: engine says no".to_string())
    );
    assert_eq!(fail(59), RecorderError::AppError("no such step".to_string()));
}

#[test]
fn a_refused_state_change_is_a_state_error_that_names_the_target() {
    let pipeline = GstPipeline::assemble(synthetic()).unwrap();
    assert_eq!(pipeline.set_state(EngineState::Playing, Ok(())), Ok(()));
    assert_eq!(
        pipeline.set_state(EngineState::Playing, Err("busy".to_string())),
        Err(RecorderError::StateError(
            "Failed to transition pipeline state to Playing: busy".to_string()
        ))
    );
    assert_eq!(
        pipeline.set_state(EngineState::Null, Err(String::new())),
        Err(RecorderError::StateError("Failed to transition pipeline state to Null: ".to_string()))
    );
    assert_eq!(pipeline._get_state(), PipelineState::Stopped);
}

#[test]
fn the_plan_is_carried_out_step_by_step_until_one_fails() {
    let pipeline = GstPipeline::assemble(synthetic()).unwrap();
    assert_eq!(pipeline.after_step(0, Ok(())), Ok(Some(1)));
    assert_eq!(pipeline.after_step(57, Ok(())), Ok(Some(58)));
    assert_eq!(pipeline.after_step(58, Ok(())), Ok(None));
    assert_eq!(
        pipeline.after_step(7, Err("no such element factory".to_string())),
        Err(StepFailure { index: 7, cause: "no such element factory".to_string() })
    );
    assert_eq!(
        pipeline.after_step(58, Err(String::new())),
        Err(StepFailure { index: 58, cause: String::new() })
    );
}

#[test]
fn a_run_of_the_plan_ends_at_the_first_failure() {
    let pipeline = GstPipeline::assemble(synthetic()).unwrap();
    let mut carried_out = Vec::new();
    let mut next = Some(0);
    let mut failure = None;
    while let Some(index) = next {
        carried_out.push(index);
        let outcome = if index == 54 { Err("no room".to_string()) } else { Ok(()) };
        match pipeline.after_step(index, outcome) {
            Ok(following) => next = following,
            Err(failed) => {
                failure = Some(failed);
                next = None;
            }
        }
    }
    assert_eq!(carried_out, (0..=54).collect::<Vec<usize>>());
    let failure = failure.unwrap();
    assert_eq!(
        pipeline.failure(&failure),
        RecorderError::ElementError("Failed to add elements to pipeline: no room".to_string())
    );
    assert_eq!(
        pipeline.teardown(failure.index),
        vec![
            EngineCommand::SetState { state: EngineState::Null },
            EngineCommand::Remove { elements: vec![0, 1, 3, 4, 5] },
        ]
    );
}

#[test]
fn the_lifecycle_state_follows_what_is_observed() {
    let mut pipeline = GstPipeline::assemble(synthetic()).unwrap();
    assert_eq!(pipeline.observe(PipelineState::Playing), Ok(()));
    assert_eq!(pipeline._get_state(), PipelineState::Playing);
    assert_eq!(
        pipeline.observe(PipelineState::Playing),
        Err(RecorderError::AppError("invalid transition".to_string()))
    );
    assert_eq!(pipeline.observe(PipelineState::Error), Ok(()));
    assert_eq!(
        pipeline.observe(PipelineState::Stopped),
        Err(RecorderError::AppError("cannot leave Error state".to_string()))
    );
    assert_eq!(pipeline._get_state(), PipelineState::Error);
}

#[test]
fn a_file_sink_uses_the_selected_muxer() {
    let mut config = synthetic();
    config.output = output::Config {
        name: "file".to_string(),
        variant: output::Variant::FileSink(filesink::Config {
            muxer_config: output::muxer::Config::Mpeg4(output::muxer::Mp4Config::default()),
            location: "/tmp/a.mp4".to_string(),
            ..filesink::Config::default()
        }),
    };
    let pipeline = GstPipeline::assemble(config).unwrap();
    let steps = pipeline.steps();
    assert_eq!(steps[51], create(6, "queue", "output_file_video_queue"));
    assert_eq!(
        steps[52],
        step(EngineCommand::WatchOverrun { element: 6 }, "Error watching overruns", false)
    );
    assert_eq!(steps[53], create(7, "mp4mux", "mp4mux_output_muxer"));
    assert_eq!(steps[54], create(8, "filesink", "file_output_filesink"));
    assert_eq!(steps[55], set(8, "location", PropertyValue::Str("/tmp/a.mp4".to_string())));
    assert_eq!(
        steps[steps.len() - 1],
        step(EngineCommand::Link { from: 5, to: 6 }, "Error linking Codec to Output: ", true)
    );
}

#[test]
fn a_device_source_reads_the_configured_device() {
    let mut config = synthetic();
    config.input = input::Config {
        name: "camera".to_string(),
        variant: input::Variant::V4l2(v4l2::Config { device: "/dev/video7".to_string() }),
    };
    let pipeline = GstPipeline::assemble(config).unwrap();
    let steps = pipeline.steps();
    assert_eq!(steps[0], create(0, "v4l2src", "input_v4l2src_v4l2src"));
    assert_eq!(steps[1], set(0, "device", PropertyValue::Str("/dev/video7".to_string())));
    assert_eq!(steps[2], create(1, "queue", "input_v4l2src_video_queue"));
    assert_eq!(
        steps[3],
        step(EngineCommand::WatchOverrun { element: 1 }, "Error watching overruns", false)
    );
}
