//! The container formats a file sink can write, each with its settings.
use vstd::prelude::*;
use vstd::string::*;

verus! {

/// Which multiplexer packs the stream, and how it is set up.
#[derive(Clone, Debug, PartialEq, Eq)]
pub enum Config {
    Flv(FlvConfig),
    Mpeg4(Mp4Config),
    MpegTs(MpegTsConfig),
    Matroska(MatroskaConfig),
    Webm(WebmConfig),
}

impl Config {
    /// The element type of the selected multiplexer.
    pub open spec fn spec_name(self) -> Seq<char> {
        match self {
            Config::Flv(_) => "flvmux"@,
            Config::Mpeg4(_) => "mp4mux"@,
            Config::MpegTs(_) => "mpegtsmux"@,
            Config::Matroska(_) => "matroskamux"@,
            Config::Webm(_) => "webmmux"@,
        }
    }

    /// The element type of the selected multiplexer, which is also how the
    /// selection is printed.
    pub fn name(&self) -> (res: &'static str)
        ensures
            res@ == self.spec_name(),
    {
        match self {
            Config::Flv(_) => FlvConfig::name(),
            Config::Mpeg4(_) => Mp4Config::name(),
            Config::MpegTs(_) => MpegTsConfig::name(),
            Config::Matroska(_) => MatroskaConfig::name(),
            Config::Webm(_) => WebmConfig::name(),
        }
    }
}

impl Config {
    /// Every setting has the value it starts out with.
    pub open spec fn is_default(self) -> bool {
        &&& self matches Config::Matroska(c)
        &&& c.is_default()
    }
}

impl Default for Config {
    fn default() -> (res: Self)
        ensures
            res.is_default(),
    {
        Self::Matroska(MatroskaConfig::default())
    }
}

#[derive(Clone, Debug, PartialEq, Eq)]
pub struct Mp4Config {
    pub faststart: bool,
    pub faststart_file: String,
    pub force_chunks: bool,
    pub force_create_timecode_track: bool,
    pub fragment_duration: u32,
    pub fragment_mode: String,
    pub interleave_bytes: u64,
    pub interleave_time: u64,
    pub latency: u64,
    pub max_raw_audio_drift: u64,
    pub min_upstream_latency: u64,
    pub moov_recovery_file: String,
    pub movie_timescale: u32,
    pub presentation_time: bool,
    pub reserved_bytes_per_sec: u32,
    pub reserved_max_duration: u64,
    pub reserved_moov_update_period: u64,
    pub reserved_prefill: bool,
    pub start_gap_threshold: u64,
    pub start_time: u64,
    pub stgart_time_selection: String,
    pub streamable: bool,
    pub track_timescale: u32,
}

impl Mp4Config {
    /// Every setting has the value it starts out with.
    pub open spec fn is_default(self) -> bool {
        &&& !self.faststart
        &&& self.faststart_file@ == "/tmp/faststartfile"@
        &&& !self.force_chunks
        &&& !self.force_create_timecode_track
        &&& self.fragment_duration == 0
        &&& self.fragment_mode@ == "dash-or-mss"@
        &&& self.interleave_bytes == 0
        &&& self.interleave_time == 250000000
        &&& self.latency == 0
        &&& self.max_raw_audio_drift == 40000000
        &&& self.min_upstream_latency == 0
        &&& self.moov_recovery_file@ == ""@
        &&& self.movie_timescale == 0
        &&& self.presentation_time
        &&& self.reserved_bytes_per_sec == 550
        &&& self.reserved_max_duration == u64::MAX
        &&& self.reserved_moov_update_period == u64::MAX
        &&& !self.reserved_prefill
        &&& self.start_gap_threshold == 0
        &&& self.start_time == u64::MAX
        &&& self.stgart_time_selection@ == "zero"@
        &&& !self.streamable
        &&& self.track_timescale == 0
    }
}

impl Default for Mp4Config {
    fn default() -> (res: Self)
        ensures
            res.is_default(),
    {
        Self {
            faststart: false,
            faststart_file: String::from_str("/tmp/faststartfile"),
            force_chunks: false,
            force_create_timecode_track: false,
            fragment_duration: 0,
            fragment_mode: String::from_str("dash-or-mss"),
            interleave_bytes: 0,
            interleave_time: 250000000,
            latency: 0,
            max_raw_audio_drift: 40000000,
            min_upstream_latency: 0,
            moov_recovery_file: String::from_str(""),
            movie_timescale: 0,
            presentation_time: true,
            reserved_bytes_per_sec: 550,
            reserved_max_duration: 18446744073709551615,
            reserved_moov_update_period: 18446744073709551615,
            reserved_prefill: false,
            start_gap_threshold: 0,
            start_time: 18446744073709551615,
            stgart_time_selection: String::from_str("zero"),
            streamable: false,
            track_timescale: 0,
        }
    }
}

impl Mp4Config {
    pub fn name() -> (res: &'static str)
        ensures
            res@ == "mp4mux"@,
    {
        "mp4mux"
    }
}

#[derive(Clone, Debug, PartialEq, Eq)]
pub struct FlvConfig {
    pub latency: u64,
    pub start_time: u64,
    pub streamable: bool,
}

impl FlvConfig {
    /// Every setting has the value it starts out with.
    pub open spec fn is_default(self) -> bool {
        &&& self.latency == 0
        &&& self.start_time == 0
        &&& self.streamable
    }
}

impl Default for FlvConfig {
    fn default() -> (res: Self)
        ensures
            res.is_default(),
    {
        Self { latency: 0, start_time: 0, streamable: true }
    }
}

impl FlvConfig {
    pub fn name() -> (res: &'static str)
        ensures
            res@ == "flvmux"@,
    {
        "flvmux"
    }
}

#[derive(Clone, Debug, PartialEq, Eq)]
pub struct MpegTsConfig {
    pub alignment: i32,
    pub bitrate: u64,
    pub latency: u64,
    pub min_upstream_latency: u64,
}

impl MpegTsConfig {
    /// Every setting has the value it starts out with.
    pub open spec fn is_default(self) -> bool {
        &&& self.alignment == -1
        &&& self.bitrate == 0
        &&& self.latency == 0
        &&& self.min_upstream_latency == 0
    }
}

impl Default for MpegTsConfig {
    fn default() -> (res: Self)
        ensures
            res.is_default(),
    {
        Self { alignment: -1, bitrate: 0, latency: 0, min_upstream_latency: 0 }
    }
}

impl MpegTsConfig {
    pub fn name() -> (res: &'static str)
        ensures
            res@ == "mpegtsmux"@,
    {
        "mpegtsmux"
    }
}

#[derive(Clone, Debug, PartialEq, Eq)]
pub struct MatroskaConfig {
    pub streamable: bool,
}

impl MatroskaConfig {
    /// Every setting has the value it starts out with.
    pub open spec fn is_default(self) -> bool {
        &&& self.streamable
    }
}

impl Default for MatroskaConfig {
    fn default() -> (res: Self)
        ensures
            res.is_default(),
    {
        Self { streamable: true }
    }
}

impl MatroskaConfig {
    pub fn name() -> (res: &'static str)
        ensures
            res@ == "matroskamux"@,
    {
        "matroskamux"
    }
}

#[derive(Clone, Debug, PartialEq, Eq)]
pub struct WebmConfig {
    pub streamable: bool,
}

impl WebmConfig {
    /// Every setting has the value it starts out with.
    pub open spec fn is_default(self) -> bool {
        &&& self.streamable
    }
}

impl Default for WebmConfig {
    fn default() -> (res: Self)
        ensures
            res.is_default(),
    {
        Self { streamable: true }
    }
}

impl WebmConfig {
    pub fn name() -> (res: &'static str)
        ensures
            res@ == "webmmux"@,
    {
        "webmmux"
    }
}

} // verus!
