//! Built-in simulation scenarios that stand in for the network, ffmpeg and
//! QuickTime during tests and local development.

use vstd::prelude::*;
use crate::media::{
    AudioStream, MediaInfo, SeekSupport, SourceInspection, SourceMetadata, StreamSelection,
    VideoStream,
};
use crate::strings::{append_chars, append_decimal, append_str, decimal, string_chars, string_of};
use crate::timecode::{Timecode, hms_spec};
use crate::url::{parsed_path_segments, string_views, url_path_segments};

verus! {

/// Built-in simulation scenarios used for tests and local development.
#[derive(Clone, Copy, Debug, PartialEq, Eq, Structural)]
pub enum SimulationScenario {
    HappyPath,
    NoRanges,
    UiTour,
}

/// The command-line name of each scenario.
pub open spec fn scenario_label(s: SimulationScenario) -> Seq<char> {
    match s {
        SimulationScenario::HappyPath => "happy-path"@,
        SimulationScenario::NoRanges => "no-ranges"@,
        SimulationScenario::UiTour => "ui-tour"@,
    }
}

/// The last non-empty segment at position below `n`, if any.
pub open spec fn last_non_empty(segments: Seq<Seq<char>>, n: int) -> Option<Seq<char>>
    decreases n,
{
    if n <= 0 {
        None
    } else if segments[n - 1].len() > 0 {
        Some(segments[n - 1])
    } else {
        last_non_empty(segments, n - 1)
    }
}

/// The file name a simulated source reports: the last non-empty path segment
/// of the URL, or `simulation-source.mkv`.
pub open spec fn simulated_filename(url: Seq<char>) -> Seq<char> {
    match url_path_segments(url) {
        Some(segments) => match last_non_empty(segments, segments.len() as int) {
            Some(name) => name,
            None => "simulation-source.mkv"@,
        },
        None => "simulation-source.mkv"@,
    }
}

/// The file name a simulated source reports for `source_url`.
pub fn filename_from_url(source_url: &str) -> (r: String)
    ensures
        r@ == simulated_filename(source_url@),
{
    match parsed_path_segments(source_url) {
        Some(segments) => {
            let mut i: usize = segments.len();
            while i > 0
                invariant
                    i <= segments@.len(),
                    url_path_segments(source_url@) == Some(string_views(segments@)),
                    last_non_empty(string_views(segments@), segments@.len() as int)
                        == last_non_empty(string_views(segments@), i as int),
                decreases i,
            {
                if segments[i - 1].as_str().unicode_len() > 0 {
                    return segments[i - 1].clone();
                }
                i = i - 1;
            }
            "simulation-source.mkv".to_owned()
        },
        None => "simulation-source.mkv".to_owned(),
    }
}

/// The ` --audio N` part of a rendered command, when an audio track is chosen.
pub open spec fn audio_arg_spec(selection: StreamSelection) -> Seq<char> {
    match selection.audio {
        Some(a) => " --audio "@ + decimal(a.stream_index as nat),
        None => Seq::empty(),
    }
}

/// The simulated relay command.
pub open spec fn simulated_spawn_spec(source_url: Seq<char>, start_at: Timecode, selection: StreamSelection) -> Seq<char> {
    "simulate ffmpeg --source "@ + source_url + " --at "@ + hms_spec(start_at@) + " --video "@
        + decimal(selection.video.stream_index as nat) + audio_arg_spec(selection)
}

/// Runtime hooks of a simulation that render the commands it stands in for.
pub trait SimulationRuntimeExt {
    fn render_probe_commands(&self, source_url: &str) -> (r: Vec<String>)
        ensures
            string_views(r@) == seq!["simulate ffprobe --json "@ + source_url@],
    ;

    fn render_spawn_command(&self, source_url: &str, start_at: Timecode, selection: &StreamSelection) -> (r:
        String)
        ensures
            r@ == simulated_spawn_spec(source_url@, start_at, *selection),
    ;

    fn render_open_command(&self, stream_url: &str) -> (r: String)
        ensures
            r@ == "simulate quicktime open "@ + stream_url@,
    ;
}

/// The size every simulated source reports.
pub open spec fn simulated_size() -> u64 {
    1_377_078_272
}

impl SimulationScenario {
    pub fn label(&self) -> (r: &'static str)
        ensures
            r@ == scenario_label(*self),
    {
        match self {
            SimulationScenario::HappyPath => "happy-path",
            SimulationScenario::NoRanges => "no-ranges",
            SimulationScenario::UiTour => "ui-tour",
        }
    }

    /// What inspecting the source gives in this scenario: its file name from
    /// the URL, a fixed size, and seeking off only without range support.
    pub fn inspection(&self, source_url: &str) -> (r: SourceInspection)
        ensures
            r.metadata.filename@ == simulated_filename(source_url@),
            r.metadata.size_bytes == Some(simulated_size()),
            match *self {
                SimulationScenario::NoRanges => r.seek_support matches SeekSupport::Disabled {
                    warning,
                } && warning@
                    == "This source doesn't appear to support jumping to a different time."@,
                _ => r.seek_support == SeekSupport::Enabled,
            },
    {
        let name = filename_from_url(source_url);
        let metadata = SourceMetadata::new(name.as_str(), Some(1_377_078_272));
        let seek_support = match self {
            SimulationScenario::NoRanges => SeekSupport::Disabled {
                warning: "This source doesn't appear to support jumping to a different time.".to_owned(),
            },
            _ => SeekSupport::Enabled,
        };
        SourceInspection::new(metadata, seek_support)
    }

    /// The tracks every simulated source has: one H.264 video track and one
    /// AAC audio track, 24 minutes 12 seconds long.
    pub fn media_info(&self) -> (r: MediaInfo)
        ensures
            r.videos@.len() == 1,
            r.videos@[0].stream_index == 0,
            r.videos@[0].display_line@
                == "Stream #0:0: Video: h264 (High), yuv420p, 1920x1080 (default)"@,
            r.videos@[0].is_default,
            r.audios@.len() == 1,
            r.audios@[0].stream_index == 1,
            r.audios@[0].codec_name matches Some(c) && c@ == "aac"@,
            r.audios@[0].display_line@
                == "Stream #0:1(eng): Audio: aac, 48000 Hz, stereo, fltp, 160 kb/s (default)"@,
            r.audios@[0].is_default,
            r.duration == Some(Timecode { seconds: 1452 }),
    {
        let video = VideoStream::new(
            0,
            "Stream #0:0: Video: h264 (High), yuv420p, 1920x1080 (default)",
            true,
        );
        let audio = AudioStream::new(
            1,
            Some("aac".to_owned()),
            "Stream #0:1(eng): Audio: aac, 48000 Hz, stereo, fltp, 160 kb/s (default)",
            true,
        );
        let mut videos: Vec<VideoStream> = Vec::new();
        videos.push(video);
        let mut audios: Vec<AudioStream> = Vec::new();
        audios.push(audio);
        MediaInfo::new(videos, audios, Some(Timecode::from_seconds(1452)))
    }
}

impl SimulationRuntimeExt for SimulationScenario {
    fn render_probe_commands(&self, source_url: &str) -> (r: Vec<String>) {
        let mut line: Vec<char> = Vec::new();
        append_str(&mut line, "simulate ffprobe --json ");
        append_str(&mut line, source_url);
        let mut out: Vec<String> = Vec::new();
        out.push(string_of(line.as_slice()));
        assert(string_views(out@) =~= seq!["simulate ffprobe --json "@ + source_url@]);
        out
    }

    fn render_spawn_command(&self, source_url: &str, start_at: Timecode, selection: &StreamSelection) -> (r:
        String) {
        let mut line: Vec<char> = Vec::new();
        append_str(&mut line, "simulate ffmpeg --source ");
        append_str(&mut line, source_url);
        append_str(&mut line, " --at ");
        append_chars(&mut line, string_chars(&start_at.to_string()).as_slice());
        append_str(&mut line, " --video ");
        append_decimal(&mut line, selection.video.stream_index as u64);
        if let Some(a) = &selection.audio {
            append_str(&mut line, " --audio ");
            append_decimal(&mut line, a.stream_index as u64);
        }
        assert(line@ =~= simulated_spawn_spec(source_url@, start_at, *selection));
        string_of(line.as_slice())
    }

    fn render_open_command(&self, stream_url: &str) -> (r: String) {
        let mut line: Vec<char> = Vec::new();
        append_str(&mut line, "simulate quicktime open ");
        append_str(&mut line, stream_url);
        string_of(line.as_slice())
    }
}

} // verus!
