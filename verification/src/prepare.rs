//! The steps of preparing a source and of starting a session as the user
//! sees them: the events each step sends, with their detail lines, and the
//! checks between the steps.

use vstd::prelude::*;
use crate::diagnostics::{render_request, request_line_spec};
use crate::media::{MediaInfo, SeekSupport, SourceInspection};
use crate::probe::{json_probe_args, ProbeRunner};
use crate::diagnostics::command_line_spec;
use crate::progress::{LaunchStep, PrepareStep, ProgressEvent};
use crate::simulation::{SimulationRuntimeExt, SimulationScenario};
use crate::strings::{append_chars, append_decimal, append_str, decimal, string_chars, string_of};
use crate::ui::PrepareFailure;
use crate::url::{parsed_url_text, string_views, url_serialization};

verus! {

/// A source checked, inspected and probed: what preparing it found.
#[derive(Clone, Debug)]
pub struct PreparedSource {
    pub inspection: SourceInspection,
    pub media_info: MediaInfo,
}

impl PreparedSource {
    pub fn new(inspection: SourceInspection, media_info: MediaInfo) -> (r: Self)
        ensures
            r.inspection == inspection,
            r.media_info == media_info,
    {
        PreparedSource { inspection, media_info }
    }

    /// What the inspection of the source found.
    pub fn inspection(&self) -> (r: &SourceInspection)
        ensures
            *r == self.inspection,
    {
        &self.inspection
    }

    /// The tracks and duration the probe found.
    pub fn media_info(&self) -> (r: &MediaInfo)
        ensures
            *r == self.media_info,
    {
        &self.media_info
    }
}

/// The texts of an event's detail lines.
pub open spec fn event_ok<Step>(e: ProgressEvent<Step>, step: Step, started: bool, details: Seq<Seq<char>>) -> bool {
    if started {
        e matches ProgressEvent::Started { step: s, details: d } && s == step && string_views(d@) == details
    } else {
        e matches ProgressEvent::Finished { step: s } && s == step
    }
}

/// The first step: the URL the user gave, and the rule it must meet.
pub fn source_url_started(source_url: &str) -> (r: ProgressEvent<PrepareStep>)
    ensures
        event_ok(
            r,
            PrepareStep::SourceUrl,
            true,
            seq!["Input: "@ + source_url@, "Rule: a valid source URL is required"@],
        ),
{
    let mut input: Vec<char> = Vec::new();
    append_str(&mut input, "Input: ");
    append_str(&mut input, source_url);
    let mut details: Vec<String> = Vec::new();
    details.push(string_of(input.as_slice()));
    details.push("Rule: a valid source URL is required".to_owned());
    assert(string_views(details@) =~= seq![
        "Input: "@ + source_url@,
        "Rule: a valid source URL is required"@,
    ]);
    ProgressEvent::Started { step: PrepareStep::SourceUrl, details }
}

/// Checks the source URL: its serialization as `reqwest::Url` parses it,
/// or the invalid-URL failure when it does not parse.
pub fn check_source_url(source_url: &str) -> (r: Result<String, PrepareFailure>)
    ensures
        match r {
            Ok(s) => url_serialization(source_url@) == Some(s@),
            Err(f) => url_serialization(source_url@) is None && f == PrepareFailure::InvalidSourceUrl,
        },
{
    match parsed_url_text(source_url) {
        Some(s) => Ok(s),
        None => Err(PrepareFailure::InvalidSourceUrl),
    }
}

/// The second step: the two requests that check for byte ranges.
pub fn time_jumps_started(parsed_url: &str) -> (r: ProgressEvent<PrepareStep>)
    ensures
        event_ok(
            r,
            PrepareStep::TimeJumps,
            true,
            seq![
                request_line_spec("HEAD"@, parsed_url@, None),
                request_line_spec("GET"@, parsed_url@, Some("Range: bytes=0-0"@)),
            ],
        ),
{
    let mut details: Vec<String> = Vec::new();
    details.push(render_request("HEAD", parsed_url, None));
    details.push(render_request("GET", parsed_url, Some("Range: bytes=0-0")));
    assert(string_views(details@) =~= seq![
        request_line_spec("HEAD"@, parsed_url@, None),
        request_line_spec("GET"@, parsed_url@, Some("Range: bytes=0-0"@)),
    ]);
    ProgressEvent::Started { step: PrepareStep::TimeJumps, details }
}

/// How the second step ends: done when the source can jump, a warning with
/// the reason otherwise.
pub fn time_jumps_outcome(inspection: &SourceInspection) -> (r: ProgressEvent<PrepareStep>)
    ensures
        match inspection.seek_support {
            SeekSupport::Enabled => r == ProgressEvent::<PrepareStep>::Finished {
                step: PrepareStep::TimeJumps,
            },
            SeekSupport::Disabled { warning } => r matches ProgressEvent::Warned { step, details }
                && step == PrepareStep::TimeJumps && string_views(details@) == seq![warning@],
        },
{
    match &inspection.seek_support {
        SeekSupport::Enabled => ProgressEvent::Finished { step: PrepareStep::TimeJumps },
        SeekSupport::Disabled { warning } => {
            let mut details: Vec<String> = Vec::new();
            details.push(warning.clone());
            assert(string_views(details@) =~= seq![warning@]);
            ProgressEvent::Warned { step: PrepareStep::TimeJumps, details }
        },
    }
}

/// Each command line as a detail line.
pub open spec fn command_details(commands: Seq<Seq<char>>) -> Seq<Seq<char>> {
    Seq::new(commands.len(), |i: int| "Command: "@ + commands[i])
}

fn prefix_commands(commands: Vec<String>) -> (r: Vec<String>)
    ensures
        string_views(r@) == command_details(string_views(commands@)),
{
    let mut out: Vec<String> = Vec::new();
    let mut i: usize = 0;
    while i < commands.len()
        invariant
            i <= commands@.len(),
            string_views(out@) =~= command_details(string_views(commands@)).subrange(0, i as int),
        decreases commands@.len() - i,
    {
        let mut line: Vec<char> = Vec::new();
        append_str(&mut line, "Command: ");
        append_chars(&mut line, string_chars(&commands[i]).as_slice());
        let ghost before = string_views(out@);
        out.push(string_of(line.as_slice()));
        assert(string_views(out@) =~= before.push("Command: "@ + commands@[i as int]@));
        i = i + 1;
    }
    assert(command_details(string_views(commands@)).subrange(0, commands@.len() as int)
        =~= command_details(string_views(commands@)));
    out
}

/// The probe commands of the tracks step, as detail lines: the simulated
/// one in a simulation, ffprobe's otherwise.
pub fn render_probe_detail_lines(simulation: Option<SimulationScenario>, probe: &ProbeRunner, source_url: &str) -> (r:
    Vec<String>)
    ensures
        string_views(r@) == command_details(
            match simulation {
                Some(_) => seq!["simulate ffprobe --json "@ + source_url@],
                None => seq![command_line_spec(probe.binary@, json_probe_args(source_url@))],
            },
        ),
{
    match simulation {
        Some(s) => prefix_commands(s.render_probe_commands(source_url)),
        None => prefix_commands(probe.render_probe_commands(source_url)),
    }
}

/// The fourth step: finding the tracks, with the probe commands.
pub fn tracks_started(simulation: Option<SimulationScenario>, probe: &ProbeRunner, source_url: &str) -> (r:
    ProgressEvent<PrepareStep>)
    ensures
        event_ok(
            r,
            PrepareStep::Tracks,
            true,
            command_details(
                match simulation {
                    Some(_) => seq!["simulate ffprobe --json "@ + source_url@],
                    None => seq![command_line_spec(probe.binary@, json_probe_args(source_url@))],
                },
            ),
        ),
{
    ProgressEvent::Started {
        step: PrepareStep::Tracks,
        details: render_probe_detail_lines(simulation, probe, source_url),
    }
}

/// The first start-up step: the address the server binds.
pub fn server_started(port: u16) -> (r: ProgressEvent<LaunchStep>)
    ensures
        event_ok(
            r,
            LaunchStep::LocalStreamServer,
            true,
            seq!["Bind: http://127.0.0.1:"@ + decimal(port as nat)],
        ),
{
    let mut line: Vec<char> = Vec::new();
    append_str(&mut line, "Bind: http://127.0.0.1:");
    append_decimal(&mut line, port as u64);
    let mut details: Vec<String> = Vec::new();
    details.push(string_of(line.as_slice()));
    assert(string_views(details@) =~= seq!["Bind: http://127.0.0.1:"@ + decimal(port as nat)]);
    ProgressEvent::Started { step: LaunchStep::LocalStreamServer, details }
}

/// A start-up step that runs `command`, with the command as its detail.
pub fn command_step_started(step: LaunchStep, command: &str) -> (r: ProgressEvent<LaunchStep>)
    ensures
        event_ok(r, step, true, seq!["Command: "@ + command@]),
{
    let mut line: Vec<char> = Vec::new();
    append_str(&mut line, "Command: ");
    append_str(&mut line, command);
    let mut details: Vec<String> = Vec::new();
    details.push(string_of(line.as_slice()));
    assert(string_views(details@) =~= seq!["Command: "@ + command@]);
    ProgressEvent::Started { step, details }
}

} // verus!
