//! The state of the interactive front-end: its screens, their progress
//! blocks, the prompt editors and the activity history.

use vstd::prelude::*;
use crate::editor::{byte_len, delete_before, insert_at, is_boundary, next_boundary_spec, next_char_boundary, previous_boundary_spec, previous_char_boundary};
use crate::media::{
    MediaInfo, SeekSupport, SourceInspection, StreamSelection, TrackSelectionRequest,
    audio_notice_spec,
};
use crate::playback::{PlaybackMode, PlaybackSnapshot};
use crate::progress::{JumpStep, LaunchStep, PrepareStep};
use crate::simulation::SimulationScenario;
use crate::strings::{
    append_chars, append_str, chars_of, chars_eq_str, has_prefix, lines_of, lines_spec, opt_view,
    slice_chars, starts_with, string_chars, string_of, trim, trim_chars, trim_spec, vec_views,
};
use crate::text::{format_warning, status_text, status_text_spec};
use crate::command::CommandParseError;
use crate::media::{TrackSelectionError, build_selection_spec, format_bytes_spec};
use crate::timecode::Timecode;

verus! {

/// Where a workflow step stands.
#[derive(Clone, Copy, Debug, PartialEq, Eq, Structural)]
pub enum ProgressStatus {
    Pending,
    Active,
    Done,
    Warn,
}

/// A workflow step that can be compared with another one of its kind.
pub trait StepKind: Copy {
    fn same_step(&self, other: &Self) -> (r: bool)
        ensures
            r == (*self == *other),
    ;
}

impl StepKind for PrepareStep {
    fn same_step(&self, other: &Self) -> (r: bool) {
        *self == *other
    }
}

impl StepKind for LaunchStep {
    fn same_step(&self, other: &Self) -> (r: bool) {
        *self == *other
    }
}

impl StepKind for JumpStep {
    fn same_step(&self, other: &Self) -> (r: bool) {
        *self == *other
    }
}

/// One step of a progress block, with the details shown under it.
#[derive(Clone, Debug)]
pub struct ProgressLine<Step> {
    pub step: Step,
    pub status: ProgressStatus,
    pub details: Vec<String>,
}

/// A titled block of workflow steps and its spinner frame.
#[derive(Clone, Debug)]
pub struct ProgressModel<Step> {
    pub title: String,
    pub lines: Vec<ProgressLine<Step>>,
    pub frame_index: usize,
}

/// The position of the first line for `step` at `i` or later, or -1.
pub open spec fn step_position<Step>(lines: Seq<ProgressLine<Step>>, step: Step, i: int) -> int
    decreases lines.len() - i,
{
    if i < 0 || i >= lines.len() {
        -1
    } else if lines[i].step == step {
        i
    } else {
        step_position(lines, step, i + 1)
    }
}

proof fn lemma_step_position_range<Step>(lines: Seq<ProgressLine<Step>>, step: Step, i: int)
    requires
        0 <= i,
    ensures
        step_position(lines, step, i) == -1 || (i <= step_position(lines, step, i) < lines.len()
            && lines[step_position(lines, step, i)].step == step),
    decreases lines.len() - i,
{
    if i < lines.len() && lines[i].step != step {
        lemma_step_position_range(lines, step, i + 1);
    }
}

/// Whether any line is active.
pub open spec fn any_active<Step>(lines: Seq<ProgressLine<Step>>) -> bool {
    exists|i: int| 0 <= i < lines.len() && (#[trigger] lines[i]).status == ProgressStatus::Active
}

/// Replaces the status and details of line `i`.
fn set_line<Step>(lines: &mut Vec<ProgressLine<Step>>, i: usize, status: ProgressStatus, details: Vec<String>)
    requires
        i < old(lines)@.len(),
    ensures
        final(lines)@.len() == old(lines)@.len(),
        final(lines)@[i as int].step == old(lines)@[i as int].step,
        final(lines)@[i as int].status == status,
        final(lines)@[i as int].details == details,
        forall|j: int| 0 <= j < final(lines)@.len() && j != i ==> #[trigger] final(lines)@[j] == old(lines)@[j],
{
    let old_line = lines.remove(i);
    lines.insert(i, ProgressLine { step: old_line.step, status, details });
}

impl<Step: StepKind> ProgressModel<Step> {
    /// A block titled `title` with every step pending.
    pub fn new(title: &str, steps: &[Step]) -> (r: Self)
        ensures
            r.title@ == title@,
            r.frame_index == 0,
            r.lines@.len() == steps@.len(),
            forall|i: int|
                0 <= i < steps@.len() ==> (#[trigger] r.lines@[i]).step == steps@[i]
                    && r.lines@[i].status == ProgressStatus::Pending && r.lines@[i].details@.len()
                    == 0,
    {
        let mut lines: Vec<ProgressLine<Step>> = Vec::new();
        let mut i: usize = 0;
        while i < steps.len()
            invariant
                i <= steps@.len(),
                lines@.len() == i,
                forall|j: int|
                    0 <= j < i ==> (#[trigger] lines@[j]).step == steps@[j] && lines@[j].status
                        == ProgressStatus::Pending && lines@[j].details@.len() == 0,
            decreases steps@.len() - i,
        {
            lines.push(ProgressLine { step: steps[i], status: ProgressStatus::Pending, details: Vec::new() });
            i = i + 1;
        }
        ProgressModel { title: title.to_owned(), lines, frame_index: 0 }
    }

    /// The position of the first line for `step`.
    fn position(&self, step: Step) -> (r: Option<usize>)
        ensures
            match r {
                Some(i) => i == step_position(self.lines@, step, 0) && i < self.lines@.len(),
                None => step_position(self.lines@, step, 0) == -1,
            },
    {
        let mut i: usize = 0;
        while i < self.lines.len()
            invariant
                i <= self.lines@.len(),
                step_position(self.lines@, step, 0) == step_position(self.lines@, step, i as int),
            decreases self.lines@.len() - i,
        {
            if self.lines[i].step.same_step(&step) {
                return Some(i);
            }
            i = i + 1;
        }
        None
    }

    /// Starts `step`: any other active step goes back to pending without
    /// details, and the first line for `step` becomes active with `details`.
    pub fn start(&mut self, step: Step, details: Vec<String>)
        ensures
            final(self).title == old(self).title,
            final(self).frame_index == old(self).frame_index,
            final(self).lines@.len() == old(self).lines@.len(),
            forall|j: int|
                0 <= j < old(self).lines@.len() ==> {
                    let o = old(self).lines@[j];
                    let n = #[trigger] final(self).lines@[j];
                    &&& n.step == o.step
                    &&& j == step_position(old(self).lines@, step, 0) ==> n.status
                        == ProgressStatus::Active && n.details == details
                    &&& j != step_position(old(self).lines@, step, 0) && o.status
                        == ProgressStatus::Active ==> n.status == ProgressStatus::Pending
                        && n.details@.len() == 0
                    &&& j != step_position(old(self).lines@, step, 0) && o.status
                        != ProgressStatus::Active ==> n == o
                },
    {
        let target = self.position(step);
        let ghost t = step_position(old(self).lines@, step, 0);
        let mut i: usize = 0;
        while i < self.lines.len()
            invariant
                i <= self.lines@.len(),
                self.lines@.len() == old(self).lines@.len(),
                self.title == old(self).title,
                self.frame_index == old(self).frame_index,
                forall|j: int|
                    0 <= j < old(self).lines@.len() ==> (#[trigger] self.lines@[j]).step
                        == old(self).lines@[j].step,
                forall|j: int|
                    0 <= j < i ==> (old(self).lines@[j].status == ProgressStatus::Active ==> (
                    #[trigger] self.lines@[j]).status == ProgressStatus::Pending
                        && self.lines@[j].details@.len() == 0),
                forall|j: int|
                    0 <= j < old(self).lines@.len() && (j >= i || old(self).lines@[j].status
                        != ProgressStatus::Active) ==> #[trigger] self.lines@[j] == old(
                        self,
                    ).lines@[j],
            decreases self.lines@.len() - i,
        {
            if self.lines[i].status == ProgressStatus::Active {
                set_line(&mut self.lines, i, ProgressStatus::Pending, Vec::new());
            }
            i = i + 1;
        }
        if let Some(t_index) = target {
            set_line(&mut self.lines, t_index, ProgressStatus::Active, details);
        }
    }

    /// Marks the first line for `step` done, without details.
    pub fn finish(&mut self, step: Step)
        ensures
            final(self).title == old(self).title,
            final(self).frame_index == old(self).frame_index,
            final(self).lines@.len() == old(self).lines@.len(),
            forall|j: int|
                0 <= j < old(self).lines@.len() ==> {
                    let o = old(self).lines@[j];
                    let n = #[trigger] final(self).lines@[j];
                    &&& j == step_position(old(self).lines@, step, 0) ==> n.step == o.step
                        && n.status == ProgressStatus::Done && n.details@.len() == 0
                    &&& j != step_position(old(self).lines@, step, 0) ==> n == o
                },
    {
        if let Some(i) = self.position(step) {
            set_line(&mut self.lines, i, ProgressStatus::Done, Vec::new());
        }
    }

    /// Marks the first line for `step` as warned, with `details`.
    pub fn warn(&mut self, step: Step, details: Vec<String>)
        ensures
            final(self).title == old(self).title,
            final(self).frame_index == old(self).frame_index,
            final(self).lines@.len() == old(self).lines@.len(),
            forall|j: int|
                0 <= j < old(self).lines@.len() ==> {
                    let o = old(self).lines@[j];
                    let n = #[trigger] final(self).lines@[j];
                    &&& j == step_position(old(self).lines@, step, 0) ==> n.step == o.step
                        && n.status == ProgressStatus::Warn && n.details == details
                    &&& j != step_position(old(self).lines@, step, 0) ==> n == o
                },
    {
        if let Some(i) = self.position(step) {
            set_line(&mut self.lines, i, ProgressStatus::Warn, details);
        }
    }

    /// Advances the spinner while a step is active; says whether it moved.
    pub fn tick(&mut self) -> (r: bool)
        ensures
            r == any_active(old(self).lines@),
            final(self).lines == old(self).lines,
            final(self).title == old(self).title,
            final(self).frame_index == (if r {
                (old(self).frame_index + 1) % 10
            } else {
                old(self).frame_index as int
            }),
    {
        let mut i: usize = 0;
        let mut active = false;
        while i < self.lines.len()
            invariant
                i <= self.lines@.len(),
                active == exists|j: int|
                    0 <= j < i && (#[trigger] self.lines@[j]).status == ProgressStatus::Active,
            decreases self.lines@.len() - i,
        {
            if self.lines[i].status == ProgressStatus::Active {
                active = true;
            }
            i = i + 1;
        }
        if active {
            let f = self.frame_index;
            self.frame_index = (f % 10 + 1) % 10;
            assert((f % 10 + 1) % 10 == (f + 1) % 10) by (nonlinear_arith);
        }
        active
    }
}


/// How an activity line is styled.
#[derive(Clone, Copy, Debug, PartialEq, Eq, Structural)]
pub enum HistoryTone {
    Command,
    Success,
    Info,
    Warning,
    Muted,
}

/// One line of the activity history.
#[derive(Clone, Debug, PartialEq, Eq)]
pub struct HistoryEntry {
    pub prefix: String,
    pub text: String,
    pub tone: HistoryTone,
}

/// The most activity lines a running session keeps.
pub open spec fn max_activity_entries() -> nat {
    200
}

/// An activity line as text: its prefix, its text and its tone.
pub open spec fn entry_view(e: HistoryEntry) -> (Seq<char>, Seq<char>, HistoryTone) {
    (e.prefix@, e.text@, e.tone)
}

/// The activity lines as text.
pub open spec fn history_view(h: Seq<HistoryEntry>) -> Seq<(Seq<char>, Seq<char>, HistoryTone)> {
    Seq::new(h.len(), |i: int| entry_view(h[i]))
}

/// The activity lines of `text`: the first under `prefix`, the others under
/// `·`, all in `tone`; an empty text gives one empty line.
pub open spec fn text_entries(prefix: Seq<char>, text: Seq<char>, tone: HistoryTone) -> Seq<
    (Seq<char>, Seq<char>, HistoryTone),
> {
    let ls = if text.len() == 0 {
        seq![Seq::<char>::empty()]
    } else {
        lines_spec(text)
    };
    Seq::new(
        ls.len(),
        |j: int|
            (
                if j == 0 {
                    prefix
                } else {
                    "·"@
                },
                ls[j],
                tone,
            ),
    )
}

/// Appends the lines of `text` to the history.
pub fn push_history_lines(history: &mut Vec<HistoryEntry>, prefix: &str, text: &str, tone: HistoryTone)
    ensures
        history_view(final(history)@) == history_view(old(history)@) + text_entries(prefix@, text@, tone),
{
    let ghost before = history@;
    if text.unicode_len() == 0 {
        history.push(HistoryEntry { prefix: prefix.to_owned(), text: String::new(), tone });
        assert(history_view(history@) =~= history_view(before) + text_entries(prefix@, text@, tone));
        return;
    }
    let lines = lines_of(text);
    let ghost ls = lines_spec(text@);
    let mut i: usize = 0;
    while i < lines.len()
        invariant
            i <= lines@.len(),
            vec_views(lines@) == ls,
            ls == lines_spec(text@),
            text@.len() > 0,
            history@.len() == before.len() + i,
            forall|k: int| 0 <= k < before.len() ==> #[trigger] history@[k] == before[k],
            forall|j: int|
                0 <= j < i ==> {
                    let e = #[trigger] history@[before.len() + j];
                    &&& e.prefix@ == (if j == 0 {
                        prefix@
                    } else {
                        "·"@
                    })
                    &&& e.text@ == ls[j]
                    &&& e.tone == tone
                },
        decreases lines@.len() - i,
    {
        let p = if i == 0 {
            prefix.to_owned()
        } else {
            "·".to_owned()
        };
        assert(lines@[i as int]@ == ls[i as int]);
        history.push(HistoryEntry { prefix: p, text: string_of(lines[i].as_slice()), tone });
        i = i + 1;
    }
    let ghost want = history_view(before) + text_entries(prefix@, text@, tone);
    assert forall|k: int| 0 <= k < want.len() implies #[trigger] history_view(history@)[k] == want[k] by {
        if k >= before.len() {
            let j = k - before.len();
            assert(history@[before.len() + j] == history@[k]);
        }
    }
    assert(history_view(history@) =~= want);
}

/// The spinner marker, or the symbol of a finished state.
pub open spec fn status_marker_spec(status: ProgressStatus, frame: nat) -> Seq<char> {
    match status {
        ProgressStatus::Done => "✓"@,
        ProgressStatus::Active => crate::terminal::frame_spec(frame),
        ProgressStatus::Pending => "·"@,
        ProgressStatus::Warn => "!"@,
    }
}

/// The marker of a step in the history.
pub fn progress_marker_for_status(status: ProgressStatus, frame_index: usize) -> (r: &'static str)
    ensures
        r@ == status_marker_spec(status, frame_index as nat),
{
    match status {
        ProgressStatus::Done => "✓",
        ProgressStatus::Active => crate::terminal::active_frame(frame_index),
        ProgressStatus::Pending => "·",
        ProgressStatus::Warn => "!",
    }
}

/// The history label of a preparation step in each state.
pub open spec fn prepare_label_spec(step: PrepareStep, status: ProgressStatus) -> Seq<char> {
    match step {
        PrepareStep::SourceUrl => match status {
            ProgressStatus::Pending => "Source URL"@,
            ProgressStatus::Active => "Checking source URL"@,
            _ => "Checked source URL"@,
        },
        PrepareStep::TimeJumps => match status {
            ProgressStatus::Pending => "Time jumps"@,
            ProgressStatus::Active => "Checking whether time jumps are available"@,
            ProgressStatus::Done => "Time jumps are available"@,
            ProgressStatus::Warn => "Time jumps aren't available"@,
        },
        PrepareStep::SourceDetails => match status {
            ProgressStatus::Active => "Reading source details"@,
            _ => "Read source details"@,
        },
        PrepareStep::Tracks => match status {
            ProgressStatus::Active => "Finding video and audio tracks"@,
            _ => "Found video and audio tracks"@,
        },
    }
}

/// The history label of a preparation step.
pub fn prepare_history_label(step: PrepareStep, status: ProgressStatus) -> (r: &'static str)
    ensures
        r@ == prepare_label_spec(step, status),
{
    match step {
        PrepareStep::SourceUrl => match status {
            ProgressStatus::Pending => "Source URL",
            ProgressStatus::Active => "Checking source URL",
            _ => "Checked source URL",
        },
        PrepareStep::TimeJumps => match status {
            ProgressStatus::Pending => "Time jumps",
            ProgressStatus::Active => "Checking whether time jumps are available",
            ProgressStatus::Done => "Time jumps are available",
            ProgressStatus::Warn => "Time jumps aren't available",
        },
        PrepareStep::SourceDetails => match status {
            ProgressStatus::Active => "Reading source details",
            _ => "Read source details",
        },
        PrepareStep::Tracks => match status {
            ProgressStatus::Active => "Finding video and audio tracks",
            _ => "Found video and audio tracks",
        },
    }
}

/// The history label of a launch step in each state.
pub open spec fn launch_label_spec(step: LaunchStep, status: ProgressStatus) -> Seq<char> {
    match step {
        LaunchStep::LocalStreamServer => match status {
            ProgressStatus::Pending => "Local stream server"@,
            ProgressStatus::Active => "Starting local stream server"@,
            _ => "Started local stream server"@,
        },
        LaunchStep::Relay => match status {
            ProgressStatus::Pending => "ffmpeg relay"@,
            ProgressStatus::Active => "Starting ffmpeg relay"@,
            _ => "Started ffmpeg relay"@,
        },
        LaunchStep::Player => match status {
            ProgressStatus::Pending => "QuickTime Player"@,
            ProgressStatus::Active => "Opening QuickTime Player"@,
            _ => "Opened QuickTime Player"@,
        },
    }
}

/// The history label of a launch step.
pub fn launch_history_label(step: LaunchStep, status: ProgressStatus) -> (r: &'static str)
    ensures
        r@ == launch_label_spec(step, status),
{
    match step {
        LaunchStep::LocalStreamServer => match status {
            ProgressStatus::Pending => "Local stream server",
            ProgressStatus::Active => "Starting local stream server",
            _ => "Started local stream server",
        },
        LaunchStep::Relay => match status {
            ProgressStatus::Pending => "ffmpeg relay",
            ProgressStatus::Active => "Starting ffmpeg relay",
            _ => "Started ffmpeg relay",
        },
        LaunchStep::Player => match status {
            ProgressStatus::Pending => "QuickTime Player",
            ProgressStatus::Active => "Opening QuickTime Player",
            _ => "Opened QuickTime Player",
        },
    }
}

/// The tone of a step in the history.
pub open spec fn status_tone(status: ProgressStatus) -> HistoryTone {
    match status {
        ProgressStatus::Warn => HistoryTone::Warning,
        ProgressStatus::Pending => HistoryTone::Muted,
        ProgressStatus::Active => HistoryTone::Info,
        ProgressStatus::Done => HistoryTone::Success,
    }
}

fn tone_of(status: ProgressStatus) -> (r: HistoryTone)
    ensures
        r == status_tone(status),
{
    match status {
        ProgressStatus::Warn => HistoryTone::Warning,
        ProgressStatus::Pending => HistoryTone::Muted,
        ProgressStatus::Active => HistoryTone::Info,
        ProgressStatus::Done => HistoryTone::Success,
    }
}

/// The preparation steps as history lines.
pub fn prepare_history(progress: &ProgressModel<PrepareStep>) -> (r: Vec<HistoryEntry>)
    ensures
        r@.len() == progress.lines@.len(),
        forall|i: int|
            0 <= i < r@.len() ==> {
                let l = progress.lines@[i];
                &&& (#[trigger] r@[i]).prefix@ == status_marker_spec(l.status, progress.frame_index as nat)
                &&& r@[i].text@ == prepare_label_spec(l.step, l.status)
                &&& r@[i].tone == status_tone(l.status)
            },
{
    let mut out: Vec<HistoryEntry> = Vec::new();
    let mut i: usize = 0;
    while i < progress.lines.len()
        invariant
            i <= progress.lines@.len(),
            out@.len() == i,
            forall|k: int|
                0 <= k < i ==> {
                    let l = progress.lines@[k];
                    &&& (#[trigger] out@[k]).prefix@ == status_marker_spec(l.status, progress.frame_index as nat)
                    &&& out@[k].text@ == prepare_label_spec(l.step, l.status)
                    &&& out@[k].tone == status_tone(l.status)
                },
        decreases progress.lines@.len() - i,
    {
        let l = &progress.lines[i];
        out.push(
            HistoryEntry {
                prefix: progress_marker_for_status(l.status, progress.frame_index).to_owned(),
                text: prepare_history_label(l.step, l.status).to_owned(),
                tone: tone_of(l.status),
            },
        );
        i = i + 1;
    }
    out
}

/// The launch steps as history lines.
pub fn launch_history(progress: &ProgressModel<LaunchStep>) -> (r: Vec<HistoryEntry>)
    ensures
        r@.len() == progress.lines@.len(),
        forall|i: int|
            0 <= i < r@.len() ==> {
                let l = progress.lines@[i];
                &&& (#[trigger] r@[i]).prefix@ == status_marker_spec(l.status, progress.frame_index as nat)
                &&& r@[i].text@ == launch_label_spec(l.step, l.status)
                &&& r@[i].tone == status_tone(l.status)
            },
{
    let mut out: Vec<HistoryEntry> = Vec::new();
    let mut i: usize = 0;
    while i < progress.lines.len()
        invariant
            i <= progress.lines@.len(),
            out@.len() == i,
            forall|k: int|
                0 <= k < i ==> {
                    let l = progress.lines@[k];
                    &&& (#[trigger] out@[k]).prefix@ == status_marker_spec(l.status, progress.frame_index as nat)
                    &&& out@[k].text@ == launch_label_spec(l.step, l.status)
                    &&& out@[k].tone == status_tone(l.status)
                },
        decreases progress.lines@.len() - i,
    {
        let l = &progress.lines[i];
        out.push(
            HistoryEntry {
                prefix: progress_marker_for_status(l.status, progress.frame_index).to_owned(),
                text: launch_history_label(l.step, l.status).to_owned(),
                tone: tone_of(l.status),
            },
        );
        i = i + 1;
    }
    out
}

/// `current` moved by `delta` and kept within `0..len`; 0 for an empty list.
pub open spec fn shift_index_spec(current: usize, len: usize, delta: isize) -> int {
    if len == 0 {
        0
    } else {
        let next = current + delta;
        if next < 0 {
            0
        } else if next > len - 1 {
            len - 1
        } else {
            next
        }
    }
}

/// `current` moved by `delta` within `0..len`.
pub fn shift_index(current: usize, len: usize, delta: isize) -> (r: usize)
    ensures
        r == shift_index_spec(current, len, delta),
{
    if len == 0 {
        return 0;
    }
    let next: i128 = current as i128 + delta as i128;
    if next < 0 {
        0
    } else if next > (len - 1) as i128 {
        len - 1
    } else {
        next as usize
    }
}

/// The details a progress block shows: all when verbose, none otherwise.
pub fn filter_details(verbose: bool, details: Vec<String>) -> (r: Vec<String>)
    ensures
        verbose ==> r == details,
        !verbose ==> r@.len() == 0,
{
    if verbose {
        details
    } else {
        Vec::new()
    }
}

/// Which list of tracks the arrow keys move through.
#[derive(Clone, Copy, Debug, PartialEq, Eq, Structural)]
pub enum SelectionFocus {
    Video,
    Audio,
}

/// The track choice screen: what is offered, what is focused and chosen.
#[derive(Clone, Debug)]
pub struct TrackSelectionState {
    pub request: TrackSelectionRequest,
    pub focus: SelectionFocus,
    pub video_index: usize,
    pub audio_index: Option<usize>,
}

/// The launcher: the URL editor, its caret (a byte offset), the history of
/// what was entered, and whether help is shown.
#[derive(Clone, Debug)]
pub struct LauncherState {
    pub input: String,
    pub cursor: usize,
    pub history: Vec<HistoryEntry>,
    pub help_open: bool,
}

impl LauncherState {
    pub fn new() -> (r: Self)
        ensures
            r.input@.len() == 0,
            r.cursor == 0,
            r.history@.len() == 0,
            !r.help_open,
    {
        LauncherState { input: String::new(), cursor: 0, history: Vec::new(), help_open: false }
    }
}

/// What went wrong while preparing a source, as far as the front-end tells
/// the cases apart.
#[derive(Clone, Copy, Debug, PartialEq, Eq, Structural)]
pub enum PrepareFailure {
    InvalidSourceUrl,
    FfprobeUnavailable,
    ExecuteBinary,
    FfprobeFailed,
    MediaInfoParse,
    Other,
}

/// Whether the user can fix the source and try again after this failure.
pub fn is_recoverable_prepare_error(failure: PrepareFailure) -> (r: bool)
    ensures
        r == !(failure is Other),
{
    match failure {
        PrepareFailure::Other => false,
        _ => true,
    }
}

/// The actionable summary shown for each failure.
pub open spec fn failure_summary(f: PrepareFailure) -> Seq<char> {
    match f {
        PrepareFailure::InvalidSourceUrl => "Enter a full URL that starts with http:// or https://."@,
        PrepareFailure::FfprobeUnavailable => "Install ffprobe, then try again."@,
        PrepareFailure::ExecuteBinary => "Unable to start ffprobe. Check its path, then try again."@,
        PrepareFailure::FfprobeFailed =>
            "Unable to inspect this source. Check the URL and access, then try again."@,
        PrepareFailure::MediaInfoParse =>
            "Unable to read this source's media details. Try another source."@,
        PrepareFailure::Other => "Unable to inspect this source. Check the URL, then try again."@,
    }
}

/// The screen shown when a source could not be prepared.
#[derive(Clone, Debug)]
pub struct SourceErrorState {
    pub attempted_url: String,
    pub summary: String,
    pub diagnostic: String,
    pub input: String,
    pub editing: bool,
}

impl SourceErrorState {
    /// The error screen for a failed preparation, with the error's own text
    /// as the diagnostic.
    pub fn from_runtime(attempted_url: String, failure: PrepareFailure, diagnostic: String) -> (r: Self)
        ensures
            r.attempted_url == attempted_url,
            r.input@ == attempted_url@,
            r.summary@ == failure_summary(failure),
            r.diagnostic == diagnostic,
            !r.editing,
    {
        let summary = match failure {
            PrepareFailure::InvalidSourceUrl => "Enter a full URL that starts with http:// or https://.",
            PrepareFailure::FfprobeUnavailable => "Install ffprobe, then try again.",
            PrepareFailure::ExecuteBinary => "Unable to start ffprobe. Check its path, then try again.",
            PrepareFailure::FfprobeFailed =>
                "Unable to inspect this source. Check the URL and access, then try again.",
            PrepareFailure::MediaInfoParse =>
                "Unable to read this source's media details. Try another source.",
            PrepareFailure::Other => "Unable to inspect this source. Check the URL, then try again.",
        };
        SourceErrorState {
            input: attempted_url.clone(),
            attempted_url,
            summary: summary.to_owned(),
            diagnostic,
            editing: false,
        }
    }

    /// The error screen for a source without a supported video track.
    pub fn no_video(attempted_url: String) -> (r: Self)
        ensures
            r.attempted_url == attempted_url,
            r.input@ == attempted_url@,
            r.summary@ == "No supported video track was found."@,
            r.diagnostic@ == "Choose a source with a supported video track, then try again."@,
            !r.editing,
    {
        SourceErrorState {
            input: attempted_url.clone(),
            attempted_url,
            summary: "No supported video track was found.".to_owned(),
            diagnostic: "Choose a source with a supported video track, then try again.".to_owned(),
            editing: false,
        }
    }
}

/// The start time the user asked for and the one playback used.
#[derive(Clone, Copy, Debug, PartialEq, Eq, Structural)]
pub struct StartupContext {
    pub requested_start_at: Timecode,
    pub actual_start_at: Timecode,
}

/// The screen of a running session.
#[derive(Clone, Debug)]
pub struct RunningState {
    pub source_url: String,
    pub playback_mode: PlaybackMode,
    pub selection: StreamSelection,
    pub inspection: SourceInspection,
    pub media_info: MediaInfo,
    pub snapshot: PlaybackSnapshot,
    pub input: String,
    pub input_cursor: usize,
    pub jump_progress: Option<ProgressModel<JumpStep>>,
    pub prepare_history: Vec<HistoryEntry>,
    pub startup_history: Vec<HistoryEntry>,
    pub history: Vec<HistoryEntry>,
    pub details: Option<String>,
    pub activity_scroll: usize,
    pub player_action_error: Option<String>,
    pub help_open: bool,
}

/// A scroll position kept within a list of `len` lines.
pub open spec fn clamped_scroll(scroll: usize, len: nat) -> int {
    let last: int = if len > 0 {
        len - 1
    } else {
        0
    };
    if scroll > last {
        last
    } else {
        scroll as int
    }
}

/// The warning shown when playback had to start from the beginning.
pub open spec fn restart_warning() -> Seq<char> {
    "Started from the beginning because this source doesn't support jumping to a different time."@
}

/// The history a running session opens with.
/// The notice shown when playback starts from the beginning although
/// another start was asked for, because the source cannot jump.
pub fn restart_notice(startup: &StartupContext) -> (r: Option<&'static str>)
    ensures
        match r {
            Some(t) => t@ == restart_warning() && startup.requested_start_at.seconds != 0
                && startup.actual_start_at.seconds == 0,
            None => !(startup.requested_start_at.seconds != 0 && startup.actual_start_at.seconds == 0),
        },
{
    if startup.requested_start_at.seconds != 0 && startup.actual_start_at.seconds == 0 {
        Some("Started from the beginning because this source doesn't support jumping to a different time.")
    } else {
        None
    }
}

pub open spec fn opening_history(startup: StartupContext, seek: SeekSupport, selection: StreamSelection) -> Seq<
    (Seq<char>, Seq<char>, HistoryTone),
> {
    (if startup.requested_start_at.seconds != 0 && startup.actual_start_at.seconds == 0 {
        text_entries("!"@, restart_warning(), HistoryTone::Warning)
    } else {
        Seq::empty()
    }) + match seek {
        SeekSupport::Disabled { warning } => text_entries(
            "!"@,
            "[WARN] "@ + warning@,
            HistoryTone::Warning,
        ),
        SeekSupport::Enabled => Seq::empty(),
    } + match audio_notice_spec(selection) {
        Some(n) => text_entries("·"@, n, HistoryTone::Info),
        None => Seq::empty(),
    }
}

/// The status report of a running session.
pub open spec fn running_status_spec(r: RunningState) -> Seq<char> {
    status_text_spec(
        r.playback_mode,
        r.source_url@,
        r.selection,
        r.inspection.seek_support,
        r.media_info.duration,
        r.snapshot,
    )
}

/// `r1` is `r0` with the status report shown, or hidden when it is the
/// one shown already; showing it closes help.
pub open spec fn status_toggled(r0: RunningState, r1: RunningState) -> bool {
    if opt_view(r0.details) == Some(running_status_spec(r0)) {
        r1 == (RunningState { details: None, ..r0 })
    } else {
        opt_view(r1.details) == Some(running_status_spec(r0)) && r1 == (RunningState {
            details: r1.details,
            help_open: false,
            ..r0
        })
    }
}

/// Toggling the status report twice from a session without one shows it
/// and hides it again; nothing else changes but help, which closes.
pub proof fn lemma_status_toggle_twice(r0: RunningState, r1: RunningState, r2: RunningState)
    requires
        r0.details is None,
        status_toggled(r0, r1),
        status_toggled(r1, r2),
    ensures
        opt_view(r1.details) == Some(running_status_spec(r0)),
        r2 == (RunningState { help_open: false, ..r0 }),
{
    assert(running_status_spec(r1) == running_status_spec(r0));
}

/// Why jumping is unavailable in a running session, if it is.
pub open spec fn jump_warning_spec(seek: SeekSupport) -> Option<Seq<char>> {
    match seek {
        SeekSupport::Enabled => None,
        SeekSupport::Disabled { warning } => Some(
            "Jumping to a different time isn't available: "@ + warning@,
        ),
    }
}

impl RunningState {
    /// A running session: its history opens with a warning when playback
    /// had to start from the beginning, the seek warning, and the audio
    /// conversion notice, each when it applies.
    pub fn new(
        source_url: String,
        playback_mode: PlaybackMode,
        selection: StreamSelection,
        inspection: SourceInspection,
        media_info: MediaInfo,
        snapshot: PlaybackSnapshot,
        startup: StartupContext,
    ) -> (r: Self)
        ensures
            r.source_url == source_url,
            r.playback_mode == playback_mode,
            r.selection == selection,
            r.inspection == inspection,
            r.media_info == media_info,
            r.snapshot == snapshot,
            r.input@.len() == 0,
            r.input_cursor == 0,
            r.jump_progress is None,
            r.prepare_history@.len() == 0,
            r.startup_history@.len() == 0,
            r.details is None,
            r.activity_scroll == 0,
            r.player_action_error is None,
            !r.help_open,
            history_view(r.history@) == opening_history(startup, inspection.seek_support, selection),
    {
        let mut history: Vec<HistoryEntry> = Vec::new();
        let ghost h0 = history@;
        if let Some(notice) = restart_notice(&startup) {
            push_history_lines(&mut history, "!", notice, HistoryTone::Warning);
        }
        let ghost h1 = history@;
        if let Some(warning) = inspection.seek_warning() {
            push_history_lines(&mut history, "!", format_warning(warning).as_str(), HistoryTone::Warning);
        }
        let ghost h2 = history@;
        if let Some(notice) = selection.audio_notice() {
            push_history_lines(&mut history, "·", notice.as_str(), HistoryTone::Info);
        }
        assert(history_view(h0) =~= Seq::empty());
        assert(history_view(history@) =~= opening_history(startup, inspection.seek_support, selection));
        RunningState {
            source_url,
            playback_mode,
            selection,
            inspection,
            media_info,
            snapshot,
            input: String::new(),
            input_cursor: 0,
            jump_progress: None,
            prepare_history: Vec::new(),
            startup_history: Vec::new(),
            history,
            details: None,
            activity_scroll: 0,
            player_action_error: None,
            help_open: false,
        }
    }

    /// Why jumping is unavailable, if it is.
    pub fn jump_unavailable_warning(&self) -> (r: Option<String>)
        ensures
            opt_view(r) == jump_warning_spec(self.inspection.seek_support),
    {
        match &self.inspection.seek_support {
            SeekSupport::Enabled => None,
            SeekSupport::Disabled { warning } => {
                let mut out: Vec<char> = Vec::new();
                append_str(&mut out, "Jumping to a different time isn't available: ");
                append_chars(&mut out, string_chars(warning).as_slice());
                Some(string_of(out.as_slice()))
            },
        }
    }

    /// The status report of the session.
    pub fn status_text(&self) -> (r: String)
        ensures
            r@ == running_status_spec(*self),
    {
        status_text(
            &self.playback_mode,
            self.source_url.as_str(),
            &self.selection,
            &self.inspection.seek_support,
            self.media_info.duration,
            &self.snapshot,
        )
    }

    /// Keeps the latest 200 activity lines and the scroll position within them.
    pub fn trim_history(&mut self)
        ensures
            final(self).history@ == (if old(self).history@.len() > max_activity_entries() {
                old(self).history@.subrange(
                    old(self).history@.len() - max_activity_entries(),
                    old(self).history@.len() as int,
                )
            } else {
                old(self).history@
            }),
            final(self).activity_scroll == clamped_scroll(
                old(self).activity_scroll,
                final(self).history@.len(),
            ),
            *final(self) == (RunningState {
                history: final(self).history,
                activity_scroll: final(self).activity_scroll,
                ..*old(self)
            }),
    {
        if self.history.len() > 200 {
            let at = self.history.len() - 200;
            let kept = self.history.split_off(at);
            self.history = kept;
        }
        let last = if self.history.len() > 0 {
            self.history.len() - 1
        } else {
            0
        };
        if self.activity_scroll > last {
            self.activity_scroll = last;
        }
    }
}


/// The errors the front-end's own logic reports.
#[derive(Clone, Copy, Debug, PartialEq, Eq, Structural)]
pub enum UiError {
    Interrupted,
    CommandParse(CommandParseError),
    TrackSelection(TrackSelectionError),
    TrackSelectionInactive,
}

/// The screens of the interactive front-end.
#[derive(Clone, Debug)]
pub enum Screen {
    Launcher(LauncherState),
    Inspecting { progress: ProgressModel<PrepareStep> },
    TrackSelection(TrackSelectionState),
    Starting {
        selection_title: String,
        progress: ProgressModel<LaunchStep>,
        prepare_history: Vec<HistoryEntry>,
    },
    Running(Box<RunningState>),
    SourceError(SourceErrorState),
}

/// The version, the source URL and the inspection history stay as they were.
pub open spec fn frame_kept(a: AppState, b: AppState) -> bool {
    &&& b.version == a.version
    &&& b.source_url == a.source_url
    &&& b.prepare_history == a.prepare_history
}

/// The progress block one spinner step later: the frame moves on by one,
/// modulo ten, while a step is active; nothing else changes.
pub open spec fn ticked<Step>(p: ProgressModel<Step>) -> ProgressModel<Step> {
    ProgressModel {
        frame_index: if any_active(p.lines@) {
            ((p.frame_index + 1) % 10) as usize
        } else {
            p.frame_index
        },
        ..p
    }
}

/// The screen one spinner step later: the progress block it shows, if any
/// (inspection, startup, or a running jump), is ticked.
pub open spec fn ticked_screen(s: Screen) -> Screen {
    match s {
        Screen::Inspecting { progress } => Screen::Inspecting { progress: ticked(progress) },
        Screen::Starting { selection_title, progress, prepare_history } => Screen::Starting {
            selection_title,
            progress: ticked(progress),
            prepare_history,
        },
        Screen::Running(run) => match run.jump_progress {
            Some(p) => Screen::Running(
                Box::new(RunningState { jump_progress: Some(ticked(p)), ..*run }),
            ),
            None => s,
        },
        _ => s,
    }
}

/// Everything the interactive front-end shows.
#[derive(Clone, Debug)]
pub struct AppState {
    pub version: String,
    pub source_url: String,
    pub prepare_history: Vec<HistoryEntry>,
    pub screen: Screen,
}

/// What submitting the launcher's input leads to.
#[derive(Clone, Debug, PartialEq, Eq)]
pub enum SourcePromptResult {
    Continue,
    Ready(String),
    Completed,
    Interrupted,
}

/// A copy of the history lines.
fn copy_history(h: &Vec<HistoryEntry>) -> (r: Vec<HistoryEntry>)
    ensures
        r@ == h@,
{
    let mut out: Vec<HistoryEntry> = Vec::new();
    let mut i: usize = 0;
    while i < h.len()
        invariant
            i <= h@.len(),
            out@ == h@.subrange(0, i as int),
        decreases h@.len() - i,
    {
        let e = &h[i];
        out.push(HistoryEntry { prefix: e.prefix.clone(), text: e.text.clone(), tone: e.tone });
        i = i + 1;
        assert(out@ =~= h@.subrange(0, i as int));
    }
    assert(h@.subrange(0, h@.len() as int) =~= h@);
    out
}

/// The steps of each workflow, in order.
pub open spec fn prepare_steps() -> Seq<PrepareStep> {
    seq![PrepareStep::SourceUrl, PrepareStep::TimeJumps, PrepareStep::SourceDetails, PrepareStep::Tracks]
}

/// Whether `p` is a fresh block titled `title` over `steps`, all pending.
pub open spec fn fresh_progress<Step>(p: ProgressModel<Step>, title: Seq<char>, steps: Seq<Step>) -> bool {
    &&& p.title@ == title
    &&& p.frame_index == 0
    &&& p.lines@.len() == steps.len()
    &&& forall|i: int|
        0 <= i < steps.len() ==> (#[trigger] p.lines@[i]).step == steps[i] && p.lines@[i].status
            == ProgressStatus::Pending && p.lines@[i].details@.len() == 0
}

/// The editor after inserting `text` at the caret: when the caret is on a
/// character boundary, the text goes there and the caret moves past it.
pub open spec fn inserted(input: Seq<char>, cursor: usize, text: Seq<char>, new_input: Seq<char>, new_cursor: usize) -> bool {
    forall|k: int|
        is_boundary(input, cursor as int, k) ==> new_input == input.take(k) + text + input.skip(k)
            && (cursor + byte_len(text) <= usize::MAX ==> new_cursor == cursor + byte_len(text))
}

/// The editor after a backspace at the caret.
pub open spec fn backspaced(input: Seq<char>, cursor: usize, new_input: Seq<char>, new_cursor: usize) -> bool {
    forall|k: int|
        is_boundary(input, cursor as int, k) ==> if k > 0 {
            new_input == input.take(k - 1) + input.skip(k) && new_cursor == byte_len(input.take(k - 1))
        } else {
            new_input == input && new_cursor == cursor
        }
}

/// The caret after moving one character.
pub open spec fn moved(input: Seq<char>, cursor: usize, forward: bool, new_cursor: usize) -> bool {
    forall|k: int|
        is_boundary(input, cursor as int, k) && byte_len(input) <= usize::MAX ==> new_cursor == (
        if forward {
            next_boundary_spec(input, k)
        } else {
            previous_boundary_spec(input, k)
        })
}

/// The focus the track choice opens with: video when there are several
/// video tracks, else audio when there is audio.
pub open spec fn initial_focus(videos: nat, audios: nat) -> SelectionFocus {
    if videos > 1 {
        SelectionFocus::Video
    } else if audios > 0 {
        SelectionFocus::Audio
    } else {
        SelectionFocus::Video
    }
}

/// The focus after switching: between video and audio when both can be
/// chosen, else on whichever can.
pub open spec fn switched_focus(focus: SelectionFocus, videos: nat, audios: nat) -> SelectionFocus {
    if videos > 1 && audios > 0 {
        match focus {
            SelectionFocus::Video => SelectionFocus::Audio,
            SelectionFocus::Audio => SelectionFocus::Video,
        }
    } else if videos > 1 {
        SelectionFocus::Video
    } else if audios > 0 {
        SelectionFocus::Audio
    } else {
        SelectionFocus::Video
    }
}

/// The number of activity lines a running session can scroll through.
pub open spec fn activity_len(r: RunningState) -> int {
    let n = r.prepare_history@.len() + r.startup_history@.len() + r.history@.len() + match r.jump_progress {
        Some(p) => p.lines@.len(),
        None => 0,
    };
    if n > usize::MAX {
        usize::MAX as int
    } else {
        n as int
    }
}

impl AppState {
    /// The first screen: the launcher without a URL, the inspection with one.
    pub fn new(source_url: Option<String>) -> (r: Self)
        ensures
            r.version@ == "quickbridge 0.1.0"@,
            r.source_url@ == match source_url {
                Some(u) => u@,
                None => Seq::empty(),
            },
            r.prepare_history@.len() == 0,
            r.source_url@.len() == 0 ==> (r.screen matches Screen::Launcher(l) && l.input@.len() == 0
                && l.cursor == 0 && l.history@.len() == 0 && !l.help_open),
            r.source_url@.len() > 0 ==> (r.screen matches Screen::Inspecting { progress } && fresh_progress(
                progress,
                "Inspect source"@,
                prepare_steps(),
            )),
    {
        let url = match source_url {
            Some(u) => u,
            None => String::new(),
        };
        let screen = if url.as_str().unicode_len() == 0 {
            Screen::Launcher(LauncherState::new())
        } else {
            let steps = PrepareStep::all();
            Screen::Inspecting { progress: ProgressModel::new("Inspect source", &steps) }
        };
        AppState {
            version: "quickbridge 0.1.0".to_owned(),
            source_url: url,
            prepare_history: Vec::new(),
            screen,
        }
    }

    /// Starts inspecting `source_url` afresh.
    pub fn begin_prepare(&mut self, source_url: String)
        ensures
            final(self).source_url == source_url,
            final(self).prepare_history@.len() == 0,
            final(self).version == old(self).version,
            final(self).screen matches Screen::Inspecting { progress } && fresh_progress(
                progress,
                "Inspect source"@,
                prepare_steps(),
            ),
    {
        self.source_url = source_url;
        self.prepare_history = Vec::new();
        let steps = PrepareStep::all();
        self.screen = Screen::Inspecting { progress: ProgressModel::new("Inspect source", &steps) };
    }

    /// Shows the track choice for `request`, keeping the inspection steps as
    /// history.
    pub fn show_track_selection(&mut self, inspection: &SourceInspection, request: TrackSelectionRequest)
        ensures
            final(self).version == old(self).version,
            final(self).source_url == old(self).source_url,
            final(self).screen matches Screen::TrackSelection(t) && t.focus == initial_focus(
                request.videos@.len(),
                request.audios@.len(),
            ) && t.video_index == request.default_video_index && t.audio_index
                == request.default_audio_index && t.request == request,
            match old(self).screen {
                Screen::Inspecting { progress } => history_view(final(self).prepare_history@)
                    =~= Seq::new(
                    progress.lines@.len(),
                    |i: int|
                        (
                            status_marker_spec(progress.lines@[i].status, progress.frame_index as nat),
                            prepare_label_spec(progress.lines@[i].step, progress.lines@[i].status),
                            status_tone(progress.lines@[i].status),
                        ),
                ),
                _ => final(self).prepare_history@ == old(self).prepare_history@,
            },
    {
        let has_multiple_videos = request.videos.len() > 1;
        let has_audio_tracks = request.audios.len() > 0;
        let history = match &self.screen {
            Screen::Inspecting { progress } => prepare_history(progress),
            _ => copy_history(&self.prepare_history),
        };
        self.prepare_history = history;
        let focus = if has_multiple_videos {
            SelectionFocus::Video
        } else if has_audio_tracks {
            SelectionFocus::Audio
        } else {
            SelectionFocus::Video
        };
        let video_index = request.default_video_index;
        let audio_index = request.default_audio_index;
        self.screen = Screen::TrackSelection(
            TrackSelectionState { request, focus, video_index, audio_index },
        );
    }

    /// Shows the start of the session: the file name, the chosen tracks and
    /// the size, above the launch steps.
    pub fn show_startup(&mut self, inspection: &SourceInspection, selection: &StreamSelection)
        ensures
            final(self).version == old(self).version,
            final(self).source_url == old(self).source_url,
            final(self).prepare_history == old(self).prepare_history,
            final(self).screen matches Screen::Starting { selection_title, progress, prepare_history }
                && selection_title@ == inspection.metadata.filename@ + "\n"@
                + crate::media::output_file_spec(*selection) + "\n"@ + match inspection.metadata.size_bytes {
                Some(b) => format_bytes_spec(b as nat),
                None => "Unknown"@,
            } && prepare_history@ == old(self).prepare_history@ && progress.title@ == "Start session"@
                && progress.frame_index == 0 && progress.lines@.len() == 3,
    {
        let prepare_history = copy_history(&self.prepare_history);
        let mut title: Vec<char> = Vec::new();
        append_str(&mut title, inspection.metadata.filename());
        append_str(&mut title, "\n");
        append_chars(&mut title, string_chars(&selection.render_output_file()).as_slice());
        append_str(&mut title, "\n");
        append_chars(&mut title, string_chars(&inspection.metadata.display_size()).as_slice());
        let steps = LaunchStep::all();
        self.screen = Screen::Starting {
            selection_title: string_of(title.as_slice()),
            progress: ProgressModel::new("Start session", &steps),
            prepare_history,
        };
    }

    /// Shows the running session, with the inspection and launch steps as
    /// its earlier history.
    pub fn show_running(&mut self, running: RunningState)
        ensures
            final(self).version == old(self).version,
            final(self).source_url == old(self).source_url,
            final(self).prepare_history == old(self).prepare_history,
            final(self).screen matches Screen::Running(r) && r.prepare_history@
                == old(self).prepare_history@ && r.history == running.history && r.snapshot
                == running.snapshot && r.selection == running.selection && r.input
                == running.input && (match old(self).screen {
                Screen::Starting { progress, .. } => r.startup_history@.len() == progress.lines@.len(),
                _ => r.startup_history == running.startup_history,
            }),
    {
        let mut running = running;
        running.prepare_history = copy_history(&self.prepare_history);
        if let Screen::Starting { progress, .. } = &self.screen {
            running.startup_history = launch_history(progress);
        }
        self.screen = Screen::Running(Box::new(running));
    }

    pub fn show_source_error(&mut self, error: SourceErrorState)
        ensures
            final(self).screen == Screen::SourceError(error),
            final(self).version == old(self).version,
            final(self).source_url == old(self).source_url,
            final(self).prepare_history == old(self).prepare_history,
    {
        self.screen = Screen::SourceError(error);
    }

    /// Opens or closes the launcher help.
    pub fn toggle_launcher_help(&mut self)
        ensures
            frame_kept(*old(self), *final(self)),
            old(self).screen matches Screen::Launcher(l0) ==> final(self).screen matches Screen::Launcher(
                l1,
            ) && l1.help_open == !l0.help_open && l1.input == l0.input && l1.cursor == l0.cursor
                && l1.history == l0.history,
            !(old(self).screen is Launcher) ==> final(self).screen == old(self).screen,
    {
        if let Screen::Launcher(launcher) = &mut self.screen {
            launcher.help_open = !launcher.help_open;
        }
    }

    /// Closes the launcher help.
    pub fn close_launcher_help(&mut self)
        ensures
            frame_kept(*old(self), *final(self)),
            old(self).screen matches Screen::Launcher(l0) ==> final(self).screen matches Screen::Launcher(
                l1,
            ) && !l1.help_open && l1.input == l0.input && l1.cursor == l0.cursor && l1.history
                == l0.history,
            !(old(self).screen is Launcher) ==> final(self).screen == old(self).screen,
    {
        if let Screen::Launcher(launcher) = &mut self.screen {
            launcher.help_open = false;
        }
    }

    /// Moves the caret one character forwards or backwards.
    pub fn move_input_cursor(&mut self, forward: bool)
        ensures
            frame_kept(*old(self), *final(self)),
            old(self).screen matches Screen::Launcher(l0) ==> final(self).screen matches Screen::Launcher(
                l1,
            ) && l1.input == l0.input && moved(l0.input@, l0.cursor, forward, l1.cursor),
            old(self).screen matches Screen::Running(r0) ==> final(self).screen matches Screen::Running(
                r1,
            ) && r1.input == r0.input && moved(r0.input@, r0.input_cursor, forward, r1.input_cursor),
            !(old(self).screen is Launcher) && !(old(self).screen is Running) ==> final(self).screen
                == old(self).screen,
    {
        match &mut self.screen {
            Screen::Launcher(launcher) => {
                launcher.cursor = if forward {
                    next_char_boundary(launcher.input.as_str(), launcher.cursor)
                } else {
                    previous_char_boundary(launcher.input.as_str(), launcher.cursor)
                };
            },
            Screen::Running(running) => {
                running.input_cursor = if forward {
                    next_char_boundary(running.input.as_str(), running.input_cursor)
                } else {
                    previous_char_boundary(running.input.as_str(), running.input_cursor)
                };
            },
            _ => {},
        }
    }

    /// Moves the caret to the start or the end of the input.
    pub fn move_input_cursor_to_edge(&mut self, end: bool)
        ensures
            frame_kept(*old(self), *final(self)),
            old(self).screen matches Screen::Launcher(l0) ==> final(self).screen matches Screen::Launcher(
                l1,
            ) && l1.input == l0.input && l1.cursor == (if end {
                byte_len(l0.input@) as usize
            } else {
                0
            }),
            old(self).screen matches Screen::Running(r0) ==> final(self).screen matches Screen::Running(
                r1,
            ) && r1.input == r0.input && r1.input_cursor == (if end {
                byte_len(r0.input@) as usize
            } else {
                0
            }),
            !(old(self).screen is Launcher) && !(old(self).screen is Running) ==> final(self).screen
                == old(self).screen,
    {
        match &mut self.screen {
            Screen::Launcher(launcher) => {
                launcher.cursor = if end {
                    launcher.input.as_str().len()
                } else {
                    0
                };
            },
            Screen::Running(running) => {
                running.input_cursor = if end {
                    running.input.as_str().len()
                } else {
                    0
                };
            },
            _ => {},
        }
    }

    /// Starts editing the URL on the error screen.
    pub fn edit_source_error_url(&mut self)
        ensures
            frame_kept(*old(self), *final(self)),
            old(self).screen matches Screen::SourceError(e0) ==> final(self).screen matches Screen::SourceError(
                e1,
            ) && e1.editing && e1.input == e0.input && e1.attempted_url == e0.attempted_url,
            !(old(self).screen is SourceError) ==> final(self).screen == old(self).screen,
    {
        if let Screen::SourceError(error) = &mut self.screen {
            error.editing = true;
        }
    }

    /// Stops editing and restores the attempted URL.
    pub fn cancel_source_error_edit(&mut self)
        ensures
            frame_kept(*old(self), *final(self)),
            old(self).screen matches Screen::SourceError(e0) ==> final(self).screen matches Screen::SourceError(
                e1,
            ) && !e1.editing && e1.input == e0.attempted_url && e1.attempted_url == e0.attempted_url,
            !(old(self).screen is SourceError) ==> final(self).screen == old(self).screen,
    {
        if let Screen::SourceError(error) = &mut self.screen {
            error.input = error.attempted_url.clone();
            error.editing = false;
        }
    }

    /// Shows a newer snapshot of the running session.
    pub fn update_snapshot(&mut self, snapshot: PlaybackSnapshot)
        ensures
            frame_kept(*old(self), *final(self)),
            old(self).screen matches Screen::Running(r0) ==> final(self).screen matches Screen::Running(
                r1,
            ) && *r1 == (RunningState { snapshot, ..*r0 }),
            !(old(self).screen is Running) ==> final(self).screen == old(self).screen,
    {
        if let Screen::Running(running) = &mut self.screen {
            running.snapshot = snapshot;
        }
    }

    /// Shows or clears the player error of the running session.
    pub fn set_player_action_error(&mut self, message: Option<String>)
        ensures
            frame_kept(*old(self), *final(self)),
            old(self).screen matches Screen::Running(r0) ==> final(self).screen matches Screen::Running(
                r1,
            ) && *r1 == (RunningState { player_action_error: message, ..*r0 }),
            !(old(self).screen is Running) ==> final(self).screen == old(self).screen,
    {
        if let Screen::Running(running) = &mut self.screen {
            running.player_action_error = message;
        }
    }

    /// Clears the input and closes help and details.
    pub fn close_running_overlay(&mut self)
        ensures
            frame_kept(*old(self), *final(self)),
            old(self).screen matches Screen::Running(r0) ==> final(self).screen matches Screen::Running(
                r1,
            ) && r1.input@.len() == 0 && *r1 == (RunningState {
                input: r1.input,
                input_cursor: 0,
                help_open: false,
                details: None,
                ..*r0
            }),
            !(old(self).screen is Running) ==> final(self).screen == old(self).screen,
    {
        if let Screen::Running(running) = &mut self.screen {
            running.input = String::new();
            running.input_cursor = 0;
            running.help_open = false;
            running.details = None;
        }
    }

    /// Opens help in place of the details.
    pub fn show_help(&mut self)
        ensures
            frame_kept(*old(self), *final(self)),
            old(self).screen matches Screen::Running(r0) ==> final(self).screen matches Screen::Running(
                r1,
            ) && *r1 == (RunningState { help_open: true, details: None, ..*r0 }),
            !(old(self).screen is Running) ==> final(self).screen == old(self).screen,
    {
        if let Screen::Running(running) = &mut self.screen {
            running.help_open = true;
            running.details = None;
        }
    }

    /// The playback position shown, zero outside a running session.
    pub fn current_time(&self) -> (r: Timecode)
        ensures
            r == match self.screen {
                Screen::Running(run) => run.snapshot.current_time,
                _ => Timecode { seconds: 0 },
            },
    {
        match &self.screen {
            Screen::Running(running) => running.snapshot.current_time,
            _ => Timecode::zero(),
        }
    }

    /// Types a character at the caret; on the error screen it is appended
    /// while editing.
    pub fn push_input(&mut self, ch: char)
        ensures
            frame_kept(*old(self), *final(self)),
            old(self).screen matches Screen::Launcher(l0) ==> final(self).screen matches Screen::Launcher(
                l1,
            ) && inserted(l0.input@, l0.cursor, seq![ch], l1.input@, l1.cursor) && l1 == (LauncherState { input: l1.input, cursor: l1.cursor, ..l0 }),
            old(self).screen matches Screen::Running(r0) ==> final(self).screen matches Screen::Running(
                r1,
            ) && inserted(r0.input@, r0.input_cursor, seq![ch], r1.input@, r1.input_cursor)
                && *r1 == (RunningState { input: r1.input, input_cursor: r1.input_cursor, ..*r0 }),
            old(self).screen matches Screen::SourceError(e0) ==> final(self).screen matches Screen::SourceError(
                e1,
            ) && e1 == (SourceErrorState { input: e1.input, ..e0 }) && e1.input@ == (if e0.editing {
                e0.input@.push(ch)
            } else {
                e0.input@
            }),
            !(old(self).screen is Launcher) && !(old(self).screen is Running) && !(
            old(self).screen is SourceError) ==> final(self).screen == old(self).screen,
    {
        let mut one: Vec<char> = Vec::new();
        one.push(ch);
        let text = string_of(one.as_slice());
        match &mut self.screen {
            Screen::Launcher(launcher) => {
                let (input, cursor) = insert_at(launcher.input.as_str(), launcher.cursor, text.as_str());
                launcher.input = input;
                launcher.cursor = cursor;
            },
            Screen::Running(running) => {
                let (input, cursor) = insert_at(running.input.as_str(), running.input_cursor, text.as_str());
                running.input = input;
                running.input_cursor = cursor;
            },
            Screen::SourceError(error) => {
                if error.editing {
                    crate::strings::push_char(&mut error.input, ch);
                }
            },
            _ => {},
        }
    }

    /// Pastes text at the caret; on the error screen it is appended while
    /// editing.
    pub fn append_input(&mut self, text: &str)
        ensures
            frame_kept(*old(self), *final(self)),
            old(self).screen matches Screen::Launcher(l0) ==> final(self).screen matches Screen::Launcher(
                l1,
            ) && inserted(l0.input@, l0.cursor, text@, l1.input@, l1.cursor) && l1 == (LauncherState { input: l1.input, cursor: l1.cursor, ..l0 }),
            old(self).screen matches Screen::Running(r0) ==> final(self).screen matches Screen::Running(
                r1,
            ) && inserted(r0.input@, r0.input_cursor, text@, r1.input@, r1.input_cursor)
                && *r1 == (RunningState { input: r1.input, input_cursor: r1.input_cursor, ..*r0 }),
            old(self).screen matches Screen::SourceError(e0) ==> final(self).screen matches Screen::SourceError(
                e1,
            ) && e1 == (SourceErrorState { input: e1.input, ..e0 }) && e1.input@ == (if e0.editing {
                e0.input@ + text@
            } else {
                e0.input@
            }),
            !(old(self).screen is Launcher) && !(old(self).screen is Running) && !(
            old(self).screen is SourceError) ==> final(self).screen == old(self).screen,
    {
        match &mut self.screen {
            Screen::Launcher(launcher) => {
                let (input, cursor) = insert_at(launcher.input.as_str(), launcher.cursor, text);
                launcher.input = input;
                launcher.cursor = cursor;
            },
            Screen::Running(running) => {
                let (input, cursor) = insert_at(running.input.as_str(), running.input_cursor, text);
                running.input = input;
                running.input_cursor = cursor;
            },
            Screen::SourceError(error) => {
                if error.editing {
                    let mut all = string_chars(&error.input);
                    append_str(&mut all, text);
                    error.input = string_of(all.as_slice());
                }
            },
            _ => {},
        }
    }

    /// Deletes the character before the caret; on the error screen the last
    /// character while editing.
    pub fn pop_input(&mut self)
        ensures
            frame_kept(*old(self), *final(self)),
            old(self).screen matches Screen::Launcher(l0) ==> final(self).screen matches Screen::Launcher(
                l1,
            ) && backspaced(l0.input@, l0.cursor, l1.input@, l1.cursor) && l1 == (LauncherState { input: l1.input, cursor: l1.cursor, ..l0 }),
            old(self).screen matches Screen::Running(r0) ==> final(self).screen matches Screen::Running(
                r1,
            ) && backspaced(r0.input@, r0.input_cursor, r1.input@, r1.input_cursor) && *r1
                == (RunningState { input: r1.input, input_cursor: r1.input_cursor, ..*r0 }),
            old(self).screen matches Screen::SourceError(e0) ==> final(self).screen matches Screen::SourceError(
                e1,
            ) && e1 == (SourceErrorState { input: e1.input, ..e0 }) && e1.input@ == (if e0.editing && e0.input@.len() > 0 {
                e0.input@.drop_last()
            } else {
                e0.input@
            }),
            !(old(self).screen is Launcher) && !(old(self).screen is Running) && !(
            old(self).screen is SourceError) ==> final(self).screen == old(self).screen,
    {
        match &mut self.screen {
            Screen::Launcher(launcher) => {
                let (input, cursor) = delete_before(launcher.input.as_str(), launcher.cursor);
                launcher.input = input;
                launcher.cursor = cursor;
            },
            Screen::Running(running) => {
                let (input, cursor) = delete_before(running.input.as_str(), running.input_cursor);
                running.input = input;
                running.input_cursor = cursor;
            },
            Screen::SourceError(error) => {
                if error.editing {
                    let all = string_chars(&error.input);
                    if all.len() > 0 {
                        let kept = crate::strings::slice_chars(all.as_slice(), 0, all.len() - 1);
                        error.input = string_of(kept.as_slice());
                    }
                }
            },
            _ => {},
        }
    }

    /// Takes the typed input, leaving the editor empty.
    pub fn take_input(&mut self) -> (r: String)
        ensures
            frame_kept(*old(self), *final(self)),
            old(self).screen matches Screen::Launcher(l0) ==> r == l0.input && (final(self).screen matches Screen::Launcher(
                l1,
            ) && l1.input@.len() == 0 && l1 == (LauncherState { input: l1.input, cursor: 0, ..l0 })),
            old(self).screen matches Screen::Running(r0) ==> r == r0.input && (final(self).screen matches Screen::Running(
                r1,
            ) && r1.input@.len() == 0 && *r1 == (RunningState { input: r1.input, input_cursor: 0, ..*r0 })),
            old(self).screen matches Screen::SourceError(e0) ==> if e0.editing {
                r == e0.input && (final(self).screen matches Screen::SourceError(e1) && e1.input@.len() == 0
                    && e1 == (SourceErrorState { input: e1.input, ..e0 }))
            } else {
                r@.len() == 0 && final(self).screen == old(self).screen
            },
            !(old(self).screen is Launcher) && !(old(self).screen is Running) && !(
            old(self).screen is SourceError) ==> r@.len() == 0 && final(self).screen == old(self).screen,
    {
        match &mut self.screen {
            Screen::Launcher(launcher) => {
                launcher.cursor = 0;
                let mut taken = String::new();
                std::mem::swap(&mut taken, &mut launcher.input);
                taken
            },
            Screen::Running(running) => {
                running.input_cursor = 0;
                let mut taken = String::new();
                std::mem::swap(&mut taken, &mut running.input);
                taken
            },
            Screen::SourceError(error) => {
                if error.editing {
                    let mut taken = String::new();
                    std::mem::swap(&mut taken, &mut error.input);
                    taken
                } else {
                    String::new()
                }
            },
            _ => String::new(),
        }
    }

    /// Shows the jump steps of the running session.
    pub fn start_jump(&mut self)
        ensures
            frame_kept(*old(self), *final(self)),
            old(self).screen matches Screen::Running(r0) ==> final(self).screen matches Screen::Running(
                r1,
            ) && r1.jump_progress matches Some(p) && p.title@ == "Jump to a different time"@
                && p.frame_index == 0 && p.lines@.len() == 4 && (forall|i: int|
                0 <= i < 4 ==> (#[trigger] p.lines@[i]).status == ProgressStatus::Pending)
                && *r1 == (RunningState { jump_progress: r1.jump_progress, ..*r0 }),
            !(old(self).screen is Running) ==> final(self).screen == old(self).screen,
    {
        if let Screen::Running(running) = &mut self.screen {
            let steps = JumpStep::all();
            running.jump_progress = Some(ProgressModel::new("Jump to a different time", &steps));
        }
    }

    /// Hides the jump steps.
    pub fn finish_jump(&mut self)
        ensures
            frame_kept(*old(self), *final(self)),
            old(self).screen matches Screen::Running(r0) ==> final(self).screen matches Screen::Running(
                r1,
            ) && *r1 == (RunningState { jump_progress: None, ..*r0 }),
            !(old(self).screen is Running) ==> final(self).screen == old(self).screen,
    {
        if let Screen::Running(running) = &mut self.screen {
            running.jump_progress = None;
        }
    }

    /// Advances the spinner of the block on screen; says whether to redraw.
    pub fn tick(&mut self) -> (r: bool)
        ensures
            *final(self) == (AppState { screen: ticked_screen(old(self).screen), ..*old(self) }),
            r == match old(self).screen {
                Screen::Inspecting { progress } => any_active(progress.lines@),
                Screen::Starting { progress, .. } => any_active(progress.lines@),
                Screen::Running(run) => match run.jump_progress {
                    Some(p) => any_active(p.lines@),
                    None => false,
                },
                _ => false,
            },
    {
        match &mut self.screen {
            Screen::Launcher(_) => false,
            Screen::Inspecting { progress } => progress.tick(),
            Screen::Starting { progress, .. } => progress.tick(),
            Screen::Running(running) => {
                match &mut running.jump_progress {
                    Some(progress) => progress.tick(),
                    None => false,
                }
            },
            Screen::TrackSelection(_) => false,
            Screen::SourceError(_) => false,
        }
    }

    /// Moves the highlighted track of the focused list by `delta`.
    pub fn move_track_selection(&mut self, delta: isize)
        ensures
            frame_kept(*old(self), *final(self)),
            old(self).screen matches Screen::TrackSelection(t0) ==> final(self).screen matches Screen::TrackSelection(
                t1,
            ) && t1.focus == t0.focus && t1.request == t0.request && (match t0.focus {
                SelectionFocus::Video => t1.video_index == shift_index_spec(
                    t0.video_index,
                    t0.request.videos@.len() as usize,
                    delta,
                ) && t1.audio_index == t0.audio_index,
                SelectionFocus::Audio => t1.video_index == t0.video_index && t1.audio_index
                    == match t0.audio_index {
                    Some(i) => Some(
                        shift_index_spec(i, t0.request.audios@.len() as usize, delta) as usize,
                    ),
                    None => None,
                },
            }),
            !(old(self).screen is TrackSelection) ==> final(self).screen == old(self).screen,
    {
        if let Screen::TrackSelection(selection) = &mut self.screen {
            match selection.focus {
                SelectionFocus::Video => {
                    selection.video_index = shift_index(
                        selection.video_index,
                        selection.request.videos.len(),
                        delta,
                    );
                },
                SelectionFocus::Audio => {
                    if let Some(index) = selection.audio_index {
                        selection.audio_index = Some(
                            shift_index(index, selection.request.audios.len(), delta),
                        );
                    }
                },
            }
        }
    }

    /// Switches between the video and audio lists.
    pub fn switch_track_focus(&mut self, forward: bool)
        ensures
            frame_kept(*old(self), *final(self)),
            old(self).screen matches Screen::TrackSelection(t0) ==> final(self).screen matches Screen::TrackSelection(
                t1,
            ) && t1.focus == switched_focus(
                t0.focus,
                t0.request.videos@.len(),
                t0.request.audios@.len(),
            ) && t1.video_index == t0.video_index && t1.audio_index == t0.audio_index
                && t1.request == t0.request,
            !(old(self).screen is TrackSelection) ==> final(self).screen == old(self).screen,
    {
        if let Screen::TrackSelection(selection) = &mut self.screen {
            let video_selectable = selection.request.videos.len() > 1;
            let audio_selectable = selection.request.audios.len() > 0;
            selection.focus = if video_selectable && audio_selectable {
                match selection.focus {
                    SelectionFocus::Video => SelectionFocus::Audio,
                    SelectionFocus::Audio => SelectionFocus::Video,
                }
            } else if video_selectable {
                SelectionFocus::Video
            } else if audio_selectable {
                SelectionFocus::Audio
            } else {
                SelectionFocus::Video
            };
        }
    }

    /// The selection of the highlighted tracks.
    pub fn confirm_track_selection(&self) -> (r: Result<StreamSelection, UiError>)
        ensures
            match self.screen {
                Screen::TrackSelection(t) => match build_selection_spec(
                    t.request.videos@,
                    t.request.audios@,
                    t.video_index,
                    t.audio_index,
                ) {
                    Ok(sel) => r == Ok::<StreamSelection, UiError>(sel),
                    Err(e) => r == Err::<StreamSelection, UiError>(UiError::TrackSelection(e)),
                },
                _ => r == Err::<StreamSelection, UiError>(UiError::TrackSelectionInactive),
            },
    {
        match &self.screen {
            Screen::TrackSelection(selection) => {
                match selection.request.build_selection(selection.video_index, selection.audio_index) {
                    Ok(sel) => Ok(sel),
                    Err(e) => Err(UiError::TrackSelection(e)),
                }
            },
            _ => Err(UiError::TrackSelectionInactive),
        }
    }

    /// Enter on the track choice: from the video list to the audio list when
    /// there is audio, otherwise confirms the highlighted tracks.
    pub fn advance_or_confirm_track_selection(&mut self) -> (r: Result<Option<StreamSelection>, UiError>)
        ensures
            frame_kept(*old(self), *final(self)),
            match old(self).screen {
                Screen::TrackSelection(t0) => if t0.focus == SelectionFocus::Video
                    && t0.request.audios@.len() > 0 {
                    r == Ok::<Option<StreamSelection>, UiError>(None) && (final(self).screen matches Screen::TrackSelection(
                        t1,
                    ) && t1.focus == SelectionFocus::Audio && t1.video_index == t0.video_index
                        && t1.audio_index == t0.audio_index && t1.request == t0.request)
                } else {
                    final(self).screen == old(self).screen && match build_selection_spec(
                        t0.request.videos@,
                        t0.request.audios@,
                        t0.video_index,
                        t0.audio_index,
                    ) {
                        Ok(sel) => r == Ok::<Option<StreamSelection>, UiError>(Some(sel)),
                        Err(e) => r == Err::<Option<StreamSelection>, UiError>(
                            UiError::TrackSelection(e),
                        ),
                    }
                },
                _ => r == Err::<Option<StreamSelection>, UiError>(UiError::TrackSelectionInactive)
                    && final(self).screen == old(self).screen,
            },
    {
        match &mut self.screen {
            Screen::TrackSelection(selection) => {
                if selection.focus == SelectionFocus::Video && selection.request.audios.len() > 0 {
                    selection.focus = SelectionFocus::Audio;
                    return Ok(None);
                }
            },
            _ => return Err(UiError::TrackSelectionInactive),
        }
        match self.confirm_track_selection() {
            Ok(sel) => Ok(Some(sel)),
            Err(e) => Err(e),
        }
    }

    /// The jump steps of the running session, for updating, if shown.
    pub fn jump_progress_mut(&mut self) -> (r: Option<&mut ProgressModel<JumpStep>>)
        ensures
            frame_kept(*old(self), *final(self)),
            match r {
                Some(p) => old(self).screen matches Screen::Running(r0) && r0.jump_progress == Some(*p)
                    && (final(self).screen matches Screen::Running(r1) && *r1 == (RunningState {
                    jump_progress: Some(*final(p)),
                    ..*r0
                })),
                None => final(self).screen == old(self).screen && !(old(self).screen matches Screen::Running(
                    r0,
                ) && r0.jump_progress is Some),
            },
    {
        match &mut self.screen {
            Screen::Running(running) => match &mut running.jump_progress {
                Some(p) => Some(p),
                None => None,
            },
            _ => None,
        }
    }

    /// Adds the lines of `text` to the history on screen, if it has one.
    pub fn push_history(&mut self, prefix: &str, text: &str, tone: HistoryTone)
        ensures
            frame_kept(*old(self), *final(self)),
            old(self).screen matches Screen::Launcher(l0) ==> final(self).screen matches Screen::Launcher(
                l1,
            ) && history_view(l1.history@) == history_view(l0.history@) + text_entries(
                prefix@,
                text@,
                tone,
            ) && l1.input == l0.input && l1.cursor == l0.cursor,
            old(self).screen matches Screen::Running(r0) ==> final(self).screen matches Screen::Running(
                r1,
            ) && ({
                let all = history_view(r0.history@) + text_entries(prefix@, text@, tone);
                history_view(r1.history@) == if all.len() > max_activity_entries() {
                    all.subrange(all.len() - max_activity_entries(), all.len() as int)
                } else {
                    all
                }
            }) && *r1 == (RunningState {
                history: r1.history,
                activity_scroll: r1.activity_scroll,
                ..*r0
            }) && r1.activity_scroll == clamped_scroll(r0.activity_scroll, r1.history@.len()),
            !(old(self).screen is Launcher) && !(old(self).screen is Running) ==> final(self).screen
                == old(self).screen,
    {
        match &mut self.screen {
            Screen::Launcher(launcher) => {
                push_history_lines(&mut launcher.history, prefix, text, tone);
            },
            Screen::Running(running) => {
                push_history_lines(&mut running.history, prefix, text, tone);
                let ghost grown = running.history@;
                running.trim_history();
                proof {
                    if grown.len() > max_activity_entries() {
                        assert(history_view(running.history@) =~= history_view(grown).subrange(
                            grown.len() - max_activity_entries(),
                            grown.len() as int,
                        ));
                    }
                }
            },
            _ => {},
        }
    }

    /// Records a command the user entered.
    pub fn record_command(&mut self, command: &str)
        ensures
            frame_kept(*old(self), *final(self)),
            old(self).screen matches Screen::Launcher(l0) ==> final(self).screen matches Screen::Launcher(
                l1,
            ) && history_view(l1.history@) == history_view(l0.history@) + text_entries(
                "›"@,
                command@,
                HistoryTone::Command,
            ) && l1.input == l0.input && l1.cursor == l0.cursor,
            old(self).screen matches Screen::Running(r0) ==> final(self).screen matches Screen::Running(
                r1,
            ) && ({
                let all = history_view(r0.history@) + text_entries("›"@, command@, HistoryTone::Command);
                history_view(r1.history@) == if all.len() > max_activity_entries() {
                    all.subrange(all.len() - max_activity_entries(), all.len() as int)
                } else {
                    all
                }
            }) && *r1 == (RunningState {
                history: r1.history,
                activity_scroll: r1.activity_scroll,
                ..*r0
            }) && r1.activity_scroll == clamped_scroll(r0.activity_scroll, r1.history@.len()),
            !(old(self).screen is Launcher) && !(old(self).screen is Running) ==> final(self).screen
                == old(self).screen,
    {
        self.push_history("›", command, HistoryTone::Command);
    }

    pub fn push_history_info(&mut self, text: &str)
        ensures
            frame_kept(*old(self), *final(self)),
            old(self).screen matches Screen::Running(r0) ==> final(self).screen matches Screen::Running(
                r1,
            ) && ({
                let all = history_view(r0.history@) + text_entries("·"@, text@, HistoryTone::Info);
                history_view(r1.history@) == if all.len() > max_activity_entries() {
                    all.subrange(all.len() - max_activity_entries(), all.len() as int)
                } else {
                    all
                }
            }) && *r1 == (RunningState {
                history: r1.history,
                activity_scroll: r1.activity_scroll,
                ..*r0
            }) && r1.activity_scroll == clamped_scroll(r0.activity_scroll, r1.history@.len()),
            old(self).screen matches Screen::Launcher(l0) ==> final(self).screen matches Screen::Launcher(
                l1,
            ) && history_view(l1.history@) == history_view(l0.history@) + text_entries(
                "·"@,
                text@,
                HistoryTone::Info,
            ) && l1.input == l0.input && l1.cursor == l0.cursor,
            !(old(self).screen is Launcher) && !(old(self).screen is Running) ==> final(self).screen
                == old(self).screen,
    {
        self.push_history("·", text, HistoryTone::Info);
    }

    pub fn push_history_warning(&mut self, text: &str)
        ensures
            frame_kept(*old(self), *final(self)),
            old(self).screen matches Screen::Running(r0) ==> final(self).screen matches Screen::Running(
                r1,
            ) && ({
                let all = history_view(r0.history@) + text_entries("!"@, text@, HistoryTone::Warning);
                history_view(r1.history@) == if all.len() > max_activity_entries() {
                    all.subrange(all.len() - max_activity_entries(), all.len() as int)
                } else {
                    all
                }
            }) && *r1 == (RunningState {
                history: r1.history,
                activity_scroll: r1.activity_scroll,
                ..*r0
            }) && r1.activity_scroll == clamped_scroll(r0.activity_scroll, r1.history@.len()),
            old(self).screen matches Screen::Launcher(l0) ==> final(self).screen matches Screen::Launcher(
                l1,
            ) && history_view(l1.history@) == history_view(l0.history@) + text_entries(
                "!"@,
                text@,
                HistoryTone::Warning,
            ) && l1.input == l0.input && l1.cursor == l0.cursor,
            !(old(self).screen is Launcher) && !(old(self).screen is Running) ==> final(self).screen
                == old(self).screen,
    {
        self.push_history("!", text, HistoryTone::Warning);
    }

    pub fn push_history_muted(&mut self, text: &str)
        ensures
            frame_kept(*old(self), *final(self)),
            old(self).screen matches Screen::Running(r0) ==> final(self).screen matches Screen::Running(
                r1,
            ) && ({
                let all = history_view(r0.history@) + text_entries("·"@, text@, HistoryTone::Muted);
                history_view(r1.history@) == if all.len() > max_activity_entries() {
                    all.subrange(all.len() - max_activity_entries(), all.len() as int)
                } else {
                    all
                }
            }) && *r1 == (RunningState {
                history: r1.history,
                activity_scroll: r1.activity_scroll,
                ..*r0
            }) && r1.activity_scroll == clamped_scroll(r0.activity_scroll, r1.history@.len()),
            old(self).screen matches Screen::Launcher(l0) ==> final(self).screen matches Screen::Launcher(
                l1,
            ) && history_view(l1.history@) == history_view(l0.history@) + text_entries(
                "·"@,
                text@,
                HistoryTone::Muted,
            ) && l1.input == l0.input && l1.cursor == l0.cursor,
            !(old(self).screen is Launcher) && !(old(self).screen is Running) ==> final(self).screen
                == old(self).screen,
    {
        self.push_history("·", text, HistoryTone::Muted);
    }

    /// The status report, empty outside a running session.
    pub fn status_text(&self) -> (r: String)
        ensures
            r@ == match self.screen {
                Screen::Running(run) => running_status_spec(*run),
                _ => Seq::empty(),
            },
    {
        match &self.screen {
            Screen::Running(running) => running.status_text(),
            _ => String::new(),
        }
    }

    /// Shows the status report, or hides it when it is already shown.
    pub fn toggle_status_details(&mut self)
        ensures
            frame_kept(*old(self), *final(self)),
            old(self).screen matches Screen::Running(r0) ==> final(self).screen matches Screen::Running(
                r1,
            ) && status_toggled(*r0, *r1),
            !(old(self).screen is Running) ==> final(self).screen == old(self).screen,
    {
        let details = self.status_text();
        if let Screen::Running(running) = &mut self.screen {
            let same = match &running.details {
                Some(d) => crate::strings::str_eq(d.as_str(), details.as_str()),
                None => false,
            };
            if same {
                running.details = None;
            } else {
                running.details = Some(details);
                running.help_open = false;
            }
        }
    }

    /// Scrolls the activity one line older or newer.
    pub fn scroll_activity(&mut self, older: bool)
        ensures
            frame_kept(*old(self), *final(self)),
            old(self).screen matches Screen::Running(r0) ==> final(self).screen matches Screen::Running(
                r1,
            ) && r1.history == r0.history && r1.activity_scroll == (if older {
                let last = if activity_len(*r0) > 0 {
                    activity_len(*r0) - 1
                } else {
                    0
                };
                if r0.activity_scroll + 1 > last {
                    last
                } else {
                    r0.activity_scroll + 1
                }
            } else if r0.activity_scroll > 0 {
                r0.activity_scroll - 1
            } else {
                0
            }),
            !(old(self).screen is Running) ==> final(self).screen == old(self).screen,
    {
        if let Screen::Running(running) = &mut self.screen {
            let jump_len: usize = match &running.jump_progress {
                Some(p) => p.lines.len(),
                None => 0,
            };
            let total = running.prepare_history.len().saturating_add(running.startup_history.len())
                .saturating_add(running.history.len()).saturating_add(jump_len);
            let last = if total > 0 {
                total - 1
            } else {
                0
            };
            running.activity_scroll = if older {
                if running.activity_scroll >= last {
                    last
                } else {
                    running.activity_scroll + 1
                }
            } else if running.activity_scroll > 0 {
                running.activity_scroll - 1
            } else {
                0
            };
        }
    }

    /// Why jumping is unavailable in the running session, if it is.
    pub fn jump_unavailable_warning(&self) -> (r: Option<String>)
        ensures
            opt_view(r) == match self.screen {
                Screen::Running(run) => jump_warning_spec(run.inspection.seek_support),
                _ => None,
            },
    {
        match &self.screen {
            Screen::Running(running) => running.jump_unavailable_warning(),
            _ => None,
        }
    }
}


/// What a launcher submission of the trimmed text `t` leads to: help and
/// empty lines continue, `quit` completes, `/url URL` and a direct
/// `http(s)://` URL are ready to inspect, anything else continues with a
/// warning.
pub open spec fn prompt_result_spec(t: Seq<char>, r: SourcePromptResult) -> bool {
    if t.len() == 0 || is_help_word(t) {
        r == SourcePromptResult::Continue
    } else if is_quit_word(t) {
        r == SourcePromptResult::Completed
    } else if has_prefix(t, "/url"@) {
        let url = trim_spec(t.subrange(4, t.len() as int));
        if url.len() == 0 {
            r == SourcePromptResult::Continue
        } else {
            r matches SourcePromptResult::Ready(u) && u@ == url
        }
    } else if has_prefix(t, "http://"@) || has_prefix(t, "https://"@) {
        r matches SourcePromptResult::Ready(u) && u@ == t
    } else {
        r == SourcePromptResult::Continue
    }
}

/// The words that ask for help.
pub open spec fn is_help_word(t: Seq<char>) -> bool {
    t == "help"@ || t == "h"@ || t == "?"@ || t == "/help"@
}

/// The words that quit.
pub open spec fn is_quit_word(t: Seq<char>) -> bool {
    t == "quit"@ || t == "q"@ || t == "exit"@
}

/// The activity a launcher submission of the trimmed text `t` adds.
pub open spec fn prompt_history_spec(t: Seq<char>) -> Seq<(Seq<char>, Seq<char>, HistoryTone)> {
    if t.len() == 0 {
        Seq::empty()
    } else {
        let cmd = text_entries("›"@, t, HistoryTone::Command);
        if is_help_word(t) {
            cmd + text_entries("·"@, "Enter a direct media URL to start a session."@, HistoryTone::Info)
                + text_entries("·"@, "Example: https://example.com/video.mkv"@, HistoryTone::Muted)
        } else if is_quit_word(t) {
            cmd
        } else if has_prefix(t, "/url"@) {
            if trim_spec(t.subrange(4, t.len() as int)).len() == 0 {
                cmd + text_entries(
                    "!"@,
                    "Add a media URL after `/url`, such as `/url https://example.com/video.mkv`."@,
                    HistoryTone::Warning,
                )
            } else {
                cmd
            }
        } else if has_prefix(t, "http://"@) || has_prefix(t, "https://"@) {
            cmd
        } else {
            cmd + text_entries(
                "!"@,
                "Enter a full media URL that starts with `http://` or `https://`."@,
                HistoryTone::Warning,
            )
        }
    }
}

/// Whether the characters spell the literal.
fn is_word(t: &Vec<char>, word: &str) -> (r: bool)
    ensures
        r == (t@ == word@),
{
    chars_eq_str(t.as_slice(), word)
}

/// Handles Enter on the launcher: takes the input and decides what it asks for.
pub fn submit_source_input(state: &mut AppState) -> (r: SourcePromptResult)
    ensures
        old(state).screen matches Screen::Launcher(l0) ==> prompt_result_spec(trim_spec(l0.input@), r)
            && (final(state).screen matches Screen::Launcher(l1) && l1.input@.len() == 0 && l1.cursor
            == 0 && history_view(l1.history@) == history_view(l0.history@) + prompt_history_spec(
            trim_spec(l0.input@),
        )),
{
    proof {
        reveal_strlit("help");
        reveal_strlit("h");
        reveal_strlit("?");
        reveal_strlit("/help");
        reveal_strlit("quit");
        reveal_strlit("q");
        reveal_strlit("exit");
        reveal_strlit("/url");
    }
    let line = state.take_input();
    let t = trim(line.as_str());
    if t.len() == 0 {
        return SourcePromptResult::Continue;
    }
    let trimmed = string_of(t.as_slice());
    state.record_command(trimmed.as_str());
    if is_word(&t, "help") || is_word(&t, "h") || is_word(&t, "?") || is_word(&t, "/help") {
        let ghost mid = state.screen;
        state.push_history_info("Enter a direct media URL to start a session.");
        state.push_history_muted("Example: https://example.com/video.mkv");
        proof {
            let cmd = text_entries("›"@, t@, HistoryTone::Command);
            let info = text_entries("·"@, "Enter a direct media URL to start a session."@, HistoryTone::Info);
            let muted = text_entries("·"@, "Example: https://example.com/video.mkv"@, HistoryTone::Muted);
            assert forall|a: Seq<(Seq<char>, Seq<char>, HistoryTone)>| (a + cmd) + info + muted =~= a + (cmd + info + muted) by {}
        }
        return SourcePromptResult::Continue;
    }
    if is_word(&t, "quit") || is_word(&t, "q") || is_word(&t, "exit") {
        return SourcePromptResult::Completed;
    }
    let url_tag = chars_of("/url");
    if starts_with(t.as_slice(), url_tag.as_slice()) {
        let rest = slice_chars(t.as_slice(), 4, t.len());
        let url = trim_chars(rest.as_slice());
        if url.len() == 0 {
            state.push_history_warning(
                "Add a media URL after `/url`, such as `/url https://example.com/video.mkv`.",
            );
            return SourcePromptResult::Continue;
        }
        return SourcePromptResult::Ready(string_of(url.as_slice()));
    }
    let http = chars_of("http://");
    let https = chars_of("https://");
    if starts_with(t.as_slice(), http.as_slice()) || starts_with(t.as_slice(), https.as_slice()) {
        return SourcePromptResult::Ready(trimmed);
    }
    state.push_history_warning("Enter a full media URL that starts with `http://` or `https://`.");
    SourcePromptResult::Continue
}

/// The playback mode a simulation choice selects.
pub fn playback_mode_from_simulation(simulation: Option<SimulationScenario>) -> (r: PlaybackMode)
    ensures
        r == match simulation {
            Some(s) => PlaybackMode::Simulated(s),
            None => PlaybackMode::Live,
        },
{
    match simulation {
        Some(s) => PlaybackMode::Simulated(s),
        None => PlaybackMode::Live,
    }
}

} // verus!
