//! Terminal capabilities, plain and ANSI styling, and the line-based
//! progress and prompt blocks of the plain front-end.

use vstd::prelude::*;
use crate::url::string_views;
use crate::strings::{
    append_chars, append_str, ascii_lower_seq, chars_eq, chars_of, opt_as_str, opt_str_view,
    opt_view, string_chars, string_of, to_ascii_lower, trim, trim_spec, vec_views,
};

verus! {

/// Whether two texts are equal ignoring ASCII case.
pub open spec fn eq_ignore_case_spec(a: Seq<char>, b: Seq<char>) -> bool {
    ascii_lower_seq(a) == ascii_lower_seq(b)
}

/// Whether two texts are equal ignoring ASCII case (`eq_ignore_ascii_case`).
pub fn eq_ignore_ascii_case(a: &str, b: &str) -> (r: bool)
    ensures
        r == eq_ignore_case_spec(a@, b@),
{
    let la = to_ascii_lower(chars_of(a).as_slice());
    let lb = to_ascii_lower(chars_of(b).as_slice());
    chars_eq(la.as_slice(), lb.as_slice())
}

/// What the process knows of its terminal.
#[derive(Clone, Debug, PartialEq, Eq)]
pub struct TerminalInfo {
    pub stdin_is_terminal: bool,
    pub stdout_is_terminal: bool,
    pub term: Option<String>,
    pub term_program: Option<String>,
    pub zellij_session: Option<String>,
}

/// Whether `TERM` names the dumb terminal.
pub open spec fn dumb_spec(t: TerminalInfo) -> bool {
    t.term matches Some(v) && eq_ignore_case_spec(v@, "dumb"@)
}

/// Whether the process runs inside a Zellij session.
pub open spec fn zellij_spec(t: TerminalInfo) -> bool {
    t.zellij_session matches Some(v) && trim_spec(v@).len() > 0
}

/// Whether the interactive front-end can run.
pub open spec fn interactive_spec(t: TerminalInfo) -> bool {
    t.stdin_is_terminal && t.stdout_is_terminal && !dumb_spec(t)
}

impl TerminalInfo {
    pub fn from_env(
        stdin_is_terminal: bool,
        stdout_is_terminal: bool,
        term: Option<String>,
        term_program: Option<String>,
        zellij_session: Option<String>,
    ) -> (r: Self)
        ensures
            r == (TerminalInfo {
                stdin_is_terminal,
                stdout_is_terminal,
                term,
                term_program,
                zellij_session,
            }),
    {
        TerminalInfo { stdin_is_terminal, stdout_is_terminal, term, term_program, zellij_session }
    }

    /// Both standard streams are terminals and the terminal is not dumb.
    pub fn supports_interactive_ui(&self) -> (r: bool)
        ensures
            r == interactive_spec(*self),
    {
        self.stdin_is_terminal && self.stdout_is_terminal && !self.is_dumb_terminal()
    }

    /// The alternate screen is used when the front-end runs, it was not
    /// turned off, and the terminal is not Zellij.
    pub fn should_use_alt_screen(&self, no_alt_screen: bool) -> (r: bool)
        ensures
            r == (interactive_spec(*self) && !no_alt_screen && !zellij_spec(*self)),
    {
        self.supports_interactive_ui() && !no_alt_screen && !self.is_zellij()
    }

    pub fn is_dumb_terminal(&self) -> (r: bool)
        ensures
            r == dumb_spec(*self),
    {
        match &self.term {
            Some(t) => eq_ignore_ascii_case(t.as_str(), "dumb"),
            None => false,
        }
    }

    pub fn is_zellij(&self) -> (r: bool)
        ensures
            r == zellij_spec(*self),
    {
        match &self.zellij_session {
            Some(v) => trim(v.as_str()).len() > 0,
            None => false,
        }
    }

    pub fn term_program(&self) -> (r: Option<&str>)
        ensures
            opt_str_view(r) == opt_view(self.term_program),
    {
        opt_as_str(&self.term_program)
    }
}

/// Whether output is styled with ANSI escapes or printed plain.
#[derive(Clone, Copy, Debug, PartialEq, Eq, Structural)]
pub enum RenderMode {
    Ansi,
    Plain,
}

/// The render mode a `QUICKBRIDGE_RENDER_MODE` setting selects: ANSI only
/// when it says `ansi`.
pub fn render_mode(setting: Option<&str>) -> (r: RenderMode)
    ensures
        r == (if setting matches Some(v) && eq_ignore_case_spec(v@, "ansi"@) {
            RenderMode::Ansi
        } else {
            RenderMode::Plain
        }),
{
    match setting {
        Some(v) => if eq_ignore_ascii_case(v, "ansi") {
            RenderMode::Ansi
        } else {
            RenderMode::Plain
        },
        None => RenderMode::Plain,
    }
}

/// The render mode of the line-based prompt: plain only when the setting
/// says `plain`.
pub fn prompt_render_mode(setting: Option<&str>) -> (r: RenderMode)
    ensures
        r == (if setting matches Some(v) && eq_ignore_case_spec(v@, "plain"@) {
            RenderMode::Plain
        } else {
            RenderMode::Ansi
        }),
{
    match setting {
        Some(v) => if eq_ignore_ascii_case(v, "plain") {
            RenderMode::Plain
        } else {
            RenderMode::Ansi
        },
        None => RenderMode::Ansi,
    }
}

/// Text in bold.
pub fn emphasize(text: &str, mode: RenderMode) -> (r: String)
    ensures
        r@ == match mode {
            RenderMode::Ansi => "\x1b[1m"@ + text@ + "\x1b[0m"@,
            RenderMode::Plain => text@,
        },
{
    let mut out: Vec<char> = Vec::new();
    match mode {
        RenderMode::Ansi => {
            append_str(&mut out, "\x1b[1m");
            append_str(&mut out, text);
            append_str(&mut out, "\x1b[0m");
        },
        RenderMode::Plain => append_str(&mut out, text),
    }
    string_of(out.as_slice())
}

/// Text in grey.
pub fn muted(text: &str, mode: RenderMode) -> (r: String)
    ensures
        r@ == match mode {
            RenderMode::Ansi => "\x1b[90m"@ + text@ + "\x1b[0m"@,
            RenderMode::Plain => text@,
        },
{
    let mut out: Vec<char> = Vec::new();
    match mode {
        RenderMode::Ansi => {
            append_str(&mut out, "\x1b[90m");
            append_str(&mut out, text);
            append_str(&mut out, "\x1b[0m");
        },
        RenderMode::Plain => append_str(&mut out, text),
    }
    string_of(out.as_slice())
}

/// A warning line, its `[WARN]` tag styled in ANSI mode.
pub fn format_warning(text: &str, mode: RenderMode) -> (r: String)
    ensures
        r@ == match mode {
            RenderMode::Ansi => "\x1b[1;38;5;136m[WARN]\x1b[0m "@ + text@,
            RenderMode::Plain => "[WARN] "@ + text@,
        },
{
    let mut out: Vec<char> = Vec::new();
    match mode {
        RenderMode::Ansi => append_str(&mut out, "\x1b[1;38;5;136m[WARN]\x1b[0m "),
        RenderMode::Plain => append_str(&mut out, "[WARN] "),
    }
    append_str(&mut out, text);
    string_of(out.as_slice())
}

/// Why the process cannot run interactively.
#[derive(Clone, Copy, Debug, PartialEq, Eq, Structural)]
pub enum TerminalError {
    NotInteractive,
}

impl TerminalError {
    pub fn message(&self) -> (r: &'static str)
        ensures
            r@
                == "quickbridge requires an interactive terminal. Run it from Terminal, iTerm, or another local shell session"@,
    {
        "quickbridge requires an interactive terminal. Run it from Terminal, iTerm, or another local shell session"
    }
}

/// Interactive use needs both standard streams to be terminals.
pub fn validate_terminal(stdin_is_terminal: bool, stdout_is_terminal: bool) -> (r: Result<
    (),
    TerminalError,
>)
    ensures
        r is Ok <==> (stdin_is_terminal && stdout_is_terminal),
{
    if stdin_is_terminal && stdout_is_terminal {
        Ok(())
    } else {
        Err(TerminalError::NotInteractive)
    }
}

/// The spinner frame for `i`.
pub open spec fn frame_spec(i: nat) -> Seq<char> {
    let k = i % 10;
    if k == 0 {
        "⠋"@
    } else if k == 1 {
        "⠙"@
    } else if k == 2 {
        "⠹"@
    } else if k == 3 {
        "⠸"@
    } else if k == 4 {
        "⠼"@
    } else if k == 5 {
        "⠴"@
    } else if k == 6 {
        "⠦"@
    } else if k == 7 {
        "⠧"@
    } else if k == 8 {
        "⠇"@
    } else {
        "⠏"@
    }
}

/// How many spinner frames there are.
pub fn active_frame_count() -> (r: usize)
    ensures
        r == 10,
{
    10
}

/// The spinner frame for `index`, taken modulo the frame count.
pub fn active_frame(index: usize) -> (r: &'static str)
    ensures
        r@ == frame_spec(index as nat),
{
    let k = index % 10;
    if k == 0 {
        "⠋"
    } else if k == 1 {
        "⠙"
    } else if k == 2 {
        "⠹"
    } else if k == 3 {
        "⠸"
    } else if k == 4 {
        "⠼"
    } else if k == 5 {
        "⠴"
    } else if k == 6 {
        "⠦"
    } else if k == 7 {
        "⠧"
    } else if k == 8 {
        "⠇"
    } else {
        "⠏"
    }
}

/// The state of one step of a progress block.
#[derive(Clone, Copy, Debug, PartialEq, Eq, Structural)]
pub enum StepState {
    Pending,
    Active,
    Done,
    Warn,
}

/// The label of a step in each of its states.
#[derive(Clone, Copy, Debug, PartialEq, Eq)]
pub struct StepLabels {
    pub pending: &'static str,
    pub active: &'static str,
    pub done: &'static str,
    pub warn: &'static str,
}

impl StepLabels {
    /// Labels whose warning label is the done label.
    pub fn new(pending: &'static str, active: &'static str, done: &'static str) -> (r: Self)
        ensures
            r == (StepLabels { pending, active, done, warn: done }),
    {
        StepLabels { pending, active, done, warn: done }
    }

    pub fn with_warn(
        pending: &'static str,
        active: &'static str,
        done: &'static str,
        warn: &'static str,
    ) -> (r: Self)
        ensures
            r == (StepLabels { pending, active, done, warn }),
    {
        StepLabels { pending, active, done, warn }
    }

    /// The label for `state`.
    pub fn for_state(&self, state: StepState) -> (r: &'static str)
        ensures
            r == match state {
                StepState::Pending => self.pending,
                StepState::Active => self.active,
                StepState::Done => self.done,
                StepState::Warn => self.warn,
            },
    {
        match state {
            StepState::Pending => self.pending,
            StepState::Active => self.active,
            StepState::Done => self.done,
            StepState::Warn => self.warn,
        }
    }
}

/// One step of a progress block.
#[derive(Clone, Debug, PartialEq, Eq)]
pub struct StepLine {
    pub labels: StepLabels,
    pub state: StepState,
    pub detail_lines: Vec<String>,
}

impl StepLine {
    pub fn new(labels: StepLabels) -> (r: Self)
        ensures
            r.labels == labels,
            r.state == StepState::Pending,
            r.detail_lines@.len() == 0,
    {
        StepLine { labels, state: StepState::Pending, detail_lines: Vec::new() }
    }
}


/// A titled block of steps, shown while a stage runs.
#[derive(Clone, Debug, PartialEq, Eq)]
pub struct StageProgress {
    pub mode: RenderMode,
    pub title: String,
    pub steps: Vec<StepLine>,
    pub active_step: Option<usize>,
    pub frame_index: usize,
    pub verbose: bool,
}

/// The details a step keeps: all of them when verbose, none otherwise.
pub open spec fn kept_details(verbose: bool, details: Seq<String>) -> Seq<String> {
    if verbose {
        details
    } else {
        Seq::empty()
    }
}

/// Replaces step `i` of `steps` by `f(step)`.
fn update_step(steps: &mut Vec<StepLine>, i: usize, state: StepState, details: Vec<String>)
    requires
        i < old(steps)@.len(),
    ensures
        final(steps)@.len() == old(steps)@.len(),
        final(steps)@[i as int].labels == old(steps)@[i as int].labels,
        final(steps)@[i as int].state == state,
        final(steps)@[i as int].detail_lines == details,
        forall|j: int| 0 <= j < final(steps)@.len() && j != i ==> #[trigger] final(steps)@[j] == old(steps)@[j],
{
    let old_line = steps.remove(i);
    steps.insert(i, StepLine { labels: old_line.labels, state, detail_lines: details });
}

impl StageProgress {
    /// A block titled `title` with every step pending.
    pub fn new(title: &str, steps: &[StepLabels], verbose: bool, mode: RenderMode) -> (r: Self)
        ensures
            r.title@ == title@,
            r.steps@.len() == steps@.len(),
            forall|i: int|
                0 <= i < steps@.len() ==> (#[trigger] r.steps@[i]).labels == steps@[i]
                    && r.steps@[i].state == StepState::Pending && r.steps@[i].detail_lines@.len()
                    == 0,
            r.active_step is None,
            r.frame_index == 0,
            r.verbose == verbose,
            r.mode == mode,
    {
        let mut lines: Vec<StepLine> = Vec::new();
        let mut i: usize = 0;
        while i < steps.len()
            invariant
                i <= steps@.len(),
                lines@.len() == i,
                forall|j: int|
                    0 <= j < i ==> (#[trigger] lines@[j]).labels == steps@[j] && lines@[j].state
                        == StepState::Pending && lines@[j].detail_lines@.len() == 0,
            decreases steps@.len() - i,
        {
            lines.push(StepLine::new(steps[i]));
            i = i + 1;
        }
        StageProgress {
            mode,
            title: title.to_owned(),
            steps: lines,
            active_step: None,
            frame_index: 0,
            verbose,
        }
    }

    /// Makes step `index` the active one; the previously active step loses
    /// its details and, if still active, goes back to pending.
    pub fn activate(&mut self, index: usize, detail_lines: Vec<String>)
        requires
            index < old(self).steps@.len(),
            old(self).active_step matches Some(p) ==> p < old(self).steps@.len(),
        ensures
            final(self).active_step == Some(index),
            final(self).steps@.len() == old(self).steps@.len(),
            final(self).steps@[index as int].state == StepState::Active,
            final(self).steps@[index as int].detail_lines@ == kept_details(
                old(self).verbose,
                detail_lines@,
            ),
            forall|j: int|
                0 <= j < final(self).steps@.len() && j != index ==> (#[trigger] final(self).steps@[j]).labels
                    == old(self).steps@[j].labels,
            forall|j: int|
                0 <= j < final(self).steps@.len() && j != index && old(self).active_step != Some(
                    j as usize,
                ) ==> #[trigger] final(self).steps@[j] == old(self).steps@[j],
            old(self).active_step matches Some(p) ==> (p != index ==> final(self).steps@[p as int].detail_lines@.len()
                == 0 && final(self).steps@[p as int].state == (if old(self).steps@[p as int].state
                == StepState::Active {
                StepState::Pending
            } else {
                old(self).steps@[p as int].state
            })),
            final(self).title == old(self).title,
            final(self).frame_index == old(self).frame_index,
            final(self).verbose == old(self).verbose,
            final(self).mode == old(self).mode,
    {
        if let Some(previous) = self.active_step {
            let state = if self.steps[previous].state == StepState::Active {
                StepState::Pending
            } else {
                self.steps[previous].state
            };
            update_step(&mut self.steps, previous, state, Vec::new());
        }
        let kept = if self.verbose {
            detail_lines
        } else {
            Vec::new()
        };
        update_step(&mut self.steps, index, StepState::Active, kept);
        self.active_step = Some(index);
    }

    /// Marks step `index` done.
    pub fn complete(&mut self, index: usize)
        requires
            index < old(self).steps@.len(),
        ensures
            final(self).steps@.len() == old(self).steps@.len(),
            final(self).steps@[index as int].state == StepState::Done,
            final(self).steps@[index as int].labels == old(self).steps@[index as int].labels,
            final(self).steps@[index as int].detail_lines@.len() == 0,
            forall|j: int|
                0 <= j < final(self).steps@.len() && j != index ==> #[trigger] final(self).steps@[j]
                    == old(self).steps@[j],
            final(self).active_step == (if old(self).active_step == Some(index) {
                None
            } else {
                old(self).active_step
            }),
            final(self).title == old(self).title,
            final(self).frame_index == old(self).frame_index,
            final(self).verbose == old(self).verbose,
            final(self).mode == old(self).mode,
    {
        update_step(&mut self.steps, index, StepState::Done, Vec::new());
        if self.active_step == Some(index) {
            self.active_step = None;
        }
    }

    /// Marks step `index` as finished with a warning.
    pub fn warn(&mut self, index: usize, detail_lines: Vec<String>)
        requires
            index < old(self).steps@.len(),
        ensures
            final(self).steps@.len() == old(self).steps@.len(),
            final(self).steps@[index as int].state == StepState::Warn,
            final(self).steps@[index as int].labels == old(self).steps@[index as int].labels,
            final(self).steps@[index as int].detail_lines@ == kept_details(
                old(self).verbose,
                detail_lines@,
            ),
            forall|j: int|
                0 <= j < final(self).steps@.len() && j != index ==> #[trigger] final(self).steps@[j]
                    == old(self).steps@[j],
            final(self).active_step == (if old(self).active_step == Some(index) {
                None
            } else {
                old(self).active_step
            }),
            final(self).title == old(self).title,
            final(self).frame_index == old(self).frame_index,
            final(self).verbose == old(self).verbose,
            final(self).mode == old(self).mode,
    {
        let kept = if self.verbose {
            detail_lines
        } else {
            Vec::new()
        };
        update_step(&mut self.steps, index, StepState::Warn, kept);
        if self.active_step == Some(index) {
            self.active_step = None;
        }
    }

    /// Advances the spinner, except in plain mode.
    pub fn tick(&mut self)
        ensures
            final(self).frame_index == (if old(self).mode == RenderMode::Plain {
                old(self).frame_index as int
            } else {
                (old(self).frame_index + 1) % 10
            }),
            final(self).steps == old(self).steps,
            final(self).active_step == old(self).active_step,
            final(self).title == old(self).title,
            final(self).verbose == old(self).verbose,
            final(self).mode == old(self).mode,
    {
        if self.mode == RenderMode::Plain {
            return;
        }
        let f = self.frame_index;
        self.frame_index = (f % 10 + 1) % 10;
        assert((f % 10 + 1) % 10 == (f + 1) % 10) by (nonlinear_arith);
    }

    /// Ends the stage: no step is active any more.
    pub fn finish(&mut self)
        ensures
            final(self).active_step is None,
            final(self).steps == old(self).steps,
            final(self).frame_index == old(self).frame_index,
            final(self).title == old(self).title,
    {
        self.active_step = None;
    }

    /// The lines of the block: the title, then each step with its marker and,
    /// when verbose, its details indented.
    pub fn render_lines(&self) -> (r: Vec<String>)
        ensures
            string_views(r@) == stage_lines_spec(*self),
    {
        let mut out: Vec<String> = Vec::new();
        out.push(emphasize(self.title.as_str(), self.mode));
        let ghost frame = self.frame_index as nat;
        assert(string_views(out@) =~= seq![emphasized(self.title@, self.mode)]);
        assert(self.steps@.subrange(0, 0) =~= Seq::<StepLine>::empty());
        let mut i: usize = 0;
        while i < self.steps.len()
            invariant
                i <= self.steps@.len(),
                frame == self.frame_index as nat,
                string_views(out@) == seq![emphasized(self.title@, self.mode)] + steps_lines(
                    self.steps@.subrange(0, i as int),
                    frame,
                    self.verbose,
                ),
            decreases self.steps@.len() - i,
        {
            let step = &self.steps[i];
            let ghost before = string_views(out@);
            let label = step.labels.for_state(step.state);
            let mut line: Vec<char> = Vec::new();
            match step.state {
                StepState::Pending => append_str(&mut line, "○ "),
                StepState::Done => append_str(&mut line, "✓ "),
                StepState::Warn => append_str(&mut line, "! "),
                StepState::Active => {
                    append_str(&mut line, active_frame(self.frame_index));
                    append_str(&mut line, " ");
                },
            }
            append_str(&mut line, label);
            assert(line@ =~= step_marker(step.state, frame) + label@);
            out.push(string_of(line.as_slice()));
            assert(string_views(out@) =~= before + seq![step_marker(step.state, frame) + label@]);
            if self.verbose {
                let mut k: usize = 0;
                while k < step.detail_lines.len()
                    invariant
                        k <= step.detail_lines@.len(),
                        string_views(out@) == before + seq![step_marker(step.state, frame) + label@]
                            + indented(step.detail_lines@.subrange(0, k as int)),
                    decreases step.detail_lines@.len() - k,
                {
                    let ghost mid = string_views(out@);
                    let mut d: Vec<char> = Vec::new();
                    append_str(&mut d, "      ");
                    append_chars(&mut d, string_chars(&step.detail_lines[k]).as_slice());
                    out.push(string_of(d.as_slice()));
                    assert(indented(step.detail_lines@.subrange(0, k + 1)) =~= indented(
                        step.detail_lines@.subrange(0, k as int),
                    ).push("      "@ + step.detail_lines@[k as int]@));
                    assert(string_views(out@) =~= mid.push("      "@ + step.detail_lines@[k as int]@));
                    k = k + 1;
                }
                assert(step.detail_lines@.subrange(0, step.detail_lines@.len() as int)
                    =~= step.detail_lines@);
            } else {
                assert(string_views(out@) =~= before + seq![step_marker(step.state, frame) + label@]
                    + Seq::<Seq<char>>::empty());
            }
            assert(self.steps@.subrange(0, i + 1).drop_last() =~= self.steps@.subrange(0, i as int));
            assert(self.steps@.subrange(0, i + 1).last() == *step);
            assert(string_views(out@) =~= before + step_lines(*step, frame, self.verbose));
            i = i + 1;
        }
        assert(self.steps@.subrange(0, self.steps@.len() as int) =~= self.steps@);
        out
    }
}

/// Text in bold in ANSI mode.
pub open spec fn emphasized(text: Seq<char>, mode: RenderMode) -> Seq<char> {
    match mode {
        RenderMode::Ansi => "\x1b[1m"@ + text + "\x1b[0m"@,
        RenderMode::Plain => text,
    }
}

/// The marker in front of a step: a circle, a check, a bang, or the spinner
/// frame when active, then a space.
pub open spec fn step_marker(state: StepState, frame: nat) -> Seq<char> {
    match state {
        StepState::Pending => "○ "@,
        StepState::Done => "✓ "@,
        StepState::Warn => "! "@,
        StepState::Active => frame_spec(frame) + " "@,
    }
}

/// Detail lines indented by six spaces.
pub open spec fn indented(details: Seq<String>) -> Seq<Seq<char>> {
    Seq::new(details.len(), |k: int| "      "@ + details[k]@)
}

/// The label of a step in its state.
pub open spec fn label_for(labels: StepLabels, state: StepState) -> Seq<char> {
    match state {
        StepState::Pending => labels.pending@,
        StepState::Active => labels.active@,
        StepState::Done => labels.done@,
        StepState::Warn => labels.warn@,
    }
}

/// The lines of one step: its marker and label, then its details when verbose.
pub open spec fn step_lines(step: StepLine, frame: nat, verbose: bool) -> Seq<Seq<char>> {
    seq![step_marker(step.state, frame) + label_for(step.labels, step.state)] + if verbose {
        indented(step.detail_lines@)
    } else {
        Seq::empty()
    }
}

/// The lines of the steps, in order.
pub open spec fn steps_lines(steps: Seq<StepLine>, frame: nat, verbose: bool) -> Seq<Seq<char>>
    decreases steps.len(),
{
    if steps.len() == 0 {
        Seq::empty()
    } else {
        steps_lines(steps.drop_last(), frame, verbose) + step_lines(steps.last(), frame, verbose)
    }
}

/// What a progress block shows: its emphasized title, then each step.
pub open spec fn stage_lines_spec(s: StageProgress) -> Seq<Seq<char>> {
    seq![emphasized(s.title@, s.mode)] + steps_lines(s.steps@, s.frame_index as nat, s.verbose)
}

/// A single spinning line shown while one step runs.
#[derive(Clone, Copy, Debug, PartialEq, Eq, Structural)]
pub struct LiveStepProgress {
    pub mode: RenderMode,
    pub frame_index: usize,
}

impl LiveStepProgress {
    pub fn new(mode: RenderMode) -> (r: Self)
        ensures
            r.mode == mode,
            r.frame_index == 0,
    {
        LiveStepProgress { mode, frame_index: 0 }
    }

    /// The line shown for `label`: the current spinner frame and the label.
    pub fn show_active(&self, label: &str) -> (r: String)
        ensures
            r@ == frame_spec(self.frame_index as nat) + " "@ + label@,
    {
        let mut out: Vec<char> = Vec::new();
        append_str(&mut out, active_frame(self.frame_index));
        append_str(&mut out, " ");
        append_str(&mut out, label);
        string_of(out.as_slice())
    }

    /// Advances the spinner, except in plain mode.
    pub fn tick(&mut self)
        ensures
            final(self).mode == old(self).mode,
            final(self).frame_index == (if old(self).mode == RenderMode::Plain {
                old(self).frame_index as int
            } else {
                (old(self).frame_index + 1) % 10
            }),
    {
        if self.mode == RenderMode::Plain {
            return;
        }
        let f = self.frame_index;
        self.frame_index = (f % 10 + 1) % 10;
        assert((f % 10 + 1) % 10 == (f + 1) % 10) by (nonlinear_arith);
    }
}

/// The lines of the live prompt block: the warning if any, the playback
/// time, and in ANSI mode the input line.
pub open spec fn prompt_lines_spec(
    mode: RenderMode,
    warning: Option<Seq<char>>,
    playback_time: Seq<char>,
    input: Seq<char>,
) -> Seq<Seq<char>> {
    let head = match warning {
        Some(w) => seq![w],
        None => Seq::empty(),
    };
    match mode {
        RenderMode::Plain => head.push(playback_time),
        RenderMode::Ansi => head.push(playback_time).push("$ "@ + input),
    }
}

/// The lines of the live prompt block.
pub fn live_prompt_lines(mode: RenderMode, warning_line: Option<&str>, playback_time: &str, input_buffer: &str) -> (r:
    Vec<Vec<char>>)
    ensures
        vec_views(r@) == prompt_lines_spec(mode, opt_str_view(warning_line), playback_time@, input_buffer@),
{
    let mut lines: Vec<Vec<char>> = Vec::new();
    if let Some(w) = warning_line {
        crate::strings::push_line(&mut lines, chars_of(w));
    }
    crate::strings::push_line(&mut lines, chars_of(playback_time));
    if mode == RenderMode::Ansi {
        let mut input: Vec<char> = Vec::new();
        append_str(&mut input, "$ ");
        append_str(&mut input, input_buffer);
        crate::strings::push_line(&mut lines, input);
    }
    assert(vec_views(lines@) =~= prompt_lines_spec(
        mode,
        opt_str_view(warning_line),
        playback_time@,
        input_buffer@,
    ));
    lines
}

/// The column of the cursor after the prompt and the input, when it fits.
pub fn prompt_column(input_buffer: &str) -> (r: Option<u16>)
    ensures
        r == (if 2 + input_buffer@.len() <= u16::MAX {
            Some((2 + input_buffer@.len()) as u16)
        } else {
            None
        }),
{
    let n = input_buffer.unicode_len();
    if n <= 65533 {
        Some((n + 2) as u16)
    } else {
        None
    }
}

} // verus!
