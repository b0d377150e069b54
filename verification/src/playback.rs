//! Playback sessions as the user sees them, and the decisions of switching
//! the relay to a new timestamp: staging, refreshing the player, committing
//! or rolling back.

use vstd::prelude::*;
use crate::session::{
    Moment, SessionPaths, SessionState, SessionStateError, abort_spec, commit_spec, estimated_spec,
    stage_spec,
};
use crate::simulation::{SimulationScenario, scenario_label};
use crate::strings::{append_decimal, append_str, decimal, string_of};
use crate::timecode::{Timecode, apply_delta_spec};

verus! {

/// Selects whether playback uses the real system integrations or a simulation.
#[derive(Clone, Copy, Debug, PartialEq, Eq, Structural)]
pub enum PlaybackMode {
    Live,
    Simulated(SimulationScenario),
}

impl PlaybackMode {
    /// `Live`, or `Simulation (scenario)`.
    pub fn label(&self) -> (r: String)
        ensures
            r@ == match *self {
                PlaybackMode::Live => "Live"@,
                PlaybackMode::Simulated(s) => "Simulation ("@ + scenario_label(s) + ")"@,
            },
    {
        match self {
            PlaybackMode::Live => "Live".to_owned(),
            PlaybackMode::Simulated(s) => {
                let mut out: Vec<char> = Vec::new();
                append_str(&mut out, "Simulation (");
                append_str(&mut out, s.label());
                append_str(&mut out, ")");
                string_of(out.as_slice())
            },
        }
    }
}

/// Startup details needed by callers for user-facing output.
#[derive(Clone, Debug, PartialEq, Eq)]
pub struct StartOutcome {
    pub relay_command: String,
    pub stream_url: String,
}

impl StartOutcome {
    pub fn new(relay_command: String, stream_url: String) -> (r: Self)
        ensures
            r.relay_command == relay_command,
            r.stream_url == stream_url,
    {
        StartOutcome { relay_command, stream_url }
    }

    pub fn relay_command(&self) -> (r: &str)
        ensures
            r@ == self.relay_command@,
    {
        self.relay_command.as_str()
    }

    pub fn stream_url(&self) -> (r: &str)
        ensures
            r@ == self.stream_url@,
    {
        self.stream_url.as_str()
    }
}

/// Live telemetry derived from the current relay session.
#[derive(Clone, Copy, Debug, PartialEq, Eq, Structural)]
pub struct StreamTelemetry {
    pub relay_write_bytes_per_second: u64,
    pub storage_bytes: u64,
    pub buffer_ahead: Timecode,
}

impl Default for StreamTelemetry {
    fn default() -> (r: Self)
        ensures
            r == (StreamTelemetry {
                relay_write_bytes_per_second: 0,
                storage_bytes: 0,
                buffer_ahead: Timecode { seconds: 0 },
            }),
    {
        StreamTelemetry {
            relay_write_bytes_per_second: 0,
            storage_bytes: 0,
            buffer_ahead: Timecode { seconds: 0 },
        }
    }
}

impl StreamTelemetry {
    pub fn new(relay_write_bytes_per_second: u64, storage_bytes: u64, buffer_ahead: Timecode) -> (r:
        Self)
        ensures
            r == (StreamTelemetry { relay_write_bytes_per_second, storage_bytes, buffer_ahead }),
    {
        StreamTelemetry { relay_write_bytes_per_second, storage_bytes, buffer_ahead }
    }

    pub fn relay_write_bytes_per_second(self) -> (r: u64)
        ensures
            r == self.relay_write_bytes_per_second,
    {
        self.relay_write_bytes_per_second
    }

    pub fn storage_bytes(self) -> (r: u64)
        ensures
            r == self.storage_bytes,
    {
        self.storage_bytes
    }

    pub fn buffer_ahead(self) -> (r: Timecode)
        ensures
            r == self.buffer_ahead,
    {
        self.buffer_ahead
    }
}

/// The current QuickTime-facing playback state.
#[derive(Clone, Copy, Debug, PartialEq, Eq, Structural)]
pub enum PlayerState {
    Playing,
    Paused,
    WindowClosed,
    AppClosed,
    Unavailable,
}

/// Process exit result for quickbridge runs.
#[derive(Clone, Copy, Debug, PartialEq, Eq, Structural)]
pub enum RunOutcome {
    Completed,
    Interrupted,
}

/// A stable view of the active playback session.
#[derive(Clone, Debug, PartialEq, Eq)]
pub struct PlaybackSnapshot {
    pub session_id: u64,
    pub stream_url: String,
    pub start_time: Timecode,
    pub current_time: Timecode,
    pub player_state: PlayerState,
    pub telemetry: StreamTelemetry,
}

impl PlaybackSnapshot {
    pub fn new(
        session_id: u64,
        stream_url: String,
        start_time: Timecode,
        current_time: Timecode,
        player_state: PlayerState,
        telemetry: StreamTelemetry,
    ) -> (r: Self)
        ensures
            r == (PlaybackSnapshot {
                session_id,
                stream_url,
                start_time,
                current_time,
                player_state,
                telemetry,
            }),
    {
        PlaybackSnapshot { session_id, stream_url, start_time, current_time, player_state, telemetry }
    }

    pub fn session_id(&self) -> (r: u64)
        ensures
            r == self.session_id,
    {
        self.session_id
    }

    pub fn stream_url(&self) -> (r: &str)
        ensures
            r@ == self.stream_url@,
    {
        self.stream_url.as_str()
    }

    pub fn start_time(&self) -> (r: Timecode)
        ensures
            r == self.start_time,
    {
        self.start_time
    }

    pub fn current_time(&self) -> (r: Timecode)
        ensures
            r == self.current_time,
    {
        self.current_time
    }

    pub fn player_state(&self) -> (r: PlayerState)
        ensures
            r == self.player_state,
    {
        self.player_state
    }

    pub fn telemetry(&self) -> (r: StreamTelemetry)
        ensures
            r == self.telemetry,
    {
        self.telemetry
    }

    /// A copy of the snapshot.
    pub fn duplicate(&self) -> (r: Self)
        ensures
            r == *self,
    {
        PlaybackSnapshot {
            session_id: self.session_id,
            stream_url: self.stream_url.clone(),
            start_time: self.start_time,
            current_time: self.current_time,
            player_state: self.player_state,
            telemetry: self.telemetry,
        }
    }
}

/// The URL QuickTime plays for session `id` served on `port`.
pub open spec fn stream_url_spec(port: u16, session_id: u64) -> Seq<char> {
    "http://127.0.0.1:"@ + decimal(port as nat) + "/stream.m3u8?session="@ + decimal(
        session_id as nat,
    )
}

/// The URL QuickTime plays for a session.
pub fn render_stream_url(port: u16, session_id: u64) -> (r: String)
    ensures
        r@ == stream_url_spec(port, session_id),
{
    let mut out: Vec<char> = Vec::new();
    append_str(&mut out, "http://127.0.0.1:");
    append_decimal(&mut out, port as u64);
    append_str(&mut out, "/stream.m3u8?session=");
    append_decimal(&mut out, session_id);
    string_of(out.as_slice())
}

/// What QuickTime reported when asked for its status.
#[derive(Clone, Copy, Debug, PartialEq, Eq, Structural)]
pub enum PlayerReading {
    /// A document is open at `position` seconds into the current session.
    Snapshot { position: Timecode, playing: bool },
    NoDocument,
    AppClosed,
    /// The status could not be read.
    Failed,
}

/// The playback a coordinator owns: the active session and what the server,
/// the player and the clock know of it.
#[derive(Clone, Debug, PartialEq, Eq)]
pub struct PlaybackState {
    pub simulated: bool,
    pub port: u16,
    pub active_session: SessionPaths,
    pub session_state: SessionState,
    pub stream_url: String,
    pub last_known_time: Timecode,
    pub last_player_state: PlayerState,
    pub served_dir: Option<String>,
}

/// A switch being prepared: the staging session, the target time, and the
/// URL the player will be pointed at.
#[derive(Clone, Debug, PartialEq, Eq)]
pub struct PendingJump {
    pub staging: SessionPaths,
    pub target: Timecode,
    pub stream_url: String,
}

/// A coherent playback: the server serves the active session, the clock
/// tracks it with nothing staged, and the player is pointed at its URL.
pub open spec fn playback_wf(s: PlaybackState) -> bool {
    &&& s.served_dir == Some(s.active_session.dir)
    &&& s.session_state.active_session_id == s.active_session.id
    &&& s.session_state.staged_session_id is None
    &&& s.session_state.staged_offset is None
    &&& s.stream_url@ == stream_url_spec(s.port, s.active_session.id)
}

/// The state once a switch to `p` is staged.
pub open spec fn staged_state(s: PlaybackState, p: PendingJump) -> PlaybackState {
    PlaybackState { session_state: stage_spec(s.session_state, p.staging.id, p.target), ..s }
}

/// The state once staging failed: the staged switch is dropped.
pub open spec fn staging_failed_state(s: PlaybackState) -> PlaybackState {
    PlaybackState { session_state: abort_spec(s.session_state), ..s }
}

/// The state once the staging session is ready: the server serves it.
pub open spec fn staging_ready_state(s: PlaybackState, p: PendingJump) -> PlaybackState {
    PlaybackState { served_dir: Some(p.staging.dir), ..s }
}

/// The state once the player refused the new stream: the server serves the
/// active session again and the staged switch is dropped.
pub open spec fn reload_failed_state(s: PlaybackState) -> PlaybackState {
    PlaybackState {
        served_dir: Some(s.active_session.dir),
        session_state: abort_spec(s.session_state),
        ..s
    }
}

/// The state once the player plays the new stream: the staging session
/// becomes the active one, from `now`, at the target time.
pub open spec fn switched_state(s: PlaybackState, p: PendingJump, now: Moment) -> PlaybackState {
    PlaybackState {
        active_session: p.staging,
        stream_url: p.stream_url,
        session_state: commit_spec(s.session_state, now).0,
        last_known_time: p.target,
        ..s
    }
}

/// The position and player state a reading of QuickTime gives.
pub open spec fn live_reading_spec(s: PlaybackState, reading: PlayerReading) -> (Timecode, PlayerState) {
    match reading {
        PlayerReading::Snapshot { position, playing } => (
            Timecode {
                seconds: apply_delta_spec(
                    s.session_state.committed_offset@,
                    (position.seconds as i64) as int,
                ) as u64,
            },
            if playing {
                PlayerState::Playing
            } else {
                PlayerState::Paused
            },
        ),
        PlayerReading::NoDocument => (s.last_known_time, PlayerState::WindowClosed),
        PlayerReading::AppClosed => (s.last_known_time, PlayerState::AppClosed),
        PlayerReading::Failed => (s.last_known_time, PlayerState::Unavailable),
    }
}

/// What QuickTime reports decides the shown state: a document that plays is
/// `Playing` and one that does not is `Paused`, at the committed offset
/// plus the document's position (saturating); without a document, with
/// the app closed, or without an answer, the last known time stays and
/// the state says which.
pub proof fn lemma_live_reading_follows_player(s: PlaybackState, reading: PlayerReading)
    ensures
        ({
            let (time, state) = live_reading_spec(s, reading);
            match reading {
                PlayerReading::Snapshot { position, playing } => {
                    &&& (playing ==> state == PlayerState::Playing)
                    &&& (!playing ==> state == PlayerState::Paused)
                    &&& position.seconds <= i64::MAX ==> time.seconds == (if s.session_state.committed_offset.seconds
                        + position.seconds > u64::MAX {
                        u64::MAX as int
                    } else {
                        s.session_state.committed_offset.seconds + position.seconds
                    })
                },
                PlayerReading::NoDocument => time == s.last_known_time && state
                    == PlayerState::WindowClosed,
                PlayerReading::AppClosed => time == s.last_known_time && state == PlayerState::AppClosed,
                PlayerReading::Failed => time == s.last_known_time && state == PlayerState::Unavailable,
            }
        }),
{
}

impl PlaybackState {
    /// The playback right after startup: `session` plays from `start_at` since
    /// `now`; a simulated player counts as playing, a live one as unknown.
    pub fn start(simulated: bool, port: u16, session: SessionPaths, start_at: Timecode, now: Moment) -> (r:
        Self)
        ensures
            playback_wf(r),
            r.simulated == simulated,
            r.port == port,
            r.active_session == session,
            r.session_state.committed_offset == start_at,
            r.session_state.activated_at == now,
            r.last_known_time == start_at,
            r.last_player_state == (if simulated {
                PlayerState::Playing
            } else {
                PlayerState::Unavailable
            }),
    {
        let stream_url = render_stream_url(port, session.id);
        let session_state = SessionState::new(session.id, start_at, now);
        let served_dir = Some(session.dir.clone());
        PlaybackState {
            simulated,
            port,
            active_session: session,
            session_state,
            stream_url,
            last_known_time: start_at,
            last_player_state: if simulated {
                PlayerState::Playing
            } else {
                PlayerState::Unavailable
            },
            served_dir,
        }
    }

    /// Stages a switch to `staging` at `target`.
    pub fn begin_jump(&mut self, staging: SessionPaths, target: Timecode) -> (r: PendingJump)
        ensures
            r.staging == staging,
            r.target == target,
            r.stream_url@ == stream_url_spec(old(self).port, staging.id),
            *final(self) == staged_state(*old(self), r),
    {
        self.session_state.stage_switch(staging.id, target);
        let stream_url = render_stream_url(self.port, staging.id);
        PendingJump { staging, target, stream_url }
    }

    /// Staging failed: drops the staged switch and hands back the staging
    /// session for removal.
    pub fn staging_failed(&mut self, pending: PendingJump) -> (r: SessionPaths)
        ensures
            r == pending.staging,
            *final(self) == staging_failed_state(*old(self)),
    {
        self.session_state.abort_stage();
        pending.staging
    }

    /// The staging session is ready: the server serves it from now on.
    pub fn staging_ready(&mut self, pending: &PendingJump)
        ensures
            *final(self) == staging_ready_state(*old(self), *pending),
    {
        self.served_dir = Some(pending.staging.dir.clone());
    }

    /// The player refused the new stream: the server serves the active
    /// session again, the staged switch is dropped, and the staging session
    /// is handed back for shutdown and removal.
    pub fn reload_failed(&mut self, pending: PendingJump) -> (r: SessionPaths)
        ensures
            r == pending.staging,
            *final(self) == reload_failed_state(*old(self)),
    {
        self.served_dir = Some(self.active_session.dir.clone());
        self.session_state.abort_stage();
        pending.staging
    }

    /// The player plays the new stream: the staging session becomes active
    /// from `now` at the target time; the previous session is handed back for
    /// cleanup, or the error when nothing was staged.
    pub fn reload_succeeded(&mut self, pending: PendingJump, now: Moment) -> (r: Result<
        SessionPaths,
        SessionStateError,
    >)
        ensures
            commit_spec(old(self).session_state, now).1 is Ok ==> r == Ok::<
                SessionPaths,
                SessionStateError,
            >(old(self).active_session) && *final(self) == switched_state(*old(self), pending, now),
            commit_spec(old(self).session_state, now).1 matches Err(e) ==> r
                == Err::<SessionPaths, SessionStateError>(e) && final(self).session_state
                == commit_spec(old(self).session_state, now).0 && final(self).active_session
                == pending.staging && final(self).stream_url == pending.stream_url,
    {
        let PendingJump { staging, target, stream_url } = pending;
        let mut previous = staging;
        std::mem::swap(&mut self.active_session, &mut previous);
        self.stream_url = stream_url;
        match self.session_state.commit_switch(now) {
            Ok(()) => {},
            Err(e) => return Err(e),
        }
        self.last_known_time = target;
        Ok(previous)
    }

    /// The position and player state QuickTime's reading gives.
    pub fn live_reading(&self, reading: PlayerReading) -> (r: (Timecode, PlayerState))
        ensures
            r == live_reading_spec(*self, reading),
    {
        match reading {
            PlayerReading::Snapshot { position, playing } => {
                let time = self.session_state.committed_offset.apply_delta(position.seconds as i64);
                let state = if playing {
                    PlayerState::Playing
                } else {
                    PlayerState::Paused
                };
                (time, state)
            },
            PlayerReading::NoDocument => (self.last_known_time, PlayerState::WindowClosed),
            PlayerReading::AppClosed => (self.last_known_time, PlayerState::AppClosed),
            PlayerReading::Failed => (self.last_known_time, PlayerState::Unavailable),
        }
    }

    /// The position and player state of a simulation at `now`: the clock's
    /// estimate, always playing.
    pub fn simulated_reading(&self, now: Moment) -> (r: (Timecode, PlayerState))
        ensures
            r.0@ == estimated_spec(self.session_state, now),
            r.1 == PlayerState::Playing,
    {
        (self.session_state.estimated_position(now), PlayerState::Playing)
    }

    /// A fresh snapshot: a simulation reads the clock, a live session the
    /// player's `reading`; the position and player state are remembered.
    pub fn snapshot(&mut self, reading: PlayerReading, now: Moment, telemetry: StreamTelemetry) -> (r:
        PlaybackSnapshot)
        ensures
            ({
                let reads = if old(self).simulated {
                    (
                        Timecode { seconds: estimated_spec(old(self).session_state, now) as u64 },
                        PlayerState::Playing,
                    )
                } else {
                    live_reading_spec(*old(self), reading)
                };
                &&& r == (PlaybackSnapshot {
                    session_id: old(self).session_state.active_session_id,
                    stream_url: old(self).stream_url,
                    start_time: old(self).session_state.committed_offset,
                    current_time: reads.0,
                    player_state: reads.1,
                    telemetry,
                })
                &&& *final(self) == (PlaybackState {
                    last_known_time: reads.0,
                    last_player_state: reads.1,
                    ..*old(self)
                })
            }),
    {
        let (time, state) = if self.simulated {
            self.simulated_reading(now)
        } else {
            self.live_reading(reading)
        };
        self.record_snapshot(time, state, telemetry)
    }

    /// Remembers the last position and player state, and gives the snapshot.
    pub fn record_snapshot(&mut self, current_time: Timecode, player_state: PlayerState, telemetry: StreamTelemetry) -> (r:
        PlaybackSnapshot)
        ensures
            *final(self) == (PlaybackState {
                last_known_time: current_time,
                last_player_state: player_state,
                ..*old(self)
            }),
            r == (PlaybackSnapshot {
                session_id: old(self).session_state.active_session_id,
                stream_url: old(self).stream_url,
                start_time: old(self).session_state.committed_offset,
                current_time,
                player_state,
                telemetry,
            }),
    {
        self.last_known_time = current_time;
        self.last_player_state = player_state;
        PlaybackSnapshot {
            session_id: self.session_state.active_session_id,
            stream_url: self.stream_url.clone(),
            start_time: self.session_state.committed_offset,
            current_time,
            player_state,
            telemetry,
        }
    }
}

/// A failed staging leaves the playback exactly as it was before the jump:
/// same active session, stream URL, clock, and served directory.
pub proof fn lemma_staging_failure_rolls_back(s: PlaybackState, p: PendingJump)
    requires
        playback_wf(s),
    ensures
        staging_failed_state(staged_state(s, p)) == s,
{
}

/// A player that refuses the new stream leaves the playback exactly as it
/// was before the jump: the server serves the active session again.
pub proof fn lemma_reload_failure_rolls_back(s: PlaybackState, p: PendingJump)
    requires
        playback_wf(s),
    ensures
        reload_failed_state(staging_ready_state(staged_state(s, p), p)) == s,
{
}

/// A successful jump makes the staging session active at the target time,
/// from the moment of the switch, and leaves the playback coherent.
pub proof fn lemma_successful_jump_switches(s: PlaybackState, p: PendingJump, now: Moment)
    requires
        playback_wf(s),
        p.stream_url@ == stream_url_spec(s.port, p.staging.id),
    ensures
        commit_spec(staging_ready_state(staged_state(s, p), p).session_state, now).1 is Ok,
        ({
            let t = switched_state(staging_ready_state(staged_state(s, p), p), p, now);
            &&& playback_wf(t)
            &&& t.active_session == p.staging
            &&& t.session_state.committed_offset == p.target
            &&& t.session_state.activated_at == now
            &&& t.last_known_time == p.target
        }),
{
}

} // verus!
