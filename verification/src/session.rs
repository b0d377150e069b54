//! Playback time across relay session switches, and the files of a session.

use vstd::prelude::*;
use crate::paths::{join_path, join_spec};
use crate::strings::{append_decimal, append_str, decimal, push_padded, string_of, zero_pad};
use crate::timecode::{Timecode, apply_delta_spec};

verus! {

/// A reading of a monotonic clock, in nanoseconds from a fixed origin.
#[derive(Clone, Copy, Debug, PartialEq, Eq, Structural)]
pub struct Moment {
    pub nanos: u64,
}

/// Whole seconds from `earlier` to `later`, or zero when `later` is not after it.
pub open spec fn elapsed_secs(earlier: Moment, later: Moment) -> nat {
    if later.nanos >= earlier.nanos {
        ((later.nanos - earlier.nanos) / 1_000_000_000) as nat
    } else {
        0
    }
}

impl Moment {
    pub fn from_nanos(nanos: u64) -> (r: Self)
        ensures
            r.nanos == nanos,
    {
        Moment { nanos }
    }

    /// The reading `secs` seconds later, saturating at the clock's end.
    pub fn plus_secs(self, secs: u64) -> (r: Self)
        ensures
            r.nanos == if self.nanos + secs * 1_000_000_000 > u64::MAX {
                u64::MAX as int
            } else {
                self.nanos + secs * 1_000_000_000
            },
    {
        let step: u64 = if secs > u64::MAX / 1_000_000_000 {
            u64::MAX
        } else {
            secs * 1_000_000_000
        };
        Moment { nanos: self.nanos.saturating_add(step) }
    }

    /// Whole seconds since `earlier`, zero when this reading is not later.
    pub fn saturating_secs_since(self, earlier: Moment) -> (r: u64)
        ensures
            r == elapsed_secs(earlier, self),
    {
        if self.nanos >= earlier.nanos {
            (self.nanos - earlier.nanos) / 1_000_000_000
        } else {
            0
        }
    }
}

/// Tracks playback time across session switches.
#[derive(Clone, Copy, Debug, PartialEq, Eq, Structural)]
pub struct SessionState {
    pub active_session_id: u64,
    pub committed_offset: Timecode,
    pub activated_at: Moment,
    pub staged_session_id: Option<u64>,
    pub staged_offset: Option<Timecode>,
}

/// Errors returned by `SessionState::commit_switch`.
#[derive(Clone, Copy, Debug, PartialEq, Eq, Structural)]
pub enum SessionStateError {
    MissingStagedSession,
    MissingStagedOffset,
}

impl SessionStateError {
    /// The message shown for this error.
    pub fn message(&self) -> (r: &'static str)
        ensures
            r@ == match *self {
                SessionStateError::MissingStagedSession =>
                    "cannot commit a session switch without a staged session"@,
                SessionStateError::MissingStagedOffset =>
                    "cannot commit a session switch without a staged offset"@,
            },
    {
        match self {
            SessionStateError::MissingStagedSession =>
                "cannot commit a session switch without a staged session",
            SessionStateError::MissingStagedOffset =>
                "cannot commit a session switch without a staged offset",
        }
    }
}

/// The playback position at `now`: the committed offset plus the whole
/// seconds since the session became active.
pub open spec fn estimated_spec(s: SessionState, now: Moment) -> nat {
    apply_delta_spec(s.committed_offset@, elapsed_secs(s.activated_at, now) as int)
}

/// The state with a switch to `id` at `offset` staged.
pub open spec fn stage_spec(s: SessionState, id: u64, offset: Timecode) -> SessionState {
    SessionState { staged_session_id: Some(id), staged_offset: Some(offset), ..s }
}

/// The state with any staged switch dropped.
pub open spec fn abort_spec(s: SessionState) -> SessionState {
    SessionState { staged_session_id: None, staged_offset: None, ..s }
}

/// The state after committing at `now`, and the outcome: without a staged
/// session nothing changes; with a session but no offset the session is
/// consumed; otherwise the staged switch becomes active from `now`.
pub open spec fn commit_spec(s: SessionState, now: Moment) -> (SessionState, Result<(), SessionStateError>) {
    match s.staged_session_id {
        None => (s, Err(SessionStateError::MissingStagedSession)),
        Some(id) => match s.staged_offset {
            None => (
                SessionState { staged_session_id: None, ..s },
                Err(SessionStateError::MissingStagedOffset),
            ),
            Some(offset) => (
                SessionState {
                    active_session_id: id,
                    committed_offset: offset,
                    activated_at: now,
                    staged_session_id: None,
                    staged_offset: None,
                },
                Ok(()),
            ),
        },
    }
}

impl SessionState {
    /// A state with `active_session_id` playing from `committed_offset` since
    /// `activated_at`, and nothing staged.
    pub fn new(active_session_id: u64, committed_offset: Timecode, activated_at: Moment) -> (r: Self)
        ensures
            r == (SessionState {
                active_session_id,
                committed_offset,
                activated_at,
                staged_session_id: None,
                staged_offset: None,
            }),
    {
        SessionState {
            active_session_id,
            committed_offset,
            activated_at,
            staged_session_id: None,
            staged_offset: None,
        }
    }

    pub fn active_session_id(&self) -> (r: u64)
        ensures
            r == self.active_session_id,
    {
        self.active_session_id
    }

    pub fn committed_offset(&self) -> (r: Timecode)
        ensures
            r == self.committed_offset,
    {
        self.committed_offset
    }

    /// The playback position at `now`.
    pub fn estimated_position(&self, now: Moment) -> (r: Timecode)
        ensures
            r@ == estimated_spec(*self, now),
    {
        let elapsed = now.saturating_secs_since(self.activated_at);
        assert(elapsed <= u64::MAX / 1_000_000_000);
        self.committed_offset.apply_delta(elapsed as i64)
    }

    /// Stages a switch to `session_id` at `target_offset`.
    pub fn stage_switch(&mut self, session_id: u64, target_offset: Timecode)
        ensures
            *final(self) == stage_spec(*old(self), session_id, target_offset),
    {
        self.staged_session_id = Some(session_id);
        self.staged_offset = Some(target_offset);
    }

    /// Makes the staged switch the active one from `now`.
    pub fn commit_switch(&mut self, now: Moment) -> (r: Result<(), SessionStateError>)
        ensures
            (*final(self), r) == commit_spec(*old(self), now),
    {
        let session_id = match self.staged_session_id {
            Some(id) => id,
            None => return Err(SessionStateError::MissingStagedSession),
        };
        self.staged_session_id = None;
        let offset = match self.staged_offset {
            Some(o) => o,
            None => return Err(SessionStateError::MissingStagedOffset),
        };
        self.staged_offset = None;
        self.active_session_id = session_id;
        self.committed_offset = offset;
        self.activated_at = now;
        Ok(())
    }

    /// Drops the staged switch.
    pub fn abort_stage(&mut self)
        ensures
            *final(self) == abort_spec(*old(self)),
    {
        self.staged_session_id = None;
        self.staged_offset = None;
    }
}

/// Staging a switch and then aborting it gives back a state with nothing
/// staged unchanged: the active session, its offset and its start stay.
pub proof fn lemma_abort_restores_state(s: SessionState, id: u64, offset: Timecode)
    requires
        s.staged_session_id is None,
        s.staged_offset is None,
    ensures
        abort_spec(stage_spec(s, id, offset)) == s,
{
}

/// Committing a staged switch makes it active from the commit time: the
/// position at `d` whole seconds after the commit is the staged offset plus `d`.
pub proof fn lemma_commit_sets_new_baseline(
    s: SessionState,
    id: u64,
    offset: Timecode,
    now: Moment,
    later: Moment,
)
    requires
        later.nanos >= now.nanos,
    ensures
        commit_spec(stage_spec(s, id, offset), now).1 is Ok,
        commit_spec(stage_spec(s, id, offset), now).0.active_session_id == id,
        commit_spec(stage_spec(s, id, offset), now).0.committed_offset == offset,
        estimated_spec(commit_spec(stage_spec(s, id, offset), now).0, later) == apply_delta_spec(
            offset@,
            ((later.nanos - now.nanos) / 1_000_000_000) as int,
        ),
{
}

/// A failed commit leaves the active session, its offset and its start as
/// they were.
pub proof fn lemma_failed_commit_keeps_active(s: SessionState, now: Moment)
    requires
        commit_spec(s, now).1 is Err,
    ensures
        commit_spec(s, now).0.active_session_id == s.active_session_id,
        commit_spec(s, now).0.committed_offset == s.committed_offset,
        commit_spec(s, now).0.activated_at == s.activated_at,
{
}

/// The estimated position never moves backwards as the clock advances.
pub proof fn lemma_estimate_monotone(s: SessionState, a: Moment, b: Moment)
    requires
        a.nanos <= b.nanos,
    ensures
        estimated_spec(s, a) <= estimated_spec(s, b),
{
    if a.nanos >= s.activated_at.nanos {
        assert((a.nanos - s.activated_at.nanos) / 1_000_000_000 <= (b.nanos - s.activated_at.nanos)
            / 1_000_000_000) by (nonlinear_arith)
            requires
                a.nanos >= s.activated_at.nanos,
                a.nanos <= b.nanos,
        ;
    }
}


/// The files of one relay session.
#[derive(Clone, Debug, PartialEq, Eq)]
pub struct SessionPaths {
    pub id: u64,
    pub dir: String,
    pub playlist_path: String,
    pub segment_pattern: String,
    pub init_filename: String,
}

/// `n` in decimal, zero padded to `width` digits.
pub open spec fn padded(n: nat, width: nat) -> Seq<char> {
    zero_pad(decimal(n), width)
}

/// The file name of segment `index` of session `id`.
pub open spec fn segment_filename_spec(id: u64, index: u64) -> Seq<char> {
    "segment_"@ + padded(id as nat, 4) + "_"@ + padded(index as nat, 5) + ".m4s"@
}

impl SessionPaths {
    /// `segment_{id:04}_{index:05}.m4s`.
    pub fn segment_filename(&self, index: u64) -> (r: String)
        ensures
            r@ == segment_filename_spec(self.id, index),
    {
        let mut out: Vec<char> = Vec::new();
        append_str(&mut out, "segment_");
        push_padded(&mut out, self.id, 4);
        append_str(&mut out, "_");
        push_padded(&mut out, index, 5);
        append_str(&mut out, ".m4s");
        string_of(out.as_slice())
    }

    /// The path of segment `index` inside the session directory.
    pub fn segment_path(&self, index: u64) -> (r: String)
        ensures
            r@ == join_spec(self.dir@, segment_filename_spec(self.id, index)),
    {
        let name = self.segment_filename(index);
        join_path(self.dir.as_str(), name.as_str())
    }
}

/// Where sessions live, and which number the next one gets.
#[derive(Clone, Debug, PartialEq, Eq)]
pub struct SessionManager {
    pub root: String,
    pub next_id: u64,
    pub keep_temp: bool,
}

/// The files of session `id` under `root`.
pub open spec fn session_paths_ok(p: SessionPaths, root: Seq<char>, id: u64) -> bool {
    let dir = join_spec(root, "session-"@ + padded(id as nat, 4));
    &&& p.id == id
    &&& p.dir@ == dir
    &&& p.playlist_path@ == join_spec(dir, "stream.m3u8"@)
    &&& p.segment_pattern@ == join_spec(dir, "segment_"@ + padded(id as nat, 4) + "_%05d.m4s"@)
    &&& p.init_filename@ == "init_"@ + padded(id as nat, 4) + ".mp4"@
}

impl SessionManager {
    /// A manager for sessions under `root`, numbered from 1.
    pub fn with_root(root: &str, keep_temp: bool) -> (r: Self)
        ensures
            r.root@ == root@,
            r.next_id == 1,
            r.keep_temp == keep_temp,
    {
        SessionManager { root: root.to_owned(), next_id: 1, keep_temp }
    }

    pub fn root(&self) -> (r: &str)
        ensures
            r@ == self.root@,
    {
        self.root.as_str()
    }

    pub fn root_path(&self) -> (r: &str)
        ensures
            r@ == self.root@,
    {
        self.root.as_str()
    }

    /// Whether session files stay on disk after use.
    pub fn keeps_files(&self) -> (r: bool)
        ensures
            r == self.keep_temp,
    {
        self.keep_temp
    }

    /// The files of the next session; numbers wrap around after `u64::MAX`.
    pub fn next_session(&mut self) -> (r: SessionPaths)
        ensures
            session_paths_ok(r, old(self).root@, old(self).next_id),
            final(self).root == old(self).root,
            final(self).keep_temp == old(self).keep_temp,
            final(self).next_id == (if old(self).next_id == u64::MAX {
                0
            } else {
                old(self).next_id + 1
            }),
    {
        let id = self.next_id;
        self.next_id = if id == u64::MAX {
            0
        } else {
            id + 1
        };
        let mut dir_name: Vec<char> = Vec::new();
        append_str(&mut dir_name, "session-");
        push_padded(&mut dir_name, id, 4);
        let dir = join_path(self.root.as_str(), string_of(dir_name.as_slice()).as_str());
        let playlist_path = join_path(dir.as_str(), "stream.m3u8");
        let mut pattern: Vec<char> = Vec::new();
        append_str(&mut pattern, "segment_");
        push_padded(&mut pattern, id, 4);
        append_str(&mut pattern, "_%05d.m4s");
        let segment_pattern = join_path(dir.as_str(), string_of(pattern.as_slice()).as_str());
        let mut init: Vec<char> = Vec::new();
        append_str(&mut init, "init_");
        push_padded(&mut init, id, 4);
        append_str(&mut init, ".mp4");
        SessionPaths {
            id,
            dir,
            playlist_path,
            segment_pattern,
            init_filename: string_of(init.as_slice()),
        }
    }
}

} // verus!
