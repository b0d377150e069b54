//! The state behind the local HLS server: which session directory it
//! serves, the last segment the player asked for, and the segments of the
//! playlist it read last; and what to answer a request with.

use vstd::prelude::*;
use crate::server::{
    entry_views, find_segment, is_segment_request, lookup_spec, resolve_request_path,
    resolve_spec, segment_request_spec, PlaybackTracker, SegmentEntry, SegmentObservation,
};
use crate::session::Moment;
use crate::strings::{chars_of, ends_with, has_suffix, slice_chars, string_of};

verus! {

/// A file's modification time: seconds and nanoseconds since the epoch.
#[derive(Clone, Copy, Debug, PartialEq, Eq, Structural)]
pub struct FileTime {
    pub secs: u64,
    pub nanos: u32,
}

/// What identifies a version of the playlist file: its modification time,
/// when known, and its length.
#[derive(Clone, Copy, Debug, PartialEq, Eq, Structural)]
pub struct PlaylistVersion {
    pub modified: Option<FileTime>,
    pub len: u64,
}

/// The segments read from one version of the playlist.
#[derive(Clone, Debug, PartialEq, Eq)]
pub struct PlaylistCache {
    pub version: PlaylistVersion,
    pub segments: Vec<SegmentEntry>,
}

/// What the server serves and has seen.
#[derive(Clone, Debug, PartialEq, Eq)]
pub struct ServedSession {
    pub dir: Option<String>,
    pub tracker: PlaybackTracker,
    pub cache: Option<PlaylistCache>,
}

/// Nothing served, seen or read.
pub open spec fn is_fresh(s: ServedSession) -> bool {
    &&& s.tracker.last_segment is None
    &&& s.tracker.observed_at is None
    &&& s.cache is None
}

/// The segment `name` of the cached playlist, when the cache holds
/// `version`; `None` when it must be read again.
pub open spec fn cached_spec(s: ServedSession, version: PlaylistVersion, name: Seq<char>) -> Option<
    Option<SegmentObservation>,
> {
    match s.cache {
        Some(c) => if c.version == version {
            Some(lookup_spec(entry_views(c.segments@), name, c.segments@.len() as int))
        } else {
            None
        },
        None => None,
    }
}

impl ServedSession {
    /// A server that serves nothing yet.
    pub fn new() -> (r: Self)
        ensures
            r.dir is None,
            is_fresh(r),
    {
        ServedSession { dir: None, tracker: PlaybackTracker::new(), cache: None }
    }

    /// Serves `dir` from now on, forgetting what was seen and read.
    pub fn set_active_dir(&mut self, dir: String)
        ensures
            final(self).dir == Some(dir),
            is_fresh(*final(self)),
    {
        self.dir = Some(dir);
        self.tracker.reset();
        self.cache = None;
    }

    /// Serves nothing from now on, forgetting what was seen and read.
    pub fn clear(&mut self)
        ensures
            final(self).dir is None,
            is_fresh(*final(self)),
    {
        self.dir = None;
        self.tracker.reset();
        self.cache = None;
    }

    /// The segment `name` of the cached playlist when the cache holds
    /// `version`, or `None` when the playlist must be read again.
    pub fn cached_segment(&self, version: PlaylistVersion, name: &str) -> (r: Option<
        Option<SegmentObservation>,
    >)
        ensures
            r == cached_spec(*self, version, name@),
    {
        match &self.cache {
            Some(c) => if c.version == version {
                Some(find_segment(&c.segments, name))
            } else {
                None
            },
            None => None,
        }
    }

    /// Keeps the segments read from `version` of the playlist and gives the
    /// one named `name`.
    pub fn store_playlist(&mut self, version: PlaylistVersion, segments: Vec<SegmentEntry>, name: &str) -> (r:
        Option<SegmentObservation>)
        ensures
            r == lookup_spec(entry_views(segments@), name@, segments@.len() as int),
            final(self).cache == Some(PlaylistCache { version, segments }),
            final(self).dir == old(self).dir,
            final(self).tracker == old(self).tracker,
            cached_spec(*final(self), version, name@) == Some(r),
    {
        let r = find_segment(&segments, name);
        self.cache = Some(PlaylistCache { version, segments });
        r
    }

    /// Records that the player asked for `segment` at `now`.
    pub fn observe(&mut self, segment: SegmentObservation, now: Moment)
        ensures
            final(self).tracker.last_segment == Some(segment),
            final(self).tracker.observed_at == Some(now),
            final(self).dir == old(self).dir,
            final(self).cache == old(self).cache,
    {
        self.tracker.observe(segment, now);
    }
}

/// The segment name a request path asks for: the path after its leading
/// slash.
pub fn requested_segment_name(request_path: &str) -> (r: Option<String>)
    ensures
        match r {
            Some(n) => request_path@.len() > 0 && request_path@[0] == '/' && n@ == request_path@.drop_first(),
            None => request_path@.len() == 0 || request_path@[0] != '/',
        },
{
    let chars = chars_of(request_path);
    if chars.len() == 0 || chars[0] != '/' {
        return None;
    }
    let rest = slice_chars(chars.as_slice(), 1, chars.len());
    assert(rest@ =~= request_path@.drop_first());
    Some(string_of(rest.as_slice()))
}

/// How to answer a request for an asset.
#[derive(Clone, Debug, PartialEq, Eq)]
pub enum AssetPlan {
    /// No session is served yet.
    NotReady,
    /// The path names nothing the server serves.
    NotFound,
    /// Send the playlist file at this path in full, uncached.
    Playlist(String),
    /// Stream the file at this path, cached for good; `segment` says whether
    /// the request counts as the player's position.
    Media { path: String, segment: bool },
}

/// How to answer `request_path`: nothing before a session is served, not
/// found outside the served files, the playlist uncached, other files
/// cached.
pub open spec fn asset_plan_spec(active_dir: Option<Seq<char>>, request: Seq<char>, r: AssetPlan) -> bool {
    match active_dir {
        None => r == AssetPlan::NotReady,
        Some(dir) => match resolve_spec(dir, request) {
            None => r == AssetPlan::NotFound,
            Some(p) => if has_suffix(request, ".m3u8"@) {
                r matches AssetPlan::Playlist(q) && q@ == p
            } else {
                r matches AssetPlan::Media { path, segment } && path@ == p && segment
                    == segment_request_spec(request)
            },
        },
    }
}

/// How to answer a request for `request_path` when `active_dir` is served.
pub fn plan_asset(active_dir: Option<&str>, request_path: &str) -> (r: AssetPlan)
    ensures
        asset_plan_spec(
            match active_dir {
                Some(d) => Some(d@),
                None => None,
            },
            request_path@,
            r,
        ),
{
    let dir = match active_dir {
        Some(d) => d,
        None => {
            return AssetPlan::NotReady;
        },
    };
    let path = match resolve_request_path(dir, request_path) {
        Some(p) => p,
        None => {
            return AssetPlan::NotFound;
        },
    };
    let request = chars_of(request_path);
    let suffix = chars_of(".m3u8");
    if ends_with(request.as_slice(), suffix.as_slice()) {
        AssetPlan::Playlist(path)
    } else {
        AssetPlan::Media { path, segment: is_segment_request(request_path) }
    }
}

/// The cache policy of an answer: playlists are never cached, other files
/// for a year and as immutable.
pub fn cache_control(plan: &AssetPlan) -> (r: Option<&'static str>)
    ensures
        match *plan {
            AssetPlan::Playlist(_) => r matches Some(c) && c@ == "no-cache"@,
            AssetPlan::Media { .. } => r matches Some(c) && c@ == "public, max-age=31536000, immutable"@,
            _ => r is None,
        },
{
    match plan {
        AssetPlan::Playlist(_) => Some("no-cache"),
        AssetPlan::Media { .. } => Some("public, max-age=31536000, immutable"),
        _ => None,
    }
}

} // verus!
