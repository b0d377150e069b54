//! Text the relay shows: playback times, warnings, byte counts, and the
//! status report of a running session.

use vstd::prelude::*;
use crate::media::{
    SeekSupport, StreamSelection, audio_notice_spec, byte_unit, output_file_spec, pow1024,
    round_half_even,
};
use crate::playback::{PlaybackMode, PlaybackSnapshot, PlayerState};
use crate::simulation::scenario_label;
use crate::strings::{
    append_chars, append_decimal, append_str, decimal, join, join_spec, lines_of, lines_spec,
    opt_view, push_line, string_chars, string_of, vec_views,
};
use crate::timecode::{Timecode, hms_spec};

verus! {

/// `position / total`, or the position alone without a total.
pub open spec fn playback_time_spec(position: Timecode, total: Option<Timecode>) -> Seq<char> {
    match total {
        Some(t) => hms_spec(position@) + " / "@ + hms_spec(t@),
        None => hms_spec(position@),
    }
}

/// The playback position, out of the total runtime when it is known.
pub fn format_playback_time(estimated_position: Timecode, total_runtime: Option<Timecode>) -> (r:
    String)
    ensures
        r@ == playback_time_spec(estimated_position, total_runtime),
{
    let mut out = string_chars(&estimated_position.to_string());
    if let Some(total) = total_runtime {
        append_str(&mut out, " / ");
        append_chars(&mut out, string_chars(&total.to_string()).as_slice());
    }
    string_of(out.as_slice())
}

/// A warning line: `[WARN] text`.
pub fn format_warning(text: &str) -> (r: String)
    ensures
        r@ == "[WARN] "@ + text@,
{
    let mut out: Vec<char> = Vec::new();
    append_str(&mut out, "[WARN] ");
    append_str(&mut out, text);
    string_of(out.as_slice())
}

/// The name of decimal unit `k` of the status report.
pub open spec fn short_unit_name(k: nat) -> Seq<char> {
    if k == 1 {
        "KB"@
    } else if k == 2 {
        "MB"@
    } else if k == 3 {
        "GB"@
    } else {
        "TB"@
    }
}

/// A count of tenths written with one decimal.
pub open spec fn one_decimal(tenths: nat) -> Seq<char> {
    decimal(tenths / 10) + "."@ + decimal(tenths % 10)
}

/// A byte count: whole bytes below 1024, otherwise the value in its
/// 1024-based unit (`KB`, `MB`, `GB`, `TB`) with one decimal.
pub open spec fn short_bytes_spec(bytes: nat) -> Seq<char> {
    let k = byte_unit(bytes);
    if k == 0 {
        decimal(bytes) + " B"@
    } else {
        one_decimal(round_half_even(bytes * 10, pow1024(k))) + " "@ + short_unit_name(k)
    }
}

/// Formats a byte count for the status report.
pub fn format_bytes(bytes: u64) -> (r: String)
    ensures
        r@ == short_bytes_spec(bytes as nat),
{
    let ghost b = bytes as nat;
    proof {
        reveal_with_fuel(pow1024, 5);
    }
    let mut out: Vec<char> = Vec::new();
    if bytes < 1024 {
        append_decimal(&mut out, bytes);
        append_str(&mut out, " B");
        return string_of(out.as_slice());
    }
    let (divisor, name): (u128, &str) = if bytes >= 1099511627776 {
        (1099511627776, "TB")
    } else if bytes >= 1073741824 {
        (1073741824, "GB")
    } else if bytes >= 1048576 {
        (1048576, "MB")
    } else {
        (1024, "KB")
    };
    let ghost k = byte_unit(b);
    assert(divisor as nat == pow1024(k));
    let n: u128 = (bytes as u128) * 10;
    let q: u128 = n / divisor;
    let rem: u128 = n % divisor;
    let h: u128 = if 2 * rem > divisor || (2 * rem == divisor && q % 2 == 1) {
        q + 1
    } else {
        q
    };
    assert(h as nat == round_half_even(b * 10, pow1024(k)));
    assert(q <= n / 1024) by (nonlinear_arith)
        requires
            q == n / divisor,
            divisor >= 1024,
    ;
    let whole: u128 = h / 10;
    let frac: u128 = h % 10;
    assert(whole <= u64::MAX) by (nonlinear_arith)
        requires
            whole == h / 10,
            h <= q + 1,
            q <= n / 1024,
            n == bytes * 10,
            bytes <= u64::MAX,
    ;
    append_decimal(&mut out, whole as u64);
    out.push('.');
    append_decimal(&mut out, frac as u64);
    out.push(' ');
    append_str(&mut out, name);
    proof {
        reveal_strlit(" ");
        reveal_strlit(".");
    }
    assert(out@ =~= short_bytes_spec(b));
    string_of(out.as_slice())
}

/// A rate in bytes per second.
pub fn format_bytes_per_second(bytes_per_second: u64) -> (r: String)
    ensures
        r@ == short_bytes_spec(bytes_per_second as nat) + "/s"@,
{
    let mut out = string_chars(&format_bytes(bytes_per_second));
    append_str(&mut out, "/s");
    string_of(out.as_slice())
}

/// How the status report names the player state.
pub open spec fn player_state_text(s: PlayerState) -> Seq<char> {
    match s {
        PlayerState::Playing => "Playing"@,
        PlayerState::Paused => "Paused"@,
        PlayerState::WindowClosed => "Window closed"@,
        PlayerState::AppClosed => "Closed"@,
        PlayerState::Unavailable => "Status unavailable"@,
    }
}

/// How the status report names the player state.
pub fn player_state_label(state: PlayerState) -> (r: &'static str)
    ensures
        r@ == player_state_text(state),
{
    match state {
        PlayerState::Playing => "Playing",
        PlayerState::Paused => "Paused",
        PlayerState::WindowClosed => "Window closed",
        PlayerState::AppClosed => "Closed",
        PlayerState::Unavailable => "Status unavailable",
    }
}

/// The label of a playback mode.
pub open spec fn mode_label_spec(m: PlaybackMode) -> Seq<char> {
    match m {
        PlaybackMode::Live => "Live"@,
        PlaybackMode::Simulated(s) => "Simulation ("@ + scenario_label(s) + ")"@,
    }
}

/// The fixed rows of the status report.
pub open spec fn status_rows(
    mode: PlaybackMode,
    source_url: Seq<char>,
    seek: SeekSupport,
    total: Option<Timecode>,
    snap: PlaybackSnapshot,
) -> Seq<Seq<char>> {
    seq![
        "Mode               | "@ + mode_label_spec(mode),
        "Source             | "@ + source_url,
        "Stream             | "@ + snap.stream_url@,
        "Session ID         | "@ + decimal(snap.session_id as nat),
        "Start time         | "@ + hms_spec(snap.start_time@),
        "Current time       | "@ + playback_time_spec(snap.current_time, total),
        "Relay write rate   | "@ + short_bytes_spec(snap.telemetry.relay_write_bytes_per_second as nat)
            + "/s"@,
        "Buffer ahead       | "@ + hms_spec(snap.telemetry.buffer_ahead@),
        "Storage used       | "@ + short_bytes_spec(snap.telemetry.storage_bytes as nat),
        "QuickTime Player   | "@ + player_state_text(snap.player_state),
        "Time jumps         | "@ + match seek {
            SeekSupport::Enabled => "Available"@,
            SeekSupport::Disabled { .. } => "Unavailable"@,
        },
        "Tracks"@,
    ]
}

/// The track rows of the status report: each line of the output listing,
/// indented.
pub open spec fn track_rows(selection: StreamSelection) -> Seq<Seq<char>> {
    let ls = lines_spec(output_file_spec(selection));
    Seq::new(ls.len(), |i: int| "  "@ + ls[i])
}

/// The status report of a running session.
pub open spec fn status_text_spec(
    mode: PlaybackMode,
    source_url: Seq<char>,
    selection: StreamSelection,
    seek: SeekSupport,
    total: Option<Timecode>,
    snap: PlaybackSnapshot,
) -> Seq<char> {
    let notice = match audio_notice_spec(selection) {
        Some(n) => seq![n],
        None => Seq::empty(),
    };
    join_spec(status_rows(mode, source_url, seek, total, snap) + track_rows(selection) + notice, "\n"@)
}

/// The status report of a running session.
pub fn status_text(
    playback_mode: &PlaybackMode,
    source_url: &str,
    selection: &StreamSelection,
    seek_support: &SeekSupport,
    total_runtime: Option<Timecode>,
    snapshot: &PlaybackSnapshot,
) -> (r: String)
    ensures
        r@ == status_text_spec(
            *playback_mode,
            source_url@,
            *selection,
            *seek_support,
            total_runtime,
            *snapshot,
        ),
{
    let mut rows: Vec<Vec<char>> = Vec::new();
    let mut l: Vec<char>;
    l = chars_line("Mode               | ");
    append_chars(&mut l, string_chars(&playback_mode.label()).as_slice());
    push_line(&mut rows, l);
    l = chars_line("Source             | ");
    append_str(&mut l, source_url);
    push_line(&mut rows, l);
    l = chars_line("Stream             | ");
    append_chars(&mut l, string_chars(&snapshot.stream_url).as_slice());
    push_line(&mut rows, l);
    l = chars_line("Session ID         | ");
    append_decimal(&mut l, snapshot.session_id);
    push_line(&mut rows, l);
    l = chars_line("Start time         | ");
    append_chars(&mut l, string_chars(&snapshot.start_time.to_string()).as_slice());
    push_line(&mut rows, l);
    l = chars_line("Current time       | ");
    append_chars(
        &mut l,
        string_chars(&format_playback_time(snapshot.current_time, total_runtime)).as_slice(),
    );
    push_line(&mut rows, l);
    l = chars_line("Relay write rate   | ");
    append_chars(
        &mut l,
        string_chars(
            &format_bytes_per_second(snapshot.telemetry.relay_write_bytes_per_second),
        ).as_slice(),
    );
    push_line(&mut rows, l);
    l = chars_line("Buffer ahead       | ");
    append_chars(&mut l, string_chars(&snapshot.telemetry.buffer_ahead.to_string()).as_slice());
    push_line(&mut rows, l);
    l = chars_line("Storage used       | ");
    append_chars(&mut l, string_chars(&format_bytes(snapshot.telemetry.storage_bytes)).as_slice());
    push_line(&mut rows, l);
    l = chars_line("QuickTime Player   | ");
    append_str(&mut l, player_state_label(snapshot.player_state));
    push_line(&mut rows, l);
    l = chars_line("Time jumps         | ");
    match seek_support {
        SeekSupport::Enabled => append_str(&mut l, "Available"),
        SeekSupport::Disabled { .. } => append_str(&mut l, "Unavailable"),
    }
    push_line(&mut rows, l);
    push_line(&mut rows, chars_line("Tracks"));
    let ghost fixed = vec_views(rows@);
    let ghost want = status_rows(*playback_mode, source_url@, *seek_support, total_runtime, *snapshot);
    assert(fixed.len() == 12);
    assert(fixed[0] == want[0]);
    assert(fixed[1] == want[1]);
    assert(fixed[2] == want[2]);
    assert(fixed[3] == want[3]);
    assert(fixed[4] == want[4]);
    assert(fixed[5] == want[5]);
    assert(fixed[6] == want[6]);
    assert(fixed[7] == want[7]);
    assert(fixed[8] == want[8]);
    assert(fixed[9] == want[9]);
    assert(fixed[10] == want[10]);
    assert(fixed[11] == want[11]);
    assert(fixed =~= status_rows(*playback_mode, source_url@, *seek_support, total_runtime, *snapshot));
    let track_lines = lines_of(selection.render_output_file().as_str());
    let ghost tr = track_rows(*selection);
    let mut i: usize = 0;
    while i < track_lines.len()
        invariant
            i <= track_lines@.len(),
            vec_views(track_lines@) == lines_spec(output_file_spec(*selection)),
            tr == track_rows(*selection),
            vec_views(rows@) == fixed + tr.subrange(0, i as int),
        decreases track_lines@.len() - i,
    {
        let mut row = chars_line("  ");
        append_chars(&mut row, track_lines[i].as_slice());
        assert(track_lines@[i as int]@ == vec_views(track_lines@)[i as int]);
        push_line(&mut rows, row);
        assert(tr.subrange(0, i + 1) =~= tr.subrange(0, i as int).push(tr[i as int]));
        i = i + 1;
    }
    assert(tr.subrange(0, track_lines@.len() as int) =~= tr);
    if let Some(notice) = selection.audio_notice() {
        push_line(&mut rows, string_chars(&notice));
    }
    assert(vec_views(rows@) =~= status_rows(*playback_mode, source_url@, *seek_support, total_runtime, *snapshot)
        + track_rows(*selection) + match audio_notice_spec(*selection) {
        Some(n) => seq![n],
        None => Seq::empty(),
    });
    string_of(join(&rows, "\n").as_slice())
}

/// The characters of a literal.
fn chars_line(s: &str) -> (r: Vec<char>)
    ensures
        r@ == s@,
{
    crate::strings::chars_of(s)
}

} // verus!
