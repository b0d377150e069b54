//! Media sources, the tracks ffprobe reports, and the choice of tracks to relay.

use vstd::prelude::*;
use crate::strings::{
    append_chars, append_decimal, append_str, ascii_lower_seq, chars_of, contains, contains_spec,
    copy_opt, decimal, join, join_spec, non_empty, non_empty_chars, opt_as_str, opt_list,
    opt_str_view, opt_view, parse_u64, parse_u64_spec, push_line, push_padded, push_some, str_eq,
    string_chars, string_of, text_or, to_ascii_lower, vec_views, zero_pad,
};
use crate::timecode::Timecode;

verus! {

/// `1024` to the power `k`.
pub open spec fn pow1024(k: nat) -> nat
    decreases k,
{
    if k == 0 {
        1
    } else {
        1024 * pow1024((k - 1) as nat)
    }
}

/// The binary unit a byte count is shown in: the largest `k <= 4` with
/// `bytes >= 1024^k`.
pub open spec fn byte_unit(bytes: nat) -> nat {
    if bytes >= pow1024(4) {
        4
    } else if bytes >= pow1024(3) {
        3
    } else if bytes >= pow1024(2) {
        2
    } else if bytes >= pow1024(1) {
        1
    } else {
        0
    }
}

/// The name of binary unit `k`.
pub open spec fn byte_unit_name(k: nat) -> Seq<char> {
    if k == 0 {
        "B"@
    } else if k == 1 {
        "KiB"@
    } else if k == 2 {
        "MiB"@
    } else if k == 3 {
        "GiB"@
    } else {
        "TiB"@
    }
}

/// `n / d` rounded to the nearest integer, ties to even.
pub open spec fn round_half_even(n: nat, d: nat) -> nat {
    let q = n / d;
    let r = n % d;
    if 2 * r > d || (2 * r == d && q % 2 == 1) {
        q + 1
    } else {
        q
    }
}

/// A count of hundredths written with two decimals.
pub open spec fn two_decimals(hundredths: nat) -> Seq<char> {
    decimal(hundredths / 100) + "."@ + zero_pad(decimal(hundredths % 100), 2)
}

/// A byte count in binary units: whole bytes below one KiB, otherwise the
/// value in its unit with two decimals.
pub open spec fn format_bytes_spec(bytes: nat) -> Seq<char> {
    let k = byte_unit(bytes);
    if k == 0 {
        decimal(bytes) + " "@ + "B"@
    } else {
        two_decimals(round_half_even(bytes * 100, pow1024(k))) + " "@ + byte_unit_name(k)
    }
}

/// Metadata discovered about the media source.
#[derive(Clone, Debug, PartialEq, Eq)]
pub struct SourceMetadata {
    pub filename: String,
    pub size_bytes: Option<u64>,
}

impl SourceMetadata {
    pub fn new(filename: &str, size_bytes: Option<u64>) -> (r: Self)
        ensures
            r.filename@ == filename@,
            r.size_bytes == size_bytes,
    {
        SourceMetadata { filename: filename.to_owned(), size_bytes }
    }

    pub fn filename(&self) -> (r: &str)
        ensures
            r@ == self.filename@,
    {
        self.filename.as_str()
    }

    pub fn size_bytes(&self) -> (r: Option<u64>)
        ensures
            r == self.size_bytes,
    {
        self.size_bytes
    }

    /// The size in binary units, or `Unknown`.
    pub fn display_size(&self) -> (r: String)
        ensures
            r@ == match self.size_bytes {
                Some(b) => format_bytes_spec(b as nat),
                None => "Unknown"@,
            },
    {
        match self.size_bytes {
            Some(b) => format_bytes(b),
            None => "Unknown".to_owned(),
        }
    }

    /// A copy of the metadata.
    pub fn duplicate(&self) -> (r: Self)
        ensures
            r == *self,
    {
        SourceMetadata { filename: self.filename.clone(), size_bytes: self.size_bytes }
    }
}

/// Whether the source supports seeking via HTTP range requests.
#[derive(Clone, Debug, PartialEq, Eq)]
pub enum SeekSupport {
    Enabled,
    Disabled { warning: String },
}

/// Inspection result for the input source URL.
#[derive(Clone, Debug, PartialEq, Eq)]
pub struct SourceInspection {
    pub metadata: SourceMetadata,
    pub seek_support: SeekSupport,
}

impl SourceInspection {
    pub fn new(metadata: SourceMetadata, seek_support: SeekSupport) -> (r: Self)
        ensures
            r.metadata == metadata,
            r.seek_support == seek_support,
    {
        SourceInspection { metadata, seek_support }
    }

    pub fn metadata(&self) -> (r: &SourceMetadata)
        ensures
            *r == self.metadata,
    {
        &self.metadata
    }

    pub fn seek_support(&self) -> (r: &SeekSupport)
        ensures
            *r == self.seek_support,
    {
        &self.seek_support
    }

    pub fn seeking_enabled(&self) -> (r: bool)
        ensures
            r == (self.seek_support is Enabled),
    {
        match self.seek_support {
            SeekSupport::Enabled => true,
            SeekSupport::Disabled { .. } => false,
        }
    }

    /// The warning that explains why seeking is off, if it is.
    pub fn seek_warning(&self) -> (r: Option<&str>)
        ensures
            opt_str_view(r) == match self.seek_support {
                SeekSupport::Enabled => None,
                SeekSupport::Disabled { warning } => Some(warning@),
            },
    {
        match &self.seek_support {
            SeekSupport::Enabled => None,
            SeekSupport::Disabled { warning } => Some(warning.as_str()),
        }
    }

    /// A copy of the inspection.
    pub fn duplicate(&self) -> (r: Self)
        ensures
            r == *self,
    {
        let seek_support = match &self.seek_support {
            SeekSupport::Enabled => SeekSupport::Enabled,
            SeekSupport::Disabled { warning } => SeekSupport::Disabled { warning: warning.clone() },
        };
        SourceInspection { metadata: self.metadata.duplicate(), seek_support }
    }
}

/// Formats a byte count in binary units (`B`, `KiB`, `MiB`, `GiB`, `TiB`).
pub fn format_bytes(bytes: u64) -> (r: String)
    ensures
        r@ == format_bytes_spec(bytes as nat),
{
    let ghost b = bytes as nat;
    proof {
        reveal_with_fuel(pow1024, 5);
    }
    assert(pow1024(1) == 1024 && pow1024(2) == 1048576 && pow1024(3) == 1073741824 && pow1024(4)
        == 1099511627776);
    let mut out: Vec<char> = Vec::new();
    if bytes < 1024 {
        append_decimal(&mut out, bytes);
        out.push(' ');
        append_str(&mut out, "B");
        proof {
            reveal_strlit(" ");
        }
        assert(out@ =~= format_bytes_spec(b));
        return string_of(out.as_slice());
    }
    let (divisor, name): (u128, &str) = if bytes >= 1099511627776 {
        (1099511627776, "TiB")
    } else if bytes >= 1073741824 {
        (1073741824, "GiB")
    } else if bytes >= 1048576 {
        (1048576, "MiB")
    } else {
        (1024, "KiB")
    };
    let ghost k = byte_unit(b);
    assert(divisor as nat == pow1024(k));
    assert(name@ == byte_unit_name(k));
    let n: u128 = (bytes as u128) * 100;
    let q: u128 = n / divisor;
    let rem: u128 = n % divisor;
    let h: u128 = if 2 * rem > divisor || (2 * rem == divisor && q % 2 == 1) {
        q + 1
    } else {
        q
    };
    assert(h as nat == round_half_even(b * 100, pow1024(k)));
    assert(q <= n / 1024) by (nonlinear_arith)
        requires
            q == n / divisor,
            divisor >= 1024,
    ;
    let whole: u128 = h / 100;
    let frac: u128 = h % 100;
    assert(whole <= u64::MAX) by (nonlinear_arith)
        requires
            whole == h / 100,
            h <= q + 1,
            q <= n / 1024,
            n == bytes * 100,
            bytes <= u64::MAX,
    ;
    append_decimal(&mut out, whole as u64);
    out.push('.');
    push_padded(&mut out, frac as u64, 2);
    out.push(' ');
    append_str(&mut out, name);
    proof {
        reveal_strlit(" ");
        reveal_strlit(".");
    }
    assert(out@ =~= format_bytes_spec(b));
    string_of(out.as_slice())
}


/// Errors produced when choosing audio and video tracks.
#[derive(Clone, Copy, Debug, PartialEq, Eq, Structural)]
pub enum TrackSelectionError {
    NoVideoTrack,
    VideoIndexOutOfRange { index: usize },
    AudioIndexOutOfRange { index: usize },
    AudioSelectionRequired,
}

/// The message of each track selection error.
pub open spec fn track_selection_message(e: TrackSelectionError) -> Seq<char> {
    match e {
        TrackSelectionError::NoVideoTrack => "the source does not contain a supported video track"@,
        TrackSelectionError::VideoIndexOutOfRange { index } => "video selection index "@ + decimal(
            index as nat,
        ) + " is out of range"@,
        TrackSelectionError::AudioIndexOutOfRange { index } => "audio selection index "@ + decimal(
            index as nat,
        ) + " is out of range"@,
        TrackSelectionError::AudioSelectionRequired => "an audio track selection is required"@,
    }
}

impl TrackSelectionError {
    /// The message shown to the user for this error.
    pub fn message(&self) -> (r: String)
        ensures
            r@ == track_selection_message(*self),
    {
        let mut out: Vec<char> = Vec::new();
        match self {
            TrackSelectionError::NoVideoTrack => {
                append_str(&mut out, "the source does not contain a supported video track");
            },
            TrackSelectionError::VideoIndexOutOfRange { index } => {
                append_str(&mut out, "video selection index ");
                append_decimal(&mut out, *index as u64);
                append_str(&mut out, " is out of range");
            },
            TrackSelectionError::AudioIndexOutOfRange { index } => {
                append_str(&mut out, "audio selection index ");
                append_decimal(&mut out, *index as u64);
                append_str(&mut out, " is out of range");
            },
            TrackSelectionError::AudioSelectionRequired => {
                append_str(&mut out, "an audio track selection is required");
            },
        }
        assert(out@ =~= track_selection_message(*self));
        string_of(out.as_slice())
    }
}

/// Apple-oriented MP4 packaging for a selected video stream.
#[derive(Clone, Copy, Debug, PartialEq, Eq)]
pub struct VideoPackaging {
    pub tag: &'static str,
    pub bitstream_filter: Option<&'static str>,
    pub unofficial: bool,
}

/// Whether `p` is the packaging with the given tag, filter and flag.
pub open spec fn is_packaging(
    p: VideoPackaging,
    tag: Seq<char>,
    filter: Option<Seq<char>>,
    unofficial: bool,
) -> bool {
    &&& p.tag@ == tag
    &&& opt_str_view(p.bitstream_filter) == filter
    &&& p.unofficial == unofficial
}

impl VideoPackaging {
    pub fn new(tag: &'static str, bitstream_filter: Option<&'static str>, unofficial: bool) -> (r:
        Self)
        ensures
            r.tag == tag,
            r.bitstream_filter == bitstream_filter,
            r.unofficial == unofficial,
    {
        VideoPackaging { tag, bitstream_filter, unofficial }
    }

    pub fn tag(&self) -> (r: &'static str)
        ensures
            r == self.tag,
    {
        self.tag
    }

    pub fn bitstream_filter(&self) -> (r: Option<&'static str>)
        ensures
            r == self.bitstream_filter,
    {
        self.bitstream_filter
    }

    pub fn is_unofficial(&self) -> (r: bool)
        ensures
            r == self.unofficial,
    {
        self.unofficial
    }
}

/// Why a selected video stream cannot be safely packaged for Apple playback.
#[derive(Clone, Debug, PartialEq, Eq)]
pub enum VideoPackagingError {
    MissingCodec { stream_index: usize },
    UnsupportedCodec { stream_index: usize, codec: String },
    UnsupportedDolbyVisionProfile { stream_index: usize, profile: u8 },
}

impl VideoPackagingError {
    /// The message shown to the user for this error.
    pub fn message(&self) -> (r: String)
        ensures
            r@ == match *self {
                VideoPackagingError::MissingCodec { stream_index } => "video stream #"@ + decimal(
                    stream_index as nat,
                ) + " is missing codec metadata"@,
                VideoPackagingError::UnsupportedCodec { stream_index, codec } => "video stream #"@
                    + decimal(stream_index as nat) + " uses unsupported codec `"@ + codec@ + "`"@,
                VideoPackagingError::UnsupportedDolbyVisionProfile { stream_index, profile } =>
                    "video stream #"@ + decimal(stream_index as nat)
                    + " uses unsupported Dolby Vision profile "@ + decimal(profile as nat),
            },
    {
        let mut out: Vec<char> = Vec::new();
        match self {
            VideoPackagingError::MissingCodec { stream_index } => {
                append_str(&mut out, "video stream #");
                append_decimal(&mut out, *stream_index as u64);
                append_str(&mut out, " is missing codec metadata");
            },
            VideoPackagingError::UnsupportedCodec { stream_index, codec } => {
                append_str(&mut out, "video stream #");
                append_decimal(&mut out, *stream_index as u64);
                append_str(&mut out, " uses unsupported codec `");
                append_chars(&mut out, string_chars(codec).as_slice());
                append_str(&mut out, "`");
            },
            VideoPackagingError::UnsupportedDolbyVisionProfile { stream_index, profile } => {
                append_str(&mut out, "video stream #");
                append_decimal(&mut out, *stream_index as u64);
                append_str(&mut out, " uses unsupported Dolby Vision profile ");
                append_decimal(&mut out, *profile as u64);
            },
        }
        string_of(out.as_slice())
    }
}

/// Dolby Vision configuration record of a video stream.
#[derive(Clone, Copy, Debug, PartialEq, Eq, Structural)]
pub struct DolbyVisionConfig {
    pub profile: u8,
    pub level: u8,
    pub base_layer_present: bool,
    pub enhancement_layer_present: bool,
    pub base_layer_signal_compatibility_id: u8,
}

impl DolbyVisionConfig {
    pub fn profile(&self) -> (r: u8)
        ensures
            r == self.profile,
    {
        self.profile
    }

    pub fn level(&self) -> (r: u8)
        ensures
            r == self.level,
    {
        self.level
    }

    pub fn base_layer_present(&self) -> (r: bool)
        ensures
            r == self.base_layer_present,
    {
        self.base_layer_present
    }

    pub fn enhancement_layer_present(&self) -> (r: bool)
        ensures
            r == self.enhancement_layer_present,
    {
        self.enhancement_layer_present
    }

    pub fn base_layer_signal_compatibility_id(&self) -> (r: u8)
        ensures
            r == self.base_layer_signal_compatibility_id,
    {
        self.base_layer_signal_compatibility_id
    }
}

/// A track of the source: its ffprobe stream index and whether ffprobe marked
/// it as the default track.
pub trait Track: Sized {
    spec fn index_of(&self) -> usize;

    spec fn default_flag(&self) -> bool;

    fn track_index(&self) -> (r: usize)
        ensures
            r == self.index_of(),
    ;

    fn track_is_default(&self) -> (r: bool)
        ensures
            r == self.default_flag(),
    ;

    fn duplicate(&self) -> (r: Self)
        ensures
            r == *self,
    ;
}

/// Video stream metadata rendered in the UI.
#[derive(Clone, Debug)]
pub struct VideoStream {
    pub stream_index: usize,
    pub codec_name: Option<String>,
    pub profile: Option<String>,
    pub level: Option<u32>,
    pub codec_tag: Option<String>,
    pub pixel_format: Option<String>,
    pub width: Option<u32>,
    pub height: Option<u32>,
    pub frame_rate: Option<String>,
    pub bit_rate: Option<u64>,
    pub color_primaries: Option<String>,
    pub color_transfer: Option<String>,
    pub color_matrix: Option<String>,
    pub dolby_vision: Option<DolbyVisionConfig>,
    pub display_line: String,
    pub is_default: bool,
}

/// Whether the optional codec name is `name`.
pub open spec fn codec_is(codec: Option<String>, name: Seq<char>) -> bool {
    codec matches Some(c) && c@ == name
}

/// The Apple packaging of a video stream, or why there is none: H.264 as
/// `avc1` (Dolby Vision profile 9 as `dva1`), HEVC as `hvc1` (profiles 5 and
/// 8 as `dvh1`) with the `hevc_metadata` filter, AV1 as `av01`, VC-1 as `vc-1`.
pub open spec fn apple_packaging_ok(v: VideoStream, r: Result<VideoPackaging, VideoPackagingError>) -> bool {
    if codec_is(v.codec_name, "h264"@) {
        match v.dolby_vision {
            None => r matches Ok(p) && is_packaging(p, "avc1"@, None, false),
            Some(c) => if c.profile == 9 {
                r matches Ok(p) && is_packaging(p, "dva1"@, None, true)
            } else {
                r == Err::<VideoPackaging, VideoPackagingError>(
                    VideoPackagingError::UnsupportedDolbyVisionProfile {
                        stream_index: v.stream_index,
                        profile: c.profile,
                    },
                )
            },
        }
    } else if codec_is(v.codec_name, "hevc"@) {
        match v.dolby_vision {
            None => r matches Ok(p) && is_packaging(p, "hvc1"@, Some("hevc_metadata"@), false),
            Some(c) => if c.profile == 5 || c.profile == 8 {
                r matches Ok(p) && is_packaging(p, "dvh1"@, Some("hevc_metadata"@), true)
            } else {
                r == Err::<VideoPackaging, VideoPackagingError>(
                    VideoPackagingError::UnsupportedDolbyVisionProfile {
                        stream_index: v.stream_index,
                        profile: c.profile,
                    },
                )
            },
        }
    } else if codec_is(v.codec_name, "av1"@) {
        r matches Ok(p) && is_packaging(p, "av01"@, None, false)
    } else if codec_is(v.codec_name, "vc1"@) {
        r matches Ok(p) && is_packaging(p, "vc-1"@, None, false)
    } else {
        match v.codec_name {
            Some(c) => r matches Err(VideoPackagingError::UnsupportedCodec { stream_index, codec })
                && stream_index == v.stream_index && codec@ == c@,
            None => r == Err::<VideoPackaging, VideoPackagingError>(
                VideoPackagingError::MissingCodec { stream_index: v.stream_index },
            ),
        }
    }
}

impl VideoStream {
    /// A video stream with the given index and display line, assumed H.264.
    pub fn new(stream_index: usize, display_line: &str, is_default: bool) -> (r: Self)
        ensures
            r.stream_index == stream_index,
            opt_view(r.codec_name) == Some("h264"@),
            r.profile is None,
            r.level is None,
            r.codec_tag is None,
            r.pixel_format is None,
            r.width is None,
            r.height is None,
            r.frame_rate is None,
            r.bit_rate is None,
            r.color_primaries is None,
            r.color_transfer is None,
            r.color_matrix is None,
            r.dolby_vision is None,
            r.display_line@ == display_line@,
            r.is_default == is_default,
    {
        VideoStream {
            stream_index,
            codec_name: Some("h264".to_owned()),
            profile: None,
            level: None,
            codec_tag: None,
            pixel_format: None,
            width: None,
            height: None,
            frame_rate: None,
            bit_rate: None,
            color_primaries: None,
            color_transfer: None,
            color_matrix: None,
            dolby_vision: None,
            display_line: display_line.to_owned(),
            is_default,
        }
    }

    pub fn display_line(&self) -> (r: &str)
        ensures
            r@ == self.display_line@,
    {
        self.display_line.as_str()
    }

    pub fn codec_name(&self) -> (r: Option<&str>)
        ensures
            opt_str_view(r) == opt_view(self.codec_name),
    {
        opt_as_str(&self.codec_name)
    }

    pub fn profile(&self) -> (r: Option<&str>)
        ensures
            opt_str_view(r) == opt_view(self.profile),
    {
        opt_as_str(&self.profile)
    }

    pub fn level(&self) -> (r: Option<u32>)
        ensures
            r == self.level,
    {
        self.level
    }

    pub fn codec_tag(&self) -> (r: Option<&str>)
        ensures
            opt_str_view(r) == opt_view(self.codec_tag),
    {
        opt_as_str(&self.codec_tag)
    }

    pub fn pixel_format(&self) -> (r: Option<&str>)
        ensures
            opt_str_view(r) == opt_view(self.pixel_format),
    {
        opt_as_str(&self.pixel_format)
    }

    /// Width and height, when both are known.
    pub fn dimensions(&self) -> (r: Option<(u32, u32)>)
        ensures
            r == match (self.width, self.height) {
                (Some(w), Some(h)) => Some((w, h)),
                _ => None,
            },
    {
        match (self.width, self.height) {
            (Some(w), Some(h)) => Some((w, h)),
            _ => None,
        }
    }

    pub fn frame_rate(&self) -> (r: Option<&str>)
        ensures
            opt_str_view(r) == opt_view(self.frame_rate),
    {
        opt_as_str(&self.frame_rate)
    }

    pub fn bit_rate(&self) -> (r: Option<u64>)
        ensures
            r == self.bit_rate,
    {
        self.bit_rate
    }

    pub fn color_primaries(&self) -> (r: Option<&str>)
        ensures
            opt_str_view(r) == opt_view(self.color_primaries),
    {
        opt_as_str(&self.color_primaries)
    }

    pub fn color_transfer(&self) -> (r: Option<&str>)
        ensures
            opt_str_view(r) == opt_view(self.color_transfer),
    {
        opt_as_str(&self.color_transfer)
    }

    pub fn color_matrix(&self) -> (r: Option<&str>)
        ensures
            opt_str_view(r) == opt_view(self.color_matrix),
    {
        opt_as_str(&self.color_matrix)
    }

    pub fn dolby_vision(&self) -> (r: Option<&DolbyVisionConfig>)
        ensures
            match r {
                Some(c) => self.dolby_vision == Some(*c),
                None => self.dolby_vision is None,
            },
    {
        match &self.dolby_vision {
            Some(c) => Some(c),
            None => None,
        }
    }

    pub fn is_default(&self) -> (r: bool)
        ensures
            r == self.is_default,
    {
        self.is_default
    }

    /// How the stream is packaged for Apple playback, or why it cannot be.
    pub fn apple_packaging(&self) -> (r: Result<VideoPackaging, VideoPackagingError>)
        ensures
            apple_packaging_ok(*self, r),
    {
        proof {
            reveal_strlit("hevc_metadata");
        }
        match &self.codec_name {
            None => Err(VideoPackagingError::MissingCodec { stream_index: self.stream_index }),
            Some(codec) => {
                let c = codec.as_str();
                if str_eq(c, "h264") {
                    match &self.dolby_vision {
                        None => Ok(VideoPackaging::new("avc1", None, false)),
                        Some(config) => if config.profile == 9 {
                            Ok(VideoPackaging::new("dva1", None, true))
                        } else {
                            Err(
                                VideoPackagingError::UnsupportedDolbyVisionProfile {
                                    stream_index: self.stream_index,
                                    profile: config.profile,
                                },
                            )
                        },
                    }
                } else if str_eq(c, "hevc") {
                    match &self.dolby_vision {
                        None => Ok(VideoPackaging::new("hvc1", Some("hevc_metadata"), false)),
                        Some(config) => if config.profile == 5 || config.profile == 8 {
                            Ok(VideoPackaging::new("dvh1", Some("hevc_metadata"), true))
                        } else {
                            Err(
                                VideoPackagingError::UnsupportedDolbyVisionProfile {
                                    stream_index: self.stream_index,
                                    profile: config.profile,
                                },
                            )
                        },
                    }
                } else if str_eq(c, "av1") {
                    Ok(VideoPackaging::new("av01", None, false))
                } else if str_eq(c, "vc1") {
                    Ok(VideoPackaging::new("vc-1", None, false))
                } else {
                    Err(
                        VideoPackagingError::UnsupportedCodec {
                            stream_index: self.stream_index,
                            codec: codec.clone(),
                        },
                    )
                }
            },
        }
    }
}

impl Track for VideoStream {
    open spec fn index_of(&self) -> usize {
        self.stream_index
    }

    open spec fn default_flag(&self) -> bool {
        self.is_default
    }

    fn track_index(&self) -> (r: usize) {
        self.stream_index
    }

    fn track_is_default(&self) -> (r: bool) {
        self.is_default
    }

    fn duplicate(&self) -> (r: Self) {
        VideoStream {
            stream_index: self.stream_index,
            codec_name: copy_opt(&self.codec_name),
            profile: copy_opt(&self.profile),
            level: self.level,
            codec_tag: copy_opt(&self.codec_tag),
            pixel_format: copy_opt(&self.pixel_format),
            width: self.width,
            height: self.height,
            frame_rate: copy_opt(&self.frame_rate),
            bit_rate: self.bit_rate,
            color_primaries: copy_opt(&self.color_primaries),
            color_transfer: copy_opt(&self.color_transfer),
            color_matrix: copy_opt(&self.color_matrix),
            dolby_vision: self.dolby_vision,
            display_line: self.display_line.clone(),
            is_default: self.is_default,
        }
    }
}


/// Audio stream metadata rendered in the UI.
#[derive(Clone, Debug)]
pub struct AudioStream {
    pub stream_index: usize,
    pub codec_name: Option<String>,
    pub profile: Option<String>,
    pub language: Option<String>,
    pub title: Option<String>,
    pub channel_layout: Option<String>,
    pub channels: Option<u32>,
    pub display_line: String,
    pub is_default: bool,
}

/// Whether an optional text mentions Atmos, ignoring ASCII case.
pub open spec fn mentions_atmos(o: Option<String>) -> bool {
    o matches Some(s) && contains_spec(ascii_lower_seq(s@), "atmos"@)
}

/// Whether the optional text mentions Atmos, ignoring ASCII case.
fn text_mentions_atmos(o: &Option<String>) -> (r: bool)
    ensures
        r == mentions_atmos(*o),
{
    match o {
        Some(s) => {
            let lower = to_ascii_lower(string_chars(s).as_slice());
            let needle = chars_of("atmos");
            contains(lower.as_slice(), needle.as_slice())
        },
        None => false,
    }
}

impl AudioStream {
    pub fn new(stream_index: usize, codec_name: Option<String>, display_line: &str, is_default: bool) -> (r:
        Self)
        ensures
            r.stream_index == stream_index,
            r.codec_name == codec_name,
            r.profile is None,
            r.language is None,
            r.title is None,
            r.channel_layout is None,
            r.channels is None,
            r.display_line@ == display_line@,
            r.is_default == is_default,
    {
        AudioStream {
            stream_index,
            codec_name,
            profile: None,
            language: None,
            title: None,
            channel_layout: None,
            channels: None,
            display_line: display_line.to_owned(),
            is_default,
        }
    }

    pub fn display_line(&self) -> (r: &str)
        ensures
            r@ == self.display_line@,
    {
        self.display_line.as_str()
    }

    pub fn profile(&self) -> (r: Option<&str>)
        ensures
            opt_str_view(r) == opt_view(self.profile),
    {
        opt_as_str(&self.profile)
    }

    pub fn language(&self) -> (r: Option<&str>)
        ensures
            opt_str_view(r) == opt_view(self.language),
    {
        opt_as_str(&self.language)
    }

    pub fn title(&self) -> (r: Option<&str>)
        ensures
            opt_str_view(r) == opt_view(self.title),
    {
        opt_as_str(&self.title)
    }

    pub fn channel_layout(&self) -> (r: Option<&str>)
        ensures
            opt_str_view(r) == opt_view(self.channel_layout),
    {
        opt_as_str(&self.channel_layout)
    }

    pub fn channels(&self) -> (r: Option<u32>)
        ensures
            r == self.channels,
    {
        self.channels
    }

    /// Whether the profile or the title mentions Atmos.
    pub fn is_atmos(&self) -> (r: bool)
        ensures
            r == (mentions_atmos(self.profile) || mentions_atmos(self.title)),
    {
        text_mentions_atmos(&self.profile) || text_mentions_atmos(&self.title)
    }

    pub fn is_default(&self) -> (r: bool)
        ensures
            r == self.is_default,
    {
        self.is_default
    }
}

impl Track for AudioStream {
    open spec fn index_of(&self) -> usize {
        self.stream_index
    }

    open spec fn default_flag(&self) -> bool {
        self.is_default
    }

    fn track_index(&self) -> (r: usize) {
        self.stream_index
    }

    fn track_is_default(&self) -> (r: bool) {
        self.is_default
    }

    fn duplicate(&self) -> (r: Self) {
        AudioStream {
            stream_index: self.stream_index,
            codec_name: copy_opt(&self.codec_name),
            profile: copy_opt(&self.profile),
            language: copy_opt(&self.language),
            title: copy_opt(&self.title),
            channel_layout: copy_opt(&self.channel_layout),
            channels: self.channels,
            display_line: self.display_line.clone(),
            is_default: self.is_default,
        }
    }
}

/// The first default track at position `i` or later, or `0` when there is none.
pub open spec fn first_default_from<T: Track>(s: Seq<T>, i: int) -> int
    decreases s.len() - i,
{
    if i < 0 || i >= s.len() {
        0
    } else if s[i].default_flag() {
        i
    } else {
        first_default_from(s, i + 1)
    }
}

/// The position of the first default track, or `0` when none is marked.
pub open spec fn default_index_spec<T: Track>(s: Seq<T>) -> int {
    first_default_from(s, 0)
}

proof fn lemma_first_default_from<T: Track>(s: Seq<T>, i: int)
    requires
        0 <= i,
    ensures
        (forall|j: int| i <= j < s.len() ==> !(#[trigger] s[j]).default_flag()) ==> first_default_from(
            s,
            i,
        ) == 0,
        (exists|j: int| i <= j < s.len() && (#[trigger] s[j]).default_flag()) ==> ({
            let d = first_default_from(s, i);
            &&& i <= d < s.len()
            &&& s[d].default_flag()
            &&& forall|j: int| i <= j < d ==> !(#[trigger] s[j]).default_flag()
        }),
    decreases s.len() - i,
{
    if i < s.len() && !s[i].default_flag() {
        lemma_first_default_from(s, i + 1);
        if exists|j: int| i <= j < s.len() && (#[trigger] s[j]).default_flag() {
            let j = choose|j: int| i <= j < s.len() && (#[trigger] s[j]).default_flag();
            assert(i + 1 <= j);
        }
    }
}

/// The preselected track is the first one marked default, and the first
/// track when none is marked.
pub proof fn lemma_default_index_is_first_default<T: Track>(s: Seq<T>)
    ensures
        (forall|j: int| 0 <= j < s.len() ==> !(#[trigger] s[j]).default_flag())
            ==> default_index_spec(s) == 0,
        (exists|j: int| 0 <= j < s.len() && (#[trigger] s[j]).default_flag()) ==> ({
            let d = default_index_spec(s);
            &&& 0 <= d < s.len()
            &&& s[d].default_flag()
            &&& forall|j: int| 0 <= j < d ==> !(#[trigger] s[j]).default_flag()
        }),
{
    lemma_first_default_from(s, 0);
}

/// The position of the first default track, or `0` when none is marked.
pub fn default_index<T: Track>(tracks: &[T]) -> (r: usize)
    ensures
        r == default_index_spec(tracks@),
        tracks@.len() > 0 ==> r < tracks@.len(),
        (forall|j: int| 0 <= j < tracks@.len() ==> !(#[trigger] tracks@[j]).default_flag()) ==> r == 0,
        (exists|j: int| 0 <= j < tracks@.len() && (#[trigger] tracks@[j]).default_flag()) ==> (
        tracks@[r as int].default_flag() && forall|j: int|
            0 <= j < r ==> !(#[trigger] tracks@[j]).default_flag()),
{
    proof {
        lemma_default_index_is_first_default(tracks@);
    }
    let mut i: usize = 0;
    while i < tracks.len()
        invariant
            i <= tracks@.len(),
            default_index_spec(tracks@) == first_default_from(tracks@, i as int),
            forall|j: int| 0 <= j < i ==> !(#[trigger] tracks@[j]).default_flag(),
        decreases tracks@.len() - i,
    {
        if tracks[i].track_is_default() {
            return i;
        }
        i = i + 1;
    }
    0
}

/// How quickbridge should handle the selected audio track.
#[derive(Clone, Copy, Debug, PartialEq, Eq, Structural)]
pub enum AudioHandling {
    Copy,
    TranscodeAlac,
}

/// Whether an audio codec must be converted: DTS and TrueHD.
pub open spec fn transcode_spec(codec: Option<Seq<char>>) -> bool {
    codec == Some("dts"@) || codec == Some("truehd"@)
}

/// The handling of the selected audio track, if there is one.
pub open spec fn handling_for(audio: Option<AudioStream>) -> Option<AudioHandling> {
    match audio {
        Some(a) => Some(
            if transcode_spec(opt_view(a.codec_name)) {
                AudioHandling::TranscodeAlac
            } else {
                AudioHandling::Copy
            },
        ),
        None => None,
    }
}

/// The selection of `video` and `audio`, with the audio handling they call for.
pub open spec fn selection_of(video: VideoStream, audio: Option<AudioStream>) -> StreamSelection {
    StreamSelection { video, audio, audio_handling: handling_for(audio) }
}

/// Whether the audio codec must be converted for QuickTime.
pub fn should_transcode_audio(codec_name: Option<&str>) -> (r: bool)
    ensures
        r == transcode_spec(opt_str_view(codec_name)),
{
    match codec_name {
        Some(c) => str_eq(c, "dts") || str_eq(c, "truehd"),
        None => false,
    }
}

/// Final user-selected stream combination.
#[derive(Clone, Debug)]
pub struct StreamSelection {
    pub video: VideoStream,
    pub audio: Option<AudioStream>,
    pub audio_handling: Option<AudioHandling>,
}

/// The output file listing: the video line, then the audio line if any.
pub open spec fn output_file_spec(s: StreamSelection) -> Seq<char> {
    match s.audio {
        Some(a) => s.video.display_line@ + "\n"@ + a.display_line@,
        None => s.video.display_line@,
    }
}

/// The notice shown when the selected audio is converted to ALAC.
pub open spec fn audio_notice_spec(s: StreamSelection) -> Option<Seq<char>> {
    match (s.audio, s.audio_handling) {
        (Some(a), Some(AudioHandling::TranscodeAlac)) => Some(
            "Audio track #"@ + decimal(a.stream_index as nat) + " uses "@ + match a.codec_name {
                Some(c) => c@,
                None => "an unsupported codec"@,
            }
                + ". quickbridge will convert it to ALAC so QuickTime Player can play it."@,
        ),
        _ => None,
    }
}

impl StreamSelection {
    /// The selection of `video` and `audio`; DTS and TrueHD audio is marked
    /// for conversion to ALAC, other audio is copied.
    pub fn new(video: VideoStream, audio: Option<AudioStream>) -> (r: Self)
        ensures
            r == selection_of(video, audio),
    {
        let audio_handling = match &audio {
            Some(stream) => Some(
                if should_transcode_audio(opt_as_str(&stream.codec_name)) {
                    AudioHandling::TranscodeAlac
                } else {
                    AudioHandling::Copy
                },
            ),
            None => None,
        };
        StreamSelection { video, audio, audio_handling }
    }

    pub fn video_stream_index(&self) -> (r: usize)
        ensures
            r == self.video.stream_index,
    {
        self.video.stream_index
    }

    pub fn selected_video(&self) -> (r: &VideoStream)
        ensures
            *r == self.video,
    {
        &self.video
    }

    pub fn audio_stream_index(&self) -> (r: Option<usize>)
        ensures
            r == match self.audio {
                Some(a) => Some(a.stream_index),
                None => None,
            },
    {
        match &self.audio {
            Some(a) => Some(a.stream_index),
            None => None,
        }
    }

    pub fn selected_audio(&self) -> (r: Option<&AudioStream>)
        ensures
            match r {
                Some(a) => self.audio == Some(*a),
                None => self.audio is None,
            },
    {
        match &self.audio {
            Some(a) => Some(a),
            None => None,
        }
    }

    pub fn audio_handling(&self) -> (r: Option<&AudioHandling>)
        ensures
            match r {
                Some(h) => self.audio_handling == Some(*h),
                None => self.audio_handling is None,
            },
    {
        match &self.audio_handling {
            Some(h) => Some(h),
            None => None,
        }
    }

    pub fn video_packaging(&self) -> (r: Result<VideoPackaging, VideoPackagingError>)
        ensures
            apple_packaging_ok(self.video, r),
    {
        self.video.apple_packaging()
    }

    /// The display lines of the selected tracks, one per line.
    pub fn render_output_file(&self) -> (r: String)
        ensures
            r@ == output_file_spec(*self),
    {
        let mut out = string_chars(&self.video.display_line);
        if let Some(audio) = &self.audio {
            append_str(&mut out, "\n");
            append_chars(&mut out, string_chars(&audio.display_line).as_slice());
        }
        string_of(out.as_slice())
    }

    /// The display line of the selected audio track, if any.
    pub fn selected_audio_summary(&self) -> (r: Option<String>)
        ensures
            opt_view(r) == match self.audio {
                Some(a) => Some(a.display_line@),
                None => None,
            },
    {
        match &self.audio {
            Some(a) => Some(a.display_line.clone()),
            None => None,
        }
    }

    /// The notice shown when the selected audio track is converted.
    pub fn audio_notice(&self) -> (r: Option<String>)
        ensures
            opt_view(r) == audio_notice_spec(*self),
    {
        match (&self.audio, &self.audio_handling) {
            (Some(audio), Some(AudioHandling::TranscodeAlac)) => {
                let mut out: Vec<char> = Vec::new();
                append_str(&mut out, "Audio track #");
                append_decimal(&mut out, audio.stream_index as u64);
                append_str(&mut out, " uses ");
                match &audio.codec_name {
                    Some(c) => append_chars(&mut out, string_chars(c).as_slice()),
                    None => append_str(&mut out, "an unsupported codec"),
                }
                append_str(
                    &mut out,
                    ". quickbridge will convert it to ALAC so QuickTime Player can play it.",
                );
                assert(out@ =~= audio_notice_spec(*self).unwrap());
                Some(string_of(out.as_slice()))
            },
            _ => None,
        }
    }

    /// A copy of the selection.
    pub fn duplicate(&self) -> (r: Self)
        ensures
            r == *self,
    {
        let audio = match &self.audio {
            Some(a) => Some(a.duplicate()),
            None => None,
        };
        StreamSelection { video: self.video.duplicate(), audio, audio_handling: self.audio_handling }
    }
}

/// Prompt model used by the UI when selecting tracks.
#[derive(Clone, Debug)]
pub struct TrackSelectionRequest {
    pub videos: Vec<VideoStream>,
    pub audios: Vec<AudioStream>,
    pub default_video_index: usize,
    pub default_audio_index: Option<usize>,
}

/// What choosing `video_index` and `audio_index` from the tracks gives: the
/// video index must be in range; without audio tracks no audio is chosen,
/// otherwise an audio index must be given and be in range.
pub open spec fn build_selection_spec(
    videos: Seq<VideoStream>,
    audios: Seq<AudioStream>,
    video_index: usize,
    audio_index: Option<usize>,
) -> Result<StreamSelection, TrackSelectionError> {
    if video_index >= videos.len() {
        Err(TrackSelectionError::VideoIndexOutOfRange { index: video_index })
    } else if audios.len() == 0 {
        Ok(selection_of(videos[video_index as int], None))
    } else {
        match audio_index {
            Some(i) => if i < audios.len() {
                Ok(selection_of(videos[video_index as int], Some(audios[i as int])))
            } else {
                Err(TrackSelectionError::AudioIndexOutOfRange { index: i })
            },
            None => Err(TrackSelectionError::AudioSelectionRequired),
        }
    }
}

/// Copies of the tracks.
fn copy_tracks<T: Track>(tracks: &Vec<T>) -> (r: Vec<T>)
    ensures
        r@ == tracks@,
{
    let mut out: Vec<T> = Vec::new();
    let mut i: usize = 0;
    while i < tracks.len()
        invariant
            i <= tracks@.len(),
            out@ == tracks@.subrange(0, i as int),
        decreases tracks@.len() - i,
    {
        out.push(tracks[i].duplicate());
        i = i + 1;
        assert(out@ =~= tracks@.subrange(0, i as int));
    }
    assert(tracks@.subrange(0, tracks@.len() as int) =~= tracks@);
    out
}

impl TrackSelectionRequest {
    pub fn videos(&self) -> (r: &[VideoStream])
        ensures
            r@ == self.videos@,
    {
        self.videos.as_slice()
    }

    pub fn audios(&self) -> (r: &[AudioStream])
        ensures
            r@ == self.audios@,
    {
        self.audios.as_slice()
    }

    pub fn default_video_index(&self) -> (r: usize)
        ensures
            r == self.default_video_index,
    {
        self.default_video_index
    }

    pub fn default_audio_index(&self) -> (r: Option<usize>)
        ensures
            r == self.default_audio_index,
    {
        self.default_audio_index
    }

    /// The selection of the given video and audio tracks.
    pub fn build_selection(&self, video_index: usize, audio_index: Option<usize>) -> (r: Result<
        StreamSelection,
        TrackSelectionError,
    >)
        ensures
            r == build_selection_spec(self.videos@, self.audios@, video_index, audio_index),
    {
        if video_index >= self.videos.len() {
            return Err(TrackSelectionError::VideoIndexOutOfRange { index: video_index });
        }
        let video = self.videos[video_index].duplicate();
        if self.audios.len() == 0 {
            return Ok(StreamSelection::new(video, None));
        }
        match audio_index {
            Some(i) => {
                if i < self.audios.len() {
                    Ok(StreamSelection::new(video, Some(self.audios[i].duplicate())))
                } else {
                    Err(TrackSelectionError::AudioIndexOutOfRange { index: i })
                }
            },
            None => Err(TrackSelectionError::AudioSelectionRequired),
        }
    }
}

/// Parsed ffprobe metadata for the input source.
#[derive(Clone, Debug)]
pub struct MediaInfo {
    pub videos: Vec<VideoStream>,
    pub audios: Vec<AudioStream>,
    pub duration: Option<Timecode>,
}

/// The indented display lines of the video tracks.
pub open spec fn video_lines(v: Seq<VideoStream>) -> Seq<Seq<char>> {
    Seq::new(v.len(), |i: int| "    "@ + v[i].display_line@)
}

/// The indented display lines of the audio tracks.
pub open spec fn audio_lines(a: Seq<AudioStream>) -> Seq<Seq<char>> {
    Seq::new(a.len(), |i: int| "    "@ + a[i].display_line@)
}

/// The lines of the input listing: a `Video` section, then an `Audio`
/// section separated by a blank line, each present only when it has tracks.
pub open spec fn input_file_lines(videos: Seq<VideoStream>, audios: Seq<AudioStream>) -> Seq<
    Seq<char>,
> {
    let vpart = if videos.len() > 0 {
        seq!["  Video"@] + video_lines(videos)
    } else {
        Seq::empty()
    };
    let apart = if audios.len() > 0 {
        (if videos.len() > 0 {
            seq![Seq::<char>::empty()]
        } else {
            Seq::empty()
        }) + seq!["  Audio"@] + audio_lines(audios)
    } else {
        Seq::empty()
    };
    vpart + apart
}

/// The input listing, or a note that no supported track was found.
pub open spec fn input_file_spec(videos: Seq<VideoStream>, audios: Seq<AudioStream>) -> Seq<char> {
    if videos.len() == 0 && audios.len() == 0 {
        "  No supported tracks found"@
    } else {
        join_spec(input_file_lines(videos, audios), "\n"@)
    }
}

/// The preselected audio track of `m`: the first default audio track, when
/// there is audio.
pub open spec fn default_audio_spec(m: MediaInfo) -> Option<usize> {
    if m.audios@.len() > 0 {
        Some(default_index_spec(m.audios@) as usize)
    } else {
        None
    }
}

/// Whether `q` offers all tracks of `m`, with the first default video and,
/// when there is audio, the first default audio preselected.
pub open spec fn request_for(q: TrackSelectionRequest, m: MediaInfo) -> bool {
    &&& q.videos@ == m.videos@
    &&& q.audios@ == m.audios@
    &&& q.default_video_index == default_index_spec(m.videos@) as usize
    &&& q.default_audio_index == default_audio_spec(m)
}

/// The selection the defaults of `m` give.
pub open spec fn default_selection_spec(m: MediaInfo) -> Result<StreamSelection, TrackSelectionError> {
    if m.videos@.len() == 0 {
        Err(TrackSelectionError::NoVideoTrack)
    } else {
        build_selection_spec(
            m.videos@,
            m.audios@,
            default_index_spec(m.videos@) as usize,
            default_audio_spec(m),
        )
    }
}

impl MediaInfo {
    pub fn new(videos: Vec<VideoStream>, audios: Vec<AudioStream>, duration: Option<Timecode>) -> (r:
        Self)
        ensures
            r.videos == videos,
            r.audios == audios,
            r.duration == duration,
    {
        MediaInfo { videos, audios, duration }
    }

    pub fn duration(&self) -> (r: Option<Timecode>)
        ensures
            r == self.duration,
    {
        self.duration
    }

    pub fn videos(&self) -> (r: &[VideoStream])
        ensures
            r@ == self.videos@,
    {
        self.videos.as_slice()
    }

    pub fn audios(&self) -> (r: &[AudioStream])
        ensures
            r@ == self.audios@,
    {
        self.audios.as_slice()
    }

    /// The input tracks listed by kind, as shown before the choice.
    pub fn render_input_file(&self) -> (r: String)
        ensures
            r@ == input_file_spec(self.videos@, self.audios@),
    {
        if self.videos.len() == 0 && self.audios.len() == 0 {
            return "  No supported tracks found".to_owned();
        }
        let ghost want = input_file_lines(self.videos@, self.audios@);
        let mut lines: Vec<Vec<char>> = Vec::new();
        if self.videos.len() > 0 {
            lines.push(chars_of("  Video"));
            let mut i: usize = 0;
            while i < self.videos.len()
                invariant
                    i <= self.videos@.len(),
                    self.videos@.len() > 0,
                    lines@.len() == i + 1,
                    forall|j: int| 0 <= j < lines@.len() ==> #[trigger] lines@[j]@ == (seq!["  Video"@] + video_lines(self.videos@))[j],
                decreases self.videos@.len() - i,
            {
                let mut line = chars_of("    ");
                append_chars(&mut line, string_chars(&self.videos[i].display_line).as_slice());
                lines.push(line);
                i = i + 1;
            }
        }
        let ghost vcount = lines@.len();
        if self.audios.len() > 0 {
            if self.videos.len() > 0 {
                lines.push(Vec::new());
            }
            lines.push(chars_of("  Audio"));
            let ghost base = lines@.len();
            let mut i: usize = 0;
            while i < self.audios.len()
                invariant
                    i <= self.audios@.len(),
                    lines@.len() == base + i,
                    base == vcount + (if self.videos@.len() > 0 { 2int } else { 1int }),
                    vcount == (if self.videos@.len() > 0 { self.videos@.len() + 1 } else { 0 }),
                    want == input_file_lines(self.videos@, self.audios@),
                    self.audios@.len() > 0,
                    forall|j: int| 0 <= j < lines@.len() ==> #[trigger] lines@[j]@ == want[j],
                decreases self.audios@.len() - i,
            {
                let mut line = chars_of("    ");
                append_chars(&mut line, string_chars(&self.audios[i].display_line).as_slice());
                lines.push(line);
                i = i + 1;
            }
        }
        assert(Seq::new(lines@.len(), |i: int| lines@[i]@) =~= want);
        string_of(join(&lines, "\n").as_slice())
    }

    /// The track choice offered to the user.
    pub fn selection_request(&self) -> (r: Result<TrackSelectionRequest, TrackSelectionError>)
        ensures
            match r {
                Ok(q) => self.videos@.len() > 0 && request_for(q, *self),
                Err(e) => self.videos@.len() == 0 && e == TrackSelectionError::NoVideoTrack,
            },
    {
        if self.videos.len() == 0 {
            return Err(TrackSelectionError::NoVideoTrack);
        }
        let default_audio_index = if self.audios.len() > 0 {
            Some(default_index(self.audios.as_slice()))
        } else {
            None
        };
        Ok(
            TrackSelectionRequest {
                videos: copy_tracks(&self.videos),
                audios: copy_tracks(&self.audios),
                default_video_index: default_index(self.videos.as_slice()),
                default_audio_index,
            },
        )
    }

    /// The preselected tracks, as if the user accepted the defaults.
    pub fn default_selection(&self) -> (r: Result<StreamSelection, TrackSelectionError>)
        ensures
            r == default_selection_spec(*self),
    {
        let request = match self.selection_request() {
            Ok(q) => q,
            Err(e) => return Err(e),
        };
        request.build_selection(request.default_video_index, request.default_audio_index)
    }
}


/// Dolby Vision side data of an ffprobe stream.
#[derive(Clone, Debug)]
pub struct FfprobeSideData {
    pub side_data_type: Option<String>,
    pub dv_profile: Option<u8>,
    pub dv_level: Option<u8>,
    pub bl_present_flag: Option<u8>,
    pub el_present_flag: Option<u8>,
    pub dv_bl_signal_compatibility_id: Option<u8>,
}

/// The Dolby Vision configuration of a side data record, when all of its
/// fields are present.
pub open spec fn side_data_dolby_vision(d: FfprobeSideData) -> Option<DolbyVisionConfig> {
    match (
        d.dv_profile,
        d.dv_level,
        d.bl_present_flag,
        d.el_present_flag,
        d.dv_bl_signal_compatibility_id,
    ) {
        (Some(p), Some(l), Some(b), Some(e), Some(c)) => Some(
            DolbyVisionConfig {
                profile: p,
                level: l,
                base_layer_present: b != 0,
                enhancement_layer_present: e != 0,
                base_layer_signal_compatibility_id: c,
            },
        ),
        _ => None,
    }
}

impl FfprobeSideData {
    /// The Dolby Vision configuration, when all of its fields are present.
    pub fn dolby_vision(&self) -> (r: Option<DolbyVisionConfig>)
        ensures
            r == side_data_dolby_vision(*self),
    {
        match (
            self.dv_profile,
            self.dv_level,
            self.bl_present_flag,
            self.el_present_flag,
            self.dv_bl_signal_compatibility_id,
        ) {
            (Some(p), Some(l), Some(b), Some(e), Some(c)) => Some(
                DolbyVisionConfig {
                    profile: p,
                    level: l,
                    base_layer_present: b != 0,
                    enhancement_layer_present: e != 0,
                    base_layer_signal_compatibility_id: c,
                },
            ),
            _ => None,
        }
    }
}

/// Tags of an ffprobe stream.
#[derive(Clone, Debug)]
pub struct FfprobeTags {
    pub language: Option<String>,
    pub title: Option<String>,
}

/// Disposition flags of an ffprobe stream.
#[derive(Clone, Copy, Debug)]
pub struct FfprobeDisposition {
    pub default: Option<u8>,
    pub attached_pic: Option<u8>,
}

impl FfprobeDisposition {
    pub fn is_default(&self) -> (r: Option<bool>)
        ensures
            r == match self.default {
                Some(v) => Some(v != 0),
                None => None,
            },
    {
        match self.default {
            Some(v) => Some(v != 0),
            None => None,
        }
    }

    pub fn is_attached_pic(&self) -> (r: Option<bool>)
        ensures
            r == match self.attached_pic {
                Some(v) => Some(v != 0),
                None => None,
            },
    {
        match self.attached_pic {
            Some(v) => Some(v != 0),
            None => None,
        }
    }
}

/// One stream of ffprobe's JSON output.
#[derive(Clone, Debug)]
pub struct FfprobeStream {
    pub index: usize,
    pub codec_type: Option<String>,
    pub codec_name: Option<String>,
    pub profile: Option<String>,
    pub level: Option<u32>,
    pub codec_tag_string: Option<String>,
    pub width: Option<u32>,
    pub height: Option<u32>,
    pub pix_fmt: Option<String>,
    pub color_range: Option<String>,
    pub color_space: Option<String>,
    pub color_primaries: Option<String>,
    pub color_transfer: Option<String>,
    pub r_frame_rate: Option<String>,
    pub field_order: Option<String>,
    pub sample_fmt: Option<String>,
    pub sample_rate: Option<String>,
    pub channels: Option<u32>,
    pub channel_layout: Option<String>,
    pub bit_rate: Option<String>,
    pub disposition: Option<FfprobeDisposition>,
    pub tags: Option<FfprobeTags>,
    pub side_data_list: Vec<FfprobeSideData>,
}

/// What the library reads of ffprobe's JSON output: the streams, and the
/// container duration when ffprobe reported one.
#[derive(Clone, Debug)]
pub struct FfprobeOutput {
    pub streams: Vec<FfprobeStream>,
    pub duration: Option<Timecode>,
}

/// Whether the disposition marks the stream as the default one.
pub open spec fn disposition_default(d: Option<FfprobeDisposition>) -> bool {
    d matches Some(x) && x.default matches Some(v) && v != 0
}

/// Whether the disposition marks the stream as attached cover art.
pub open spec fn disposition_attached_pic(d: Option<FfprobeDisposition>) -> bool {
    d matches Some(x) && x.attached_pic matches Some(v) && v != 0
}

/// `(language)` for a known language other than `und`, else nothing.
pub open spec fn language_suffix_spec(tags: Option<FfprobeTags>) -> Seq<char> {
    match tags {
        Some(t) => match t.language {
            Some(l) => if l@.len() > 0 && l@ != "und"@ {
                "("@ + l@ + ")"@
            } else {
                Seq::empty()
            },
            None => Seq::empty(),
        },
        None => Seq::empty(),
    }
}

/// `, ` and the details joined by `, `, or nothing without details.
pub open spec fn detail_suffix_spec(details: Seq<Seq<char>>) -> Seq<char> {
    if details.len() == 0 {
        Seq::empty()
    } else {
        ", "@ + join_spec(details, ", "@)
    }
}

/// ` (default)` for a default stream.
pub open spec fn default_suffix_spec(st: FfprobeStream) -> Seq<char> {
    if disposition_default(st.disposition) {
        " (default)"@
    } else {
        Seq::empty()
    }
}

/// The pixel format detail, qualified by range, space and field order.
pub open spec fn pixel_detail_spec(st: FfprobeStream) -> Seq<Seq<char>> {
    match non_empty(st.pix_fmt) {
        Some(p) => {
            let q = opt_list(non_empty(st.color_range)) + opt_list(non_empty(st.color_space))
                + opt_list(non_empty(st.field_order));
            seq![
                if q.len() == 0 {
                    p
                } else {
                    p + "("@ + join_spec(q, ", "@) + ")"@
                },
            ]
        },
        None => Seq::empty(),
    }
}

/// The details of a video stream line: pixel format, then size.
pub open spec fn video_details_spec(st: FfprobeStream) -> Seq<Seq<char>> {
    pixel_detail_spec(st) + match (st.width, st.height) {
        (Some(w), Some(h)) => seq![decimal(w as nat) + "x"@ + decimal(h as nat)],
        _ => Seq::empty(),
    }
}

/// The ffprobe-style line of a video stream.
pub open spec fn video_line_spec(st: FfprobeStream) -> Seq<char> {
    "Stream #0:"@ + decimal(st.index as nat) + language_suffix_spec(st.tags) + ": Video: "@
        + text_or(st.codec_name, "unknown"@) + match non_empty(st.profile) {
        Some(p) => " ("@ + p + ")"@,
        None => Seq::empty(),
    } + detail_suffix_spec(video_details_spec(st)) + default_suffix_spec(st)
}

/// A channel count in words.
pub open spec fn channel_count_spec(channels: u32) -> Seq<char> {
    if channels == 1 {
        "mono"@
    } else if channels == 2 {
        "stereo"@
    } else if channels == 6 {
        "5.1"@
    } else if channels == 8 {
        "7.1"@
    } else {
        decimal(channels as nat) + " channels"@
    }
}

/// The details of an audio stream line: sample rate, layout (or channel
/// count), sample format and bit rate in kb/s.
pub open spec fn audio_details_spec(st: FfprobeStream) -> Seq<Seq<char>> {
    opt_list(
        match non_empty(st.sample_rate) {
            Some(r) => Some(r + " Hz"@),
            None => None,
        },
    ) + match non_empty(st.channel_layout) {
        Some(l) => seq![l],
        None => match st.channels {
            Some(c) => seq![channel_count_spec(c)],
            None => Seq::empty(),
        },
    } + opt_list(non_empty(st.sample_fmt)) + match st.bit_rate {
        Some(b) => match parse_u64_spec(b@) {
            Some(n) => seq![decimal((n / 1000) as nat) + " kb/s"@],
            None => Seq::empty(),
        },
        None => Seq::empty(),
    }
}

/// The ffprobe-style line of an audio stream.
pub open spec fn audio_line_spec(st: FfprobeStream) -> Seq<char> {
    "Stream #0:"@ + decimal(st.index as nat) + language_suffix_spec(st.tags) + ": Audio: "@
        + text_or(st.codec_name, "unknown"@) + detail_suffix_spec(audio_details_spec(st))
        + default_suffix_spec(st)
}

/// What `char::to_uppercase` yields for `c`.
pub uninterp spec fn uppercase_mapping(c: char) -> Seq<char>;

/// The text with its first character in upper case.
pub open spec fn capitalize_spec(s: Seq<char>) -> Seq<char> {
    if s.len() == 0 {
        Seq::empty()
    } else {
        uppercase_mapping(s[0]) + s.drop_first()
    }
}

/// The line of a stream that is neither video nor audio.
pub open spec fn fallback_line_spec(st: FfprobeStream) -> Seq<char> {
    "Stream #0:"@ + decimal(st.index as nat) + ": "@ + capitalize_spec(
        text_or(st.codec_type, "unknown"@),
    ) + ": "@ + text_or(st.codec_name, "unknown"@)
}

/// The ffprobe-style line of any stream.
pub open spec fn stream_line_spec(st: FfprobeStream) -> Seq<char> {
    if opt_view(st.codec_type) == Some("video"@) {
        video_line_spec(st)
    } else if opt_view(st.codec_type) == Some("audio"@) {
        audio_line_spec(st)
    } else {
        fallback_line_spec(st)
    }
}

/// The upper case mapping of `c` (`char::to_uppercase`), one or more characters.
#[verifier::external_body]
fn uppercase_chars(c: char) -> (r: Vec<char>)
    ensures
        r@ == uppercase_mapping(c),
{
    c.to_uppercase().collect()
}

/// The text with its first character in upper case.
pub fn capitalize(value: &str) -> (r: String)
    ensures
        r@ == capitalize_spec(value@),
{
    let chars = chars_of(value);
    if chars.len() == 0 {
        return String::new();
    }
    let mut out = uppercase_chars(chars[0]);
    let mut i: usize = 1;
    let ghost start = out@;
    while i < chars.len()
        invariant
            1 <= i <= chars@.len(),
            out@ == start + chars@.subrange(1, i as int),
        decreases chars@.len() - i,
    {
        out.push(chars[i]);
        i = i + 1;
        assert(out@ =~= start + chars@.subrange(1, i as int));
    }
    assert(chars@.subrange(1, chars@.len() as int) =~= value@.drop_first());
    string_of(out.as_slice())
}

/// `(language)` for a known language other than `und`.
pub fn language_suffix(tags: Option<&FfprobeTags>) -> (r: String)
    ensures
        r@ == language_suffix_spec(
            match tags {
                Some(t) => Some(*t),
                None => None,
            },
        ),
{
    if let Some(t) = tags {
        if let Some(l) = &t.language {
            if l.as_str().unicode_len() > 0 && !str_eq(l.as_str(), "und") {
                let mut out: Vec<char> = Vec::new();
                append_str(&mut out, "(");
                append_chars(&mut out, string_chars(l).as_slice());
                append_str(&mut out, ")");
                return string_of(out.as_slice());
            }
        }
    }
    String::new()
}

/// `, ` and the details joined by `, `, or nothing.
pub fn detail_suffix(details: &Vec<Vec<char>>) -> (r: String)
    ensures
        r@ == detail_suffix_spec(vec_views(details@)),
{
    if details.len() == 0 {
        return String::new();
    }
    let mut out: Vec<char> = Vec::new();
    append_str(&mut out, ", ");
    append_chars(&mut out, join(details, ", ").as_slice());
    string_of(out.as_slice())
}

/// ` (default)` for a default stream.
pub fn default_suffix(stream: &FfprobeStream) -> (r: &'static str)
    ensures
        r@ == default_suffix_spec(*stream),
{
    let is_default = match &stream.disposition {
        Some(d) => match d.is_default() {
            Some(b) => b,
            None => false,
        },
        None => false,
    };
    if is_default {
        " (default)"
    } else {
        proof {
            reveal_strlit("");
        }
        ""
    }
}

/// A channel count in words.
pub fn format_channel_count(channels: u32) -> (r: String)
    ensures
        r@ == channel_count_spec(channels),
{
    if channels == 1 {
        "mono".to_owned()
    } else if channels == 2 {
        "stereo".to_owned()
    } else if channels == 6 {
        "5.1".to_owned()
    } else if channels == 8 {
        "7.1".to_owned()
    } else {
        let mut out: Vec<char> = Vec::new();
        append_decimal(&mut out, channels as u64);
        append_str(&mut out, " channels");
        string_of(out.as_slice())
    }
}

/// The ffprobe-style line of a video stream.
pub fn display_video_stream_line(stream: &FfprobeStream) -> (r: String)
    ensures
        r@ == video_line_spec(*stream),
{
    let mut details: Vec<Vec<char>> = Vec::new();
    if let Some(pix) = non_empty_chars(&stream.pix_fmt) {
        let mut qualifiers: Vec<Vec<char>> = Vec::new();
        push_some(&mut qualifiers, non_empty_chars(&stream.color_range));
        push_some(&mut qualifiers, non_empty_chars(&stream.color_space));
        push_some(&mut qualifiers, non_empty_chars(&stream.field_order));
        let mut d = pix;
        if qualifiers.len() > 0 {
            append_str(&mut d, "(");
            append_chars(&mut d, join(&qualifiers, ", ").as_slice());
            append_str(&mut d, ")");
        }
        push_line(&mut details, d);
    }
    assert(vec_views(details@) =~= pixel_detail_spec(*stream));
    if let (Some(w), Some(h)) = (stream.width, stream.height) {
        let mut d: Vec<char> = Vec::new();
        append_decimal(&mut d, w as u64);
        append_str(&mut d, "x");
        append_decimal(&mut d, h as u64);
        push_line(&mut details, d);
    }
    assert(vec_views(details@) =~= video_details_spec(*stream));
    let mut out: Vec<char> = Vec::new();
    append_str(&mut out, "Stream #0:");
    append_decimal(&mut out, stream.index as u64);
    let tags = match &stream.tags {
        Some(t) => Some(t),
        None => None,
    };
    append_chars(&mut out, string_chars(&language_suffix(tags)).as_slice());
    append_str(&mut out, ": Video: ");
    match &stream.codec_name {
        Some(c) => append_chars(&mut out, string_chars(c).as_slice()),
        None => append_str(&mut out, "unknown"),
    }
    if let Some(p) = non_empty_chars(&stream.profile) {
        append_str(&mut out, " (");
        append_chars(&mut out, p.as_slice());
        append_str(&mut out, ")");
    }
    append_chars(&mut out, string_chars(&detail_suffix(&details)).as_slice());
    append_str(&mut out, default_suffix(stream));
    assert(out@ =~= video_line_spec(*stream));
    string_of(out.as_slice())
}

/// The ffprobe-style line of an audio stream.
pub fn display_audio_stream_line(stream: &FfprobeStream) -> (r: String)
    ensures
        r@ == audio_line_spec(*stream),
{
    let mut details: Vec<Vec<char>> = Vec::new();
    if let Some(rate) = non_empty_chars(&stream.sample_rate) {
        let mut d = rate;
        append_str(&mut d, " Hz");
        push_line(&mut details, d);
    }
    if let Some(layout) = non_empty_chars(&stream.channel_layout) {
        push_line(&mut details, layout);
    } else if let Some(channels) = stream.channels {
        push_line(&mut details, string_chars(&format_channel_count(channels)));
    }
    push_some(&mut details, non_empty_chars(&stream.sample_fmt));
    if let Some(b) = &stream.bit_rate {
        if let Some(n) = parse_u64(string_chars(b).as_slice()) {
            let mut d: Vec<char> = Vec::new();
            append_decimal(&mut d, n / 1000);
            append_str(&mut d, " kb/s");
            push_line(&mut details, d);
        }
    }
    assert(vec_views(details@) =~= audio_details_spec(*stream));
    let mut out: Vec<char> = Vec::new();
    append_str(&mut out, "Stream #0:");
    append_decimal(&mut out, stream.index as u64);
    let tags = match &stream.tags {
        Some(t) => Some(t),
        None => None,
    };
    append_chars(&mut out, string_chars(&language_suffix(tags)).as_slice());
    append_str(&mut out, ": Audio: ");
    match &stream.codec_name {
        Some(c) => append_chars(&mut out, string_chars(c).as_slice()),
        None => append_str(&mut out, "unknown"),
    }
    append_chars(&mut out, string_chars(&detail_suffix(&details)).as_slice());
    append_str(&mut out, default_suffix(stream));
    assert(out@ =~= audio_line_spec(*stream));
    string_of(out.as_slice())
}

/// The line of a stream that is neither video nor audio.
pub fn fallback_stream_line(stream: &FfprobeStream) -> (r: String)
    ensures
        r@ == fallback_line_spec(*stream),
{
    let mut out: Vec<char> = Vec::new();
    append_str(&mut out, "Stream #0:");
    append_decimal(&mut out, stream.index as u64);
    append_str(&mut out, ": ");
    let kind = match &stream.codec_type {
        Some(k) => capitalize(k.as_str()),
        None => capitalize("unknown"),
    };
    append_chars(&mut out, string_chars(&kind).as_slice());
    append_str(&mut out, ": ");
    match &stream.codec_name {
        Some(c) => append_chars(&mut out, string_chars(c).as_slice()),
        None => append_str(&mut out, "unknown"),
    }
    assert(out@ =~= fallback_line_spec(*stream));
    string_of(out.as_slice())
}

/// The ffprobe-style line of any stream.
pub fn display_stream_line(stream: &FfprobeStream) -> (r: String)
    ensures
        r@ == stream_line_spec(*stream),
{
    let kind = opt_as_str(&stream.codec_type);
    match kind {
        Some(k) => if str_eq(k, "video") {
            display_video_stream_line(stream)
        } else if str_eq(k, "audio") {
            display_audio_stream_line(stream)
        } else {
            fallback_stream_line(stream)
        },
        None => fallback_stream_line(stream),
    }
}


/// The first side data record at position `i` or later whose type is the
/// Dolby Vision configuration record.
pub open spec fn first_dovi_from(list: Seq<FfprobeSideData>, i: int) -> Option<FfprobeSideData>
    decreases list.len() - i,
{
    if i < 0 || i >= list.len() {
        None
    } else if opt_view(list[i].side_data_type) == Some("DOVI configuration record"@) {
        Some(list[i])
    } else {
        first_dovi_from(list, i + 1)
    }
}

/// The Dolby Vision configuration of the first configuration record, if it
/// is complete.
pub open spec fn stream_dolby_vision(st: FfprobeStream) -> Option<DolbyVisionConfig> {
    match first_dovi_from(st.side_data_list@, 0) {
        Some(d) => side_data_dolby_vision(d),
        None => None,
    }
}

/// A language or title tag of the stream.
pub open spec fn tag_language(tags: Option<FfprobeTags>) -> Option<String> {
    match tags {
        Some(t) => t.language,
        None => None,
    }
}

/// The title tag of the stream.
pub open spec fn tag_title(tags: Option<FfprobeTags>) -> Option<String> {
    match tags {
        Some(t) => t.title,
        None => None,
    }
}

/// Whether ffprobe's stream is a video track (cover art excluded).
pub open spec fn is_video_source(st: FfprobeStream) -> bool {
    opt_view(st.codec_type) == Some("video"@) && !disposition_attached_pic(st.disposition)
}

/// Whether ffprobe's stream is an audio track.
pub open spec fn is_audio_source(st: FfprobeStream) -> bool {
    opt_view(st.codec_type) == Some("audio"@)
}

/// The bit rate of the stream, when it is a number.
pub open spec fn stream_bit_rate(st: FfprobeStream) -> Option<u64> {
    match st.bit_rate {
        Some(b) => parse_u64_spec(b@),
        None => None,
    }
}

/// Whether `v` is the video track ffprobe's stream `st` describes.
pub open spec fn video_from(v: VideoStream, st: FfprobeStream) -> bool {
    &&& v.stream_index == st.index
    &&& v.codec_name == st.codec_name
    &&& v.profile == st.profile
    &&& v.level == st.level
    &&& v.codec_tag == st.codec_tag_string
    &&& v.pixel_format == st.pix_fmt
    &&& v.width == st.width
    &&& v.height == st.height
    &&& v.frame_rate == st.r_frame_rate
    &&& v.bit_rate == stream_bit_rate(st)
    &&& v.color_primaries == st.color_primaries
    &&& v.color_transfer == st.color_transfer
    &&& v.color_matrix == st.color_space
    &&& v.dolby_vision == stream_dolby_vision(st)
    &&& v.display_line@ == stream_line_spec(st)
    &&& v.is_default == disposition_default(st.disposition)
}

/// Whether `a` is the audio track ffprobe's stream `st` describes.
pub open spec fn audio_from(a: AudioStream, st: FfprobeStream) -> bool {
    &&& a.stream_index == st.index
    &&& a.codec_name == st.codec_name
    &&& a.profile == st.profile
    &&& a.language == tag_language(st.tags)
    &&& a.title == tag_title(st.tags)
    &&& a.channel_layout == st.channel_layout
    &&& a.channels == st.channels
    &&& a.display_line@ == stream_line_spec(st)
    &&& a.is_default == disposition_default(st.disposition)
}

/// `x` placed after the last element of `sorted` whose index is not greater.
pub open spec fn insert_by_index(sorted: Seq<FfprobeStream>, x: FfprobeStream) -> Seq<FfprobeStream>
    decreases sorted.len(),
{
    if sorted.len() == 0 {
        seq![x]
    } else if sorted.last().index <= x.index {
        sorted.push(x)
    } else {
        insert_by_index(sorted.drop_last(), x).push(sorted.last())
    }
}

/// The streams stably sorted by stream index.
pub open spec fn sort_by_index(s: Seq<FfprobeStream>) -> Seq<FfprobeStream>
    decreases s.len(),
{
    if s.len() == 0 {
        s
    } else {
        insert_by_index(sort_by_index(s.drop_last()), s.last())
    }
}

/// The video tracks among the streams, in order.
pub open spec fn video_sources(s: Seq<FfprobeStream>) -> Seq<FfprobeStream>
    decreases s.len(),
{
    if s.len() == 0 {
        s
    } else if is_video_source(s.last()) {
        video_sources(s.drop_last()).push(s.last())
    } else {
        video_sources(s.drop_last())
    }
}

/// The audio tracks among the streams, in order.
pub open spec fn audio_sources(s: Seq<FfprobeStream>) -> Seq<FfprobeStream>
    decreases s.len(),
{
    if s.len() == 0 {
        s
    } else if is_audio_source(s.last()) {
        audio_sources(s.drop_last()).push(s.last())
    } else {
        audio_sources(s.drop_last())
    }
}

/// What `media` holds of ffprobe's output: its video and audio tracks, each
/// list ordered by stream index, and the container duration.
pub open spec fn media_from(media: MediaInfo, output: FfprobeOutput) -> bool {
    let sorted = sort_by_index(output.streams@);
    let vs = video_sources(sorted);
    let aus = audio_sources(sorted);
    &&& media.duration == output.duration
    &&& media.videos@.len() == vs.len()
    &&& forall|i: int| 0 <= i < vs.len() ==> video_from(#[trigger] media.videos@[i], vs[i])
    &&& media.audios@.len() == aus.len()
    &&& forall|i: int| 0 <= i < aus.len() ==> audio_from(#[trigger] media.audios@[i], aus[i])
}

proof fn lemma_insert_at(s: Seq<FfprobeStream>, x: FfprobeStream, j: int)
    requires
        0 <= j <= s.len(),
        forall|k: int| j <= k < s.len() ==> (#[trigger] s[k]).index > x.index,
        j == 0 || s[j - 1].index <= x.index,
    ensures
        insert_by_index(s, x) == s.insert(j, x),
    decreases s.len(),
{
    if s.len() == 0 {
        assert(s.insert(j, x) =~= seq![x]);
    } else if j == s.len() {
        assert(s.insert(j, x) =~= s.push(x));
    } else {
        let t = s.drop_last();
        assert forall|k: int| j <= k < t.len() implies (#[trigger] t[k]).index > x.index by {
            assert(t[k] == s[k]);
        }
        lemma_insert_at(t, x, j);
        assert(s.insert(j, x) =~= t.insert(j, x).push(s.last()));
    }
}

/// Inserts `x` after the last stream whose index is not greater.
fn insert_by_stream_index(out: &mut Vec<FfprobeStream>, x: FfprobeStream)
    ensures
        final(out)@ == insert_by_index(old(out)@, x),
{
    let mut j: usize = out.len();
    while j > 0 && out[j - 1].index > x.index
        invariant
            j <= out@.len(),
            forall|k: int| j <= k < out@.len() ==> (#[trigger] out@[k]).index > x.index,
        decreases j,
    {
        j = j - 1;
    }
    proof {
        lemma_insert_at(out@, x, j as int);
    }
    out.insert(j, x);
}

/// The streams stably sorted by stream index.
fn sort_streams(streams: Vec<FfprobeStream>) -> (r: Vec<FfprobeStream>)
    ensures
        r@ == sort_by_index(streams@),
{
    let ghost orig = streams@;
    let n: usize = streams.len();
    let mut rest = streams;
    let mut out: Vec<FfprobeStream> = Vec::new();
    let mut k: usize = 0;
    assert(orig.subrange(0, 0) =~= Seq::<FfprobeStream>::empty());
    while rest.len() > 0
        invariant
            k <= orig.len(),
            orig.len() == n,
            orig.len() == k + rest@.len(),
            rest@ == orig.subrange(k as int, orig.len() as int),
            out@ == sort_by_index(orig.subrange(0, k as int)),
        decreases rest@.len(),
    {
        let x = rest.remove(0);
        proof {
            let next = orig.subrange(0, k + 1);
            assert(next.drop_last() =~= orig.subrange(0, k as int));
            assert(next.last() == x);
            assert(rest@ =~= orig.subrange(k + 1, orig.len() as int));
        }
        insert_by_stream_index(&mut out, x);
        k = k + 1;
    }
    assert(orig.subrange(0, k as int) =~= orig);
    out
}

/// The Dolby Vision configuration of the first configuration record.
fn find_dolby_vision(list: &Vec<FfprobeSideData>) -> (r: Option<DolbyVisionConfig>)
    ensures
        r == match first_dovi_from(list@, 0) {
            Some(d) => side_data_dolby_vision(d),
            None => None,
        },
{
    let mut i: usize = 0;
    while i < list.len()
        invariant
            i <= list@.len(),
            first_dovi_from(list@, 0) == first_dovi_from(list@, i as int),
        decreases list@.len() - i,
    {
        let is_dovi = match &list[i].side_data_type {
            Some(t) => str_eq(t.as_str(), "DOVI configuration record"),
            None => false,
        };
        if is_dovi {
            return list[i].dolby_vision();
        }
        i = i + 1;
    }
    None
}

/// Whether the disposition marks the stream as the default one.
fn stream_is_default(d: &Option<FfprobeDisposition>) -> (r: bool)
    ensures
        r == disposition_default(*d),
{
    match d {
        Some(x) => match x.is_default() {
            Some(b) => b,
            None => false,
        },
        None => false,
    }
}

/// The video track ffprobe's stream describes.
fn video_from_stream(st: &FfprobeStream) -> (v: VideoStream)
    ensures
        video_from(v, *st),
{
    let bit_rate = match &st.bit_rate {
        Some(b) => parse_u64(string_chars(b).as_slice()),
        None => None,
    };
    VideoStream {
        stream_index: st.index,
        codec_name: copy_opt(&st.codec_name),
        profile: copy_opt(&st.profile),
        level: st.level,
        codec_tag: copy_opt(&st.codec_tag_string),
        pixel_format: copy_opt(&st.pix_fmt),
        width: st.width,
        height: st.height,
        frame_rate: copy_opt(&st.r_frame_rate),
        bit_rate,
        color_primaries: copy_opt(&st.color_primaries),
        color_transfer: copy_opt(&st.color_transfer),
        color_matrix: copy_opt(&st.color_space),
        dolby_vision: find_dolby_vision(&st.side_data_list),
        display_line: display_stream_line(st),
        is_default: stream_is_default(&st.disposition),
    }
}

/// The audio track ffprobe's stream describes.
fn audio_from_stream(st: &FfprobeStream) -> (a: AudioStream)
    ensures
        audio_from(a, *st),
{
    let (language, title) = match &st.tags {
        Some(t) => (copy_opt(&t.language), copy_opt(&t.title)),
        None => (None, None),
    };
    AudioStream {
        stream_index: st.index,
        codec_name: copy_opt(&st.codec_name),
        profile: copy_opt(&st.profile),
        language,
        title,
        channel_layout: copy_opt(&st.channel_layout),
        channels: st.channels,
        display_line: display_stream_line(st),
        is_default: stream_is_default(&st.disposition),
    }
}

impl MediaInfo {
    /// The tracks of ffprobe's output: video streams other than cover art and
    /// audio streams, each ordered by stream index; other streams are skipped.
    pub fn from_ffprobe_output(output: FfprobeOutput) -> (r: MediaInfo)
        ensures
            media_from(r, output),
    {
        let ghost out0 = output;
        let duration = output.duration;
        let sorted = sort_streams(output.streams);
        let ghost all = sorted@;
        let mut videos: Vec<VideoStream> = Vec::new();
        let mut audios: Vec<AudioStream> = Vec::new();
        let mut i: usize = 0;
        assert(all.subrange(0, 0) =~= Seq::<FfprobeStream>::empty());
        while i < sorted.len()
            invariant
                i <= all.len(),
                all == sorted@,
                videos@.len() == video_sources(all.subrange(0, i as int)).len(),
                forall|j: int|
                    0 <= j < videos@.len() ==> video_from(
                        #[trigger] videos@[j],
                        video_sources(all.subrange(0, i as int))[j],
                    ),
                audios@.len() == audio_sources(all.subrange(0, i as int)).len(),
                forall|j: int|
                    0 <= j < audios@.len() ==> audio_from(
                        #[trigger] audios@[j],
                        audio_sources(all.subrange(0, i as int))[j],
                    ),
            decreases all.len() - i,
        {
            let st = &sorted[i];
            let ghost prev = all.subrange(0, i as int);
            let ghost next = all.subrange(0, i + 1);
            assert(next.drop_last() =~= prev);
            assert(next.last() == *st);
            proof {
                reveal_strlit("video");
                reveal_strlit("audio");
            }
            let kind = opt_as_str(&st.codec_type);
            let is_video = match kind {
                Some(k) => str_eq(k, "video"),
                None => false,
            };
            let is_audio = match kind {
                Some(k) => str_eq(k, "audio"),
                None => false,
            };
            let attached = match &st.disposition {
                Some(d) => match d.is_attached_pic() {
                    Some(b) => b,
                    None => false,
                },
                None => false,
            };
            if is_video && !attached {
                assert("video"@ != "audio"@) by {
                    assert("video"@[0] != "audio"@[0]);
                }
                assert(!is_audio_source(*st));
                videos.push(video_from_stream(st));
            } else if is_audio {
                assert(!is_video_source(*st));
                audios.push(audio_from_stream(st));
            } else {
                assert(!is_video_source(*st));
                assert(!is_audio_source(*st));
            }
            i = i + 1;
        }
        assert(all.subrange(0, all.len() as int) =~= all);
        MediaInfo { videos, audios, duration }
    }
}

} // verus!
