use vstd::prelude::*;
use vstd::string::StrSliceExecFns;
use vstd::string::StringSliceAdditionalSpecFns;

use crate::error::MediaStatus;

verus! {

/// The NDK's opaque media-format object; handles to it travel as addresses.
pub struct AMediaFormat {
    _data: [u8; 0],
}

/// Whether the sequence `s` begins with `prefix`.
pub open spec fn has_prefix(s: Seq<char>, prefix: Seq<char>) -> bool {
    prefix.len() <= s.len() && s.subrange(0, prefix.len() as int) == prefix
}

/// Whether `text`, encoded as UTF-8, holds a NUL byte (and so cannot be
/// handed to the NDK as a C string).
pub open spec fn holds_nul(text: &str) -> bool {
    text.spec_bytes().contains(0u8)
}

/// Tells whether `text` holds a NUL byte, which no C string can carry.
pub fn has_interior_nul(text: &str) -> (r: bool)
    ensures
        r == holds_nul(text),
{
    let bytes = text.as_bytes();
    let mut i: usize = 0;
    while i < bytes.len()
        invariant
            i <= bytes@.len(),
            bytes@ == text.spec_bytes(),
            forall|j: int| 0 <= j < i ==> bytes@[j] != 0u8,
        decreases bytes@.len() - i,
    {
        if bytes[i] == 0u8 {
            assert(bytes@[i as int] == 0u8);
            return true;
        }
        i = i + 1;
    }
    proof {
        if text.spec_bytes().contains(0u8) {
            let k = choose|k: int| 0 <= k < bytes@.len() && bytes@[k] == 0u8;
            assert(bytes@[k] != 0u8);
        }
    }
    false
}

/// Whether `text` begins with `prefix`, character by character.
fn starts_with(text: &str, prefix: &str) -> (r: bool)
    ensures
        r == has_prefix(text@, prefix@),
{
    let n = text.unicode_len();
    let m = prefix.unicode_len();
    if n < m {
        return false;
    }
    let mut i: usize = 0;
    while i < m
        invariant
            i <= m <= n,
            n == text@.len(),
            m == prefix@.len(),
            forall|j: int| 0 <= j < i ==> text@[j] == prefix@[j],
        decreases m - i,
    {
        if text.get_char(i) != prefix.get_char(i) {
            proof {
                if has_prefix(text@, prefix@) {
                    assert(text@.subrange(0, m as int)[i as int] == text@[i as int]);
                }
            }
            return false;
        }
        i = i + 1;
    }
    assert(text@.subrange(0, m as int) =~= prefix@);
    true
}

/// Well-known `MediaCodecInfo.CodecCapabilities` `color-format` values.
///
/// Only the layouts that can be converted to CPU buffers are decoded into
/// pixel formats; everything else surfaces as `Unknown`, so that a caller
/// reports an unsupported output format instead of misreading the buffer
/// as NV12.
#[derive(Debug, Clone, Copy, PartialEq, Eq, Structural)]
pub enum ColorFormat {
    Yuv420Planar,
    Yuv420SemiPlanar,
    Yuv420Flexible,
    Yuv420PackedPlanar,
    Yuv420SemiPlanarVendorA,
    Yuv420FlexibleVendorA,
    Yuv420FlexibleVendorB,
    TiYuv420PackedSemiPlanar,
    P010,
    Unknown(i32),
}

impl ColorFormat {
    /// Whether `v` is one of the `color-format` codes that are decoded into a
    /// pixel format.
    pub open spec fn is_recognized(v: i32) -> bool {
        v == 19 || v == 21 || v == 2135033992 || v == 2141391872 || v == 2141391876 || v
            == 2141391878 || v == 2130708361 || v == 2130706688 || v == 2130706944 || v == 54
    }

    /// The color format that a `color-format` code stands for.
    pub open spec fn spec_from_i32(v: i32) -> ColorFormat {
        match v {
            19 => ColorFormat::Yuv420Planar,
            21 => ColorFormat::Yuv420SemiPlanar,
            2135033992 => ColorFormat::Yuv420Flexible,
            2141391872 => ColorFormat::Yuv420PackedPlanar,
            2141391876 => ColorFormat::Yuv420SemiPlanarVendorA,
            2141391878 => ColorFormat::Yuv420FlexibleVendorA,
            2130708361 => ColorFormat::Yuv420SemiPlanarVendorA,
            2130706688 => ColorFormat::Yuv420PackedPlanar,
            2130706944 => ColorFormat::TiYuv420PackedSemiPlanar,
            54 => ColorFormat::P010,
            _ => ColorFormat::Unknown(v),
        }
    }

    /// The `color-format` code of a color format.
    pub open spec fn spec_raw(self) -> i32 {
        match self {
            ColorFormat::Yuv420Planar => 19,
            ColorFormat::Yuv420SemiPlanar => 21,
            ColorFormat::Yuv420Flexible => 2135033992,
            ColorFormat::Yuv420PackedPlanar => 2141391872,
            ColorFormat::Yuv420SemiPlanarVendorA => 2141391876,
            ColorFormat::Yuv420FlexibleVendorA => 2141391878,
            ColorFormat::Yuv420FlexibleVendorB => 2130708361,
            ColorFormat::TiYuv420PackedSemiPlanar => 2130706944,
            ColorFormat::P010 => 54,
            ColorFormat::Unknown(v) => v,
        }
    }

    /// Classifies a `color-format` code.
    pub fn from_i32(v: i32) -> (r: ColorFormat)
        ensures
            r == Self::spec_from_i32(v),
            (r is Unknown) <==> !Self::is_recognized(v),
    {
        match v {
            19 => ColorFormat::Yuv420Planar,
            21 => ColorFormat::Yuv420SemiPlanar,
            2135033992 => ColorFormat::Yuv420Flexible,
            2141391872 => ColorFormat::Yuv420PackedPlanar,
            2141391876 => ColorFormat::Yuv420SemiPlanarVendorA,
            2141391878 => ColorFormat::Yuv420FlexibleVendorA,
            2130708361 => ColorFormat::Yuv420SemiPlanarVendorA,
            2130706688 => ColorFormat::Yuv420PackedPlanar,
            2130706944 => ColorFormat::TiYuv420PackedSemiPlanar,
            54 => ColorFormat::P010,
            _ => ColorFormat::Unknown(v),
        }
    }

    /// The `color-format` code of this color format.
    pub fn raw(self) -> (r: i32)
        ensures
            r == self.spec_raw(),
    {
        match self {
            ColorFormat::Yuv420Planar => 19,
            ColorFormat::Yuv420SemiPlanar => 21,
            ColorFormat::Yuv420Flexible => 2135033992,
            ColorFormat::Yuv420PackedPlanar => 2141391872,
            ColorFormat::Yuv420SemiPlanarVendorA => 2141391876,
            ColorFormat::Yuv420FlexibleVendorA => 2141391878,
            ColorFormat::Yuv420FlexibleVendorB => 2130708361,
            ColorFormat::TiYuv420PackedSemiPlanar => 2130706944,
            ColorFormat::P010 => 54,
            ColorFormat::Unknown(v) => v,
        }
    }
}

/// Classifying a code and taking the code back gives the code again, for
/// every code but the two vendor aliases that share a format with another
/// code (2130706688 and 2130708361).
pub proof fn lemma_color_code_round_trip(v: i32)
    requires
        v != 2130706688,
        v != 2130708361,
    ensures
        ColorFormat::spec_from_i32(v).spec_raw() == v,
{
}

/// Taking a format's code and classifying it gives the format again, for
/// every format but `Yuv420FlexibleVendorB` (whose code classifies as
/// `Yuv420SemiPlanarVendorA`) and `Unknown` around a recognized code.
pub proof fn lemma_color_format_round_trip(c: ColorFormat)
    requires
        c != ColorFormat::Yuv420FlexibleVendorB,
        c matches ColorFormat::Unknown(v) ==> !ColorFormat::is_recognized(v),
    ensures
        ColorFormat::spec_from_i32(c.spec_raw()) == c,
{
}

/// A media format: the handle (address) of an NDK `AMediaFormat`, together
/// with the rules that interpret what is read from it.
#[derive(Debug)]
pub struct MediaFormat {
    inner: usize,
}

impl MediaFormat {
    /// The address of the NDK object this format refers to.
    pub closed spec fn spec_handle(&self) -> usize {
        self.inner
    }

    /// Wraps the handle that the NDK returned when asked for a new format;
    /// a null handle (address 0) means that no format could be made.
    pub fn new(inner: usize) -> (r: Result<MediaFormat, MediaStatus>)
        ensures
            inner == 0 ==> r == Err::<MediaFormat, MediaStatus>(MediaStatus::ErrorUnknown),
            inner != 0 ==> (r matches Ok(f) && f.spec_handle() == inner),
    {
        if inner == 0 {
            Err(MediaStatus::ErrorUnknown)
        } else {
            Ok(MediaFormat { inner })
        }
    }

    /// Wraps a handle to an existing NDK format, which this value then owns.
    pub fn from_raw(inner: usize) -> (r: MediaFormat)
        ensures
            r.spec_handle() == inner,
    {
        MediaFormat { inner }
    }

    /// The address of the NDK object this format refers to.
    pub fn handle(&self) -> (r: usize)
        ensures
            r == self.spec_handle(),
    {
        self.inner
    }

    /// Reads the `color-format` entry (as returned for that key) as a typed
    /// [`ColorFormat`] instead of a raw `i32`.
    pub fn color_format(color_format: Option<i32>) -> (r: Option<ColorFormat>)
        ensures
            r == (match color_format {
                Some(v) => Some(ColorFormat::spec_from_i32(v)),
                None => None,
            }),
    {
        match color_format {
            Some(v) => Some(ColorFormat::from_i32(v)),
            None => None,
        }
    }

    /// Whether a format whose `mime` entry reads `mime` describes audio.
    pub fn is_audio(mime: Option<&str>) -> (r: bool)
        ensures
            r == (mime matches Some(m) && has_prefix(m@, "audio/"@)),
    {
        match mime {
            Some(m) => starts_with(m, "audio/"),
            None => false,
        }
    }

    /// Whether a format whose `mime` entry reads `mime` describes video.
    pub fn is_video(mime: Option<&str>) -> (r: bool)
        ensures
            r == (mime matches Some(m) && has_prefix(m@, "video/"@)),
    {
        match mime {
            Some(m) => starts_with(m, "video/"),
            None => false,
        }
    }
}

/// No `mime` entry describes both audio and video.
pub proof fn lemma_audio_video_exclusive(m: Seq<char>)
    ensures
        !(has_prefix(m, "audio/"@) && has_prefix(m, "video/"@)),
{
    reveal_strlit("audio/");
    reveal_strlit("video/");
    if has_prefix(m, "audio/"@) && has_prefix(m, "video/"@) {
        assert(m.subrange(0, 6)[0] == 'a');
        assert(m.subrange(0, 6)[0] == 'v');
    }
}

} // verus!
