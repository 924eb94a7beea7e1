use vstd::prelude::*;
use vstd::std_specs::convert::FromSpecImpl;
use vstd::std_specs::ops::BitOrSpecImpl;

verus! {

/// The NDK's opaque native-window object; handles to it travel as addresses.
#[derive(Debug)]
pub struct ANativeWindow {
    _data: [u8; 0],
}

/// Pixel formats of a native window's buffers.
#[derive(Debug, Clone, Copy)]
pub enum NativeWindowFormat {
    Rgba8,
    Rgb8,
    Rgb565,
    Yuv420,
    Other,
}

impl NativeWindowFormat {
    /// The NDK's numeric value of a window format (`Other` carries the value
    /// that follows `Yuv420`).
    pub open spec fn spec_code(self) -> isize {
        match self {
            NativeWindowFormat::Rgba8 => 1,
            NativeWindowFormat::Rgb8 => 2,
            NativeWindowFormat::Rgb565 => 4,
            NativeWindowFormat::Yuv420 => 0x23,
            NativeWindowFormat::Other => 0x24,
        }
    }

    /// The window format that a numeric value names: one of the four known
    /// formats, else `Other`.
    pub open spec fn spec_from_code(value: isize) -> NativeWindowFormat {
        if value == 1 {
            NativeWindowFormat::Rgba8
        } else if value == 2 {
            NativeWindowFormat::Rgb8
        } else if value == 4 {
            NativeWindowFormat::Rgb565
        } else if value == 0x23 {
            NativeWindowFormat::Yuv420
        } else {
            NativeWindowFormat::Other
        }
    }

    /// The numeric value of this window format, as the NDK takes it.
    pub fn code(&self) -> (r: isize)
        ensures
            r == self.spec_code(),
    {
        match self {
            NativeWindowFormat::Rgba8 => 1,
            NativeWindowFormat::Rgb8 => 2,
            NativeWindowFormat::Rgb565 => 4,
            NativeWindowFormat::Yuv420 => 0x23,
            NativeWindowFormat::Other => 0x24,
        }
    }

    /// The known window formats, in the order they are searched.
    fn values() -> (r: [NativeWindowFormat; 4])
        ensures
            r@ == seq![
                NativeWindowFormat::Rgba8,
                NativeWindowFormat::Rgb8,
                NativeWindowFormat::Rgb565,
                NativeWindowFormat::Yuv420,
            ],
    {
        let r = [
            NativeWindowFormat::Rgba8,
            NativeWindowFormat::Rgb8,
            NativeWindowFormat::Rgb565,
            NativeWindowFormat::Yuv420,
        ];
        assert(r@ =~= seq![
            NativeWindowFormat::Rgba8,
            NativeWindowFormat::Rgb8,
            NativeWindowFormat::Rgb565,
            NativeWindowFormat::Yuv420,
        ]);
        r
    }
}

impl From<isize> for NativeWindowFormat {
    fn from(value: isize) -> (r: Self) {
        let values = Self::values();
        let mut i: usize = 0;
        while i < 4
            invariant
                i <= 4,
                values@ == seq![
                    NativeWindowFormat::Rgba8,
                    NativeWindowFormat::Rgb8,
                    NativeWindowFormat::Rgb565,
                    NativeWindowFormat::Yuv420,
                ],
                forall|j: int| 0 <= j < i ==> values@[j].spec_code() != value,
            decreases 4 - i,
        {
            let v = values[i];
            if v.code() == value {
                return v;
            }
            i = i + 1;
        }
        NativeWindowFormat::Other
    }
}

impl FromSpecImpl<isize> for NativeWindowFormat {
    open spec fn obeys_from_spec() -> bool {
        true
    }

    open spec fn from_spec(v: isize) -> NativeWindowFormat {
        NativeWindowFormat::spec_from_code(v)
    }
}

/// The known window formats carry the NDK's `AHARDWAREBUFFER_FORMAT_*` values
/// (`R8G8B8A8_UNORM` 1, `R8G8B8_UNORM` 2, `R5G6B5_UNORM` 4, YUV 4:2:0 0x23),
/// and a value reads as a known format only when it is that format's value:
/// every other value reads as `Other`.
pub proof fn lemma_window_format_values(v: isize)
    ensures
        NativeWindowFormat::Rgba8.spec_code() == 1,
        NativeWindowFormat::Rgb8.spec_code() == 2,
        NativeWindowFormat::Rgb565.spec_code() == 4,
        NativeWindowFormat::Yuv420.spec_code() == 0x23,
        !(NativeWindowFormat::spec_from_code(v) is Other) ==> NativeWindowFormat::spec_from_code(
            v,
        ).spec_code() == v,
        (v != 1 && v != 2 && v != 4 && v != 0x23) ==> NativeWindowFormat::spec_from_code(v) is Other,
        (v == 1 || v == 2 || v == 4 || v == 0x23) ==> NativeWindowFormat::spec_from_code(v).spec_code() == v,
{
}

/// Reading back the value of a known window format gives that format again.
pub proof fn lemma_window_format_round_trip(f: NativeWindowFormat)
    requires
        !(f is Other),
    ensures
        NativeWindowFormat::spec_from_code(f.spec_code()) == f,
{
}

/// Buffer transforms of a native window; they combine as bit masks.
///
/// The variants are declared in the order of their values, so the derived
/// order ranks them by value.
#[derive(Debug, Clone, PartialEq, Eq, Structural, PartialOrd, Ord)]
pub enum NativeWindowTransform {
    Identity,
    MirrorHorizontal,
    MirrorVertical,
    Rotate180,
    Rotate90,
    Rotate270,
}

impl NativeWindowTransform {
    /// The NDK's bit mask for a transform.
    pub open spec fn spec_code(self) -> isize {
        match self {
            NativeWindowTransform::Identity => 0x00,
            NativeWindowTransform::MirrorHorizontal => 0x01,
            NativeWindowTransform::MirrorVertical => 0x02,
            NativeWindowTransform::Rotate180 => 0x03,
            NativeWindowTransform::Rotate90 => 0x04,
            NativeWindowTransform::Rotate270 => 0x07,
        }
    }

    /// The bit mask of this transform, as the NDK takes it.
    pub fn code(&self) -> (r: isize)
        ensures
            r == self.spec_code(),
    {
        match self {
            NativeWindowTransform::Identity => 0x00,
            NativeWindowTransform::MirrorHorizontal => 0x01,
            NativeWindowTransform::MirrorVertical => 0x02,
            NativeWindowTransform::Rotate180 => 0x03,
            NativeWindowTransform::Rotate90 => 0x04,
            NativeWindowTransform::Rotate270 => 0x07,
        }
    }
}

impl core::ops::BitOr for NativeWindowTransform {
    type Output = isize;

    fn bitor(self, rhs: Self) -> (r: isize)
        ensures
            r == self.spec_code() | rhs.spec_code(),
    {
        self.code() | rhs.code()
    }
}

impl BitOrSpecImpl for NativeWindowTransform {
    open spec fn obeys_bitor_spec() -> bool {
        true
    }

    open spec fn bitor_req(self, rhs: NativeWindowTransform) -> bool {
        true
    }

    open spec fn bitor_spec(self, rhs: NativeWindowTransform) -> isize {
        self.spec_code() | rhs.spec_code()
    }
}

/// Each transform carries the NDK's `ANATIVEWINDOW_TRANSFORM_*` mask:
/// identity 0, horizontal mirror 0x01, vertical mirror 0x02, 90° rotation
/// 0x04, 180° rotation 0x03 and 270° rotation 0x07; so combining a
/// horizontal mirror with a 90° rotation gives 0x05 and combining it with a
/// vertical mirror gives 0x03.
pub proof fn lemma_transform_constants()
    ensures
        NativeWindowTransform::Identity.spec_code() == 0x00,
        NativeWindowTransform::MirrorHorizontal.spec_code() == 0x01,
        NativeWindowTransform::MirrorVertical.spec_code() == 0x02,
        NativeWindowTransform::Rotate90.spec_code() == 0x04,
        NativeWindowTransform::Rotate180.spec_code() == 0x03,
        NativeWindowTransform::Rotate270.spec_code() == 0x07,
        NativeWindowTransform::MirrorHorizontal.spec_code() | NativeWindowTransform::Rotate90.spec_code()
            == 0x05,
        NativeWindowTransform::MirrorVertical.spec_code() | NativeWindowTransform::Rotate90.spec_code()
            == 0x06,
{
    assert(0x01isize | 0x04isize == 0x05isize) by (bit_vector);
    assert(0x02isize | 0x04isize == 0x06isize) by (bit_vector);
}

/// Transforms combine as bit masks: the combination does not depend on the
/// order, a transform combined with itself is its own mask, a 180° rotation
/// is both mirrors together, and a 270° rotation is both mirrors with a 90°
/// rotation.
pub proof fn lemma_transform_masks(a: NativeWindowTransform, b: NativeWindowTransform)
    ensures
        a.spec_code() | b.spec_code() == b.spec_code() | a.spec_code(),
        a.spec_code() | a.spec_code() == a.spec_code(),
        NativeWindowTransform::Rotate180.spec_code() == NativeWindowTransform::MirrorHorizontal.spec_code()
            | NativeWindowTransform::MirrorVertical.spec_code(),
        NativeWindowTransform::Rotate270.spec_code() == NativeWindowTransform::MirrorHorizontal.spec_code()
            | NativeWindowTransform::MirrorVertical.spec_code()
            | NativeWindowTransform::Rotate90.spec_code(),
{
    let x = a.spec_code();
    let y = b.spec_code();
    assert(x | y == y | x) by (bit_vector);
    assert(x | x == x) by (bit_vector);
    assert(0x01isize | 0x02isize == 0x03isize) by (bit_vector);
    assert(0x01isize | 0x02isize | 0x04isize == 0x07isize) by (bit_vector);
}

/// A rectangle in window coordinates.
pub struct ARect {
    pub left: i32,
    pub top: i32,
    pub right: i32,
    pub bottom: i32,
}

/// A native window: the handle (address) of an NDK `ANativeWindow`.
#[derive(Debug)]
pub struct NativeWindow {
    inner: usize,
}

impl NativeWindow {
    /// The address of the NDK window this value refers to.
    pub closed spec fn spec_handle(&self) -> usize {
        self.inner
    }

    /// Wraps the handle of an NDK window.
    pub fn from_raw(inner: usize) -> (r: NativeWindow)
        ensures
            r.spec_handle() == inner,
    {
        NativeWindow { inner }
    }

    /// The address of the NDK window this value refers to.
    pub fn handle(&self) -> (r: usize)
        ensures
            r == self.spec_handle(),
    {
        self.inner
    }

    /// The window format that the window reports as the value `code`.
    pub fn format(code: i32) -> (r: NativeWindowFormat)
        ensures
            r == NativeWindowFormat::spec_from_code(code as isize),
    {
        NativeWindowFormat::from(code as isize)
    }

    /// The outcome of locking the window for drawing: the lock buffer when
    /// the NDK answered `status` 0, else nothing.
    pub fn lock<B>(status: i32, buffer: B) -> (r: Option<B>)
        ensures
            status == 0 ==> r == Some(buffer),
            status != 0 ==> r is None,
    {
        if status == 0 {
            Some(buffer)
        } else {
            None
        }
    }
}

} // verus!
