use vstd::prelude::*;

verus! {

/// Status codes reported by the NDK media functions.
///
/// Each variant stands for one raw `media_status_t` value; [`MediaStatus::code`]
/// gives it back.
#[derive(PartialEq, Eq, Structural, Debug, Clone, Copy)]
pub enum MediaStatus {
    Success,
    ErrorInsufficientResource,
    ErrorReclaimed,
    ErrorUnknown,
    ErrorMalformed,
    ErrorUnsupported,
    ErrorInvalidObject,
    ErrorInvalidParameter,
    ErrorInvalidOperation,
    ErrorEndOfStream,
    ErrorIO,
    ErrorWouldBlock,
    DRMErrorBase,
    DRMNotProvisioned,
    DRMResourceBusy,
    DRMDeviceRevoked,
    DRMShortBuffer,
    DRMSessionNotOpened,
    DRMTamperDetected,
    DRMVerifyFailed,
    DRMNeedKey,
    DRMLicenseExpired,
    ImgReaderErrorBase,
    ImgReaderNoBufferAvailable,
    ImgReaderMaxImagesAcquired,
    ImgReaderCannotLockImage,
    ImgReaderCannotUnlockImage,
    ImgReaderImageNotLocked,
}

impl MediaStatus {
    /// The raw `media_status_t` value that this status stands for.
    pub open spec fn spec_code(self) -> i32 {
        match self {
            MediaStatus::Success => 0,
            MediaStatus::ErrorInsufficientResource => 1100,
            MediaStatus::ErrorReclaimed => 1101,
            MediaStatus::ErrorUnknown => -10000i32,
            MediaStatus::ErrorMalformed => -10001i32,
            MediaStatus::ErrorUnsupported => -10002i32,
            MediaStatus::ErrorInvalidObject => -10003i32,
            MediaStatus::ErrorInvalidParameter => -10004i32,
            MediaStatus::ErrorInvalidOperation => -10005i32,
            MediaStatus::ErrorEndOfStream => -10006i32,
            MediaStatus::ErrorIO => -10007i32,
            MediaStatus::ErrorWouldBlock => -10008i32,
            MediaStatus::DRMErrorBase => -20000i32,
            MediaStatus::DRMNotProvisioned => -20001i32,
            MediaStatus::DRMResourceBusy => -20002i32,
            MediaStatus::DRMDeviceRevoked => -20003i32,
            MediaStatus::DRMShortBuffer => -20004i32,
            MediaStatus::DRMSessionNotOpened => -20005i32,
            MediaStatus::DRMTamperDetected => -20006i32,
            MediaStatus::DRMVerifyFailed => -20007i32,
            MediaStatus::DRMNeedKey => -20008i32,
            MediaStatus::DRMLicenseExpired => -20009i32,
            MediaStatus::ImgReaderErrorBase => -30000i32,
            MediaStatus::ImgReaderNoBufferAvailable => -30001i32,
            MediaStatus::ImgReaderMaxImagesAcquired => -30002i32,
            MediaStatus::ImgReaderCannotLockImage => -30003i32,
            MediaStatus::ImgReaderCannotUnlockImage => -30004i32,
            MediaStatus::ImgReaderImageNotLocked => -30005i32,
        }
    }

    /// Whether `v` is the raw value of one of the named statuses.
    pub open spec fn is_known_code(v: i32) -> bool {
        exists|s: MediaStatus| #[trigger] s.spec_code() == v
    }

    /// The status that a raw value stands for: the named status with that
    /// value, else `Success` for a non-negative value and `ErrorUnknown` for a
    /// negative one.
    pub open spec fn spec_from_i32(v: i32) -> MediaStatus {
        match v {
            0 => MediaStatus::Success,
            1100 => MediaStatus::ErrorInsufficientResource,
            1101 => MediaStatus::ErrorReclaimed,
            -10000 => MediaStatus::ErrorUnknown,
            -10001 => MediaStatus::ErrorMalformed,
            -10002 => MediaStatus::ErrorUnsupported,
            -10003 => MediaStatus::ErrorInvalidObject,
            -10004 => MediaStatus::ErrorInvalidParameter,
            -10005 => MediaStatus::ErrorInvalidOperation,
            -10006 => MediaStatus::ErrorEndOfStream,
            -10007 => MediaStatus::ErrorIO,
            -10008 => MediaStatus::ErrorWouldBlock,
            -20000 => MediaStatus::DRMErrorBase,
            -20001 => MediaStatus::DRMNotProvisioned,
            -20002 => MediaStatus::DRMResourceBusy,
            -20003 => MediaStatus::DRMDeviceRevoked,
            -20004 => MediaStatus::DRMShortBuffer,
            -20005 => MediaStatus::DRMSessionNotOpened,
            -20006 => MediaStatus::DRMTamperDetected,
            -20007 => MediaStatus::DRMVerifyFailed,
            -20008 => MediaStatus::DRMNeedKey,
            -20009 => MediaStatus::DRMLicenseExpired,
            -30000 => MediaStatus::ImgReaderErrorBase,
            -30001 => MediaStatus::ImgReaderNoBufferAvailable,
            -30002 => MediaStatus::ImgReaderMaxImagesAcquired,
            -30003 => MediaStatus::ImgReaderCannotLockImage,
            -30004 => MediaStatus::ImgReaderCannotUnlockImage,
            -30005 => MediaStatus::ImgReaderImageNotLocked,
            _ => if v >= 0 {
                MediaStatus::Success
            } else {
                MediaStatus::ErrorUnknown
            },
        }
    }

    /// The raw `media_status_t` value of this status.
    pub fn code(&self) -> (r: i32)
        ensures
            r == self.spec_code(),
    {
        match self {
            MediaStatus::Success => 0,
            MediaStatus::ErrorInsufficientResource => 1100,
            MediaStatus::ErrorReclaimed => 1101,
            MediaStatus::ErrorUnknown => -10000,
            MediaStatus::ErrorMalformed => -10001,
            MediaStatus::ErrorUnsupported => -10002,
            MediaStatus::ErrorInvalidObject => -10003,
            MediaStatus::ErrorInvalidParameter => -10004,
            MediaStatus::ErrorInvalidOperation => -10005,
            MediaStatus::ErrorEndOfStream => -10006,
            MediaStatus::ErrorIO => -10007,
            MediaStatus::ErrorWouldBlock => -10008,
            MediaStatus::DRMErrorBase => -20000,
            MediaStatus::DRMNotProvisioned => -20001,
            MediaStatus::DRMResourceBusy => -20002,
            MediaStatus::DRMDeviceRevoked => -20003,
            MediaStatus::DRMShortBuffer => -20004,
            MediaStatus::DRMSessionNotOpened => -20005,
            MediaStatus::DRMTamperDetected => -20006,
            MediaStatus::DRMVerifyFailed => -20007,
            MediaStatus::DRMNeedKey => -20008,
            MediaStatus::DRMLicenseExpired => -20009,
            MediaStatus::ImgReaderErrorBase => -30000,
            MediaStatus::ImgReaderNoBufferAvailable => -30001,
            MediaStatus::ImgReaderMaxImagesAcquired => -30002,
            MediaStatus::ImgReaderCannotLockImage => -30003,
            MediaStatus::ImgReaderCannotUnlockImage => -30004,
            MediaStatus::ImgReaderImageNotLocked => -30005,
        }
    }

    /// Convert a raw `i32` from FFI to a `MediaStatus`.
    /// Unknown values are mapped to `Success` (if >= 0) or `ErrorUnknown` (if < 0).
    pub fn from_i32(value: i32) -> (r: MediaStatus)
        ensures
            r == Self::spec_from_i32(value),
            Self::is_known_code(value) ==> r.spec_code() == value,
            !Self::is_known_code(value) ==> r == (if value >= 0 {
                MediaStatus::Success
            } else {
                MediaStatus::ErrorUnknown
            }),
    {
        let r = match value {
            0 => MediaStatus::Success,
            1100 => MediaStatus::ErrorInsufficientResource,
            1101 => MediaStatus::ErrorReclaimed,
            -10000 => MediaStatus::ErrorUnknown,
            -10001 => MediaStatus::ErrorMalformed,
            -10002 => MediaStatus::ErrorUnsupported,
            -10003 => MediaStatus::ErrorInvalidObject,
            -10004 => MediaStatus::ErrorInvalidParameter,
            -10005 => MediaStatus::ErrorInvalidOperation,
            -10006 => MediaStatus::ErrorEndOfStream,
            -10007 => MediaStatus::ErrorIO,
            -10008 => MediaStatus::ErrorWouldBlock,
            -20000 => MediaStatus::DRMErrorBase,
            -20001 => MediaStatus::DRMNotProvisioned,
            -20002 => MediaStatus::DRMResourceBusy,
            -20003 => MediaStatus::DRMDeviceRevoked,
            -20004 => MediaStatus::DRMShortBuffer,
            -20005 => MediaStatus::DRMSessionNotOpened,
            -20006 => MediaStatus::DRMTamperDetected,
            -20007 => MediaStatus::DRMVerifyFailed,
            -20008 => MediaStatus::DRMNeedKey,
            -20009 => MediaStatus::DRMLicenseExpired,
            -30000 => MediaStatus::ImgReaderErrorBase,
            -30001 => MediaStatus::ImgReaderNoBufferAvailable,
            -30002 => MediaStatus::ImgReaderMaxImagesAcquired,
            -30003 => MediaStatus::ImgReaderCannotLockImage,
            -30004 => MediaStatus::ImgReaderCannotUnlockImage,
            -30005 => MediaStatus::ImgReaderImageNotLocked,
            v if v >= 0 => MediaStatus::Success,
            _ => MediaStatus::ErrorUnknown,
        };
        proof {
            if Self::is_known_code(value) {
                let s = choose|s: MediaStatus| #[trigger] s.spec_code() == value;
                assert(s.spec_code() == value);
            } else if r.spec_code() == value {
                assert(Self::is_known_code(value));
            }
        }
        r
    }

    /// The outcome that a raw value stands for: `Ok(())` when it means success,
    /// else the error status it names.
    pub open spec fn spec_make_result(value: i32) -> Result<(), MediaStatus> {
        if Self::spec_from_i32(value) == MediaStatus::Success {
            Ok(())
        } else {
            Err(Self::spec_from_i32(value))
        }
    }

    /// Convert a raw `i32` FFI return value into `Result<(), MediaStatus>`.
    /// Unknown negative values become `ErrorUnknown`; unknown non-negative values succeed.
    pub fn make_result(value: i32) -> (r: Result<(), MediaStatus>)
        ensures
            r == Self::spec_make_result(value),
    {
        let status = Self::from_i32(value);
        if status.is_ok() {
            Ok(())
        } else {
            Err(status)
        }
    }

    /// Whether this is the success status.
    pub fn is_ok(&self) -> (r: bool)
        ensures
            r == (*self == MediaStatus::Success),
    {
        *self == MediaStatus::Success
    }
}

/// Distinct statuses have distinct raw values.
pub proof fn lemma_code_injective(a: MediaStatus, b: MediaStatus)
    ensures
        a.spec_code() == b.spec_code() ==> a == b,
{
}

/// Each status stands for the NDK's `media_status_t` constant of the same
/// name: `AMEDIA_OK` 0, `AMEDIACODEC_ERROR_INSUFFICIENT_RESOURCE` 1100,
/// `AMEDIACODEC_ERROR_RECLAIMED` 1101, the `AMEDIA_ERROR_*` codes from
/// -10000 down to -10008, the `AMEDIA_DRM_*` codes from -20000 down to
/// -20009, and the `AMEDIA_IMGREADER_*` codes from -30000 down to -30005;
/// and a raw value that is one of these constants is read as its status.
pub proof fn lemma_status_constants(v: i32)
    ensures
        MediaStatus::Success.spec_code() == 0,
        MediaStatus::ErrorInsufficientResource.spec_code() == 1100,
        MediaStatus::ErrorReclaimed.spec_code() == 1101,
        MediaStatus::ErrorUnknown.spec_code() == -10000,
        MediaStatus::ErrorMalformed.spec_code() == -10001,
        MediaStatus::ErrorUnsupported.spec_code() == -10002,
        MediaStatus::ErrorInvalidObject.spec_code() == -10003,
        MediaStatus::ErrorInvalidParameter.spec_code() == -10004,
        MediaStatus::ErrorInvalidOperation.spec_code() == -10005,
        MediaStatus::ErrorEndOfStream.spec_code() == -10006,
        MediaStatus::ErrorIO.spec_code() == -10007,
        MediaStatus::ErrorWouldBlock.spec_code() == -10008,
        MediaStatus::DRMErrorBase.spec_code() == -20000,
        MediaStatus::DRMNotProvisioned.spec_code() == -20001,
        MediaStatus::DRMResourceBusy.spec_code() == -20002,
        MediaStatus::DRMDeviceRevoked.spec_code() == -20003,
        MediaStatus::DRMShortBuffer.spec_code() == -20004,
        MediaStatus::DRMSessionNotOpened.spec_code() == -20005,
        MediaStatus::DRMTamperDetected.spec_code() == -20006,
        MediaStatus::DRMVerifyFailed.spec_code() == -20007,
        MediaStatus::DRMNeedKey.spec_code() == -20008,
        MediaStatus::DRMLicenseExpired.spec_code() == -20009,
        MediaStatus::ImgReaderErrorBase.spec_code() == -30000,
        MediaStatus::ImgReaderNoBufferAvailable.spec_code() == -30001,
        MediaStatus::ImgReaderMaxImagesAcquired.spec_code() == -30002,
        MediaStatus::ImgReaderCannotLockImage.spec_code() == -30003,
        MediaStatus::ImgReaderCannotUnlockImage.spec_code() == -30004,
        MediaStatus::ImgReaderImageNotLocked.spec_code() == -30005,
        forall|s: MediaStatus| #[trigger] s.spec_code() == v ==> MediaStatus::spec_from_i32(v) == s,
        MediaStatus::is_known_code(v) ==> MediaStatus::spec_from_i32(v).spec_code() == v,
{
    assert forall|s: MediaStatus| #[trigger] s.spec_code() == v implies MediaStatus::spec_from_i32(
        v,
    ) == s by {
        lemma_status_code_round_trip(s);
    }
    if MediaStatus::is_known_code(v) {
        let s = choose|s: MediaStatus| #[trigger] s.spec_code() == v;
        lemma_status_code_round_trip(s);
    }
}

/// The outcome of an NDK call is `Ok(())` exactly when its raw value reads as
/// `Success`; otherwise the error is the very status that the raw value reads
/// as (so an unsupported file gives `ErrorUnsupported`, a known error code
/// gives its own status, an unknown negative value gives `ErrorUnknown`).
pub proof fn lemma_make_result_carries_status(v: i32)
    ensures
        (MediaStatus::spec_make_result(v) is Ok) <==> MediaStatus::spec_from_i32(v)
            == MediaStatus::Success,
        MediaStatus::spec_make_result(v) matches Err(e) ==> e == MediaStatus::spec_from_i32(v),
        MediaStatus::is_known_code(v) && v != 0 ==> (MediaStatus::spec_make_result(v) matches Err(
            e,
        ) && e.spec_code() == v),
        !MediaStatus::is_known_code(v) && v < 0 ==> MediaStatus::spec_make_result(v) == Err::<
            (),
            MediaStatus,
        >(MediaStatus::ErrorUnknown),
{
    lemma_status_constants(v);
    if MediaStatus::is_known_code(v) {
        let s = choose|s: MediaStatus| #[trigger] s.spec_code() == v;
        lemma_status_code_round_trip(s);
    } else if v < 0 {
        if MediaStatus::spec_from_i32(v) != MediaStatus::ErrorUnknown {
            let s = MediaStatus::spec_from_i32(v);
            assert(s.spec_code() == v);
            assert(MediaStatus::is_known_code(v));
        }
    }
}

/// Reading back the raw value of a status gives that status again.
pub proof fn lemma_status_code_round_trip(s: MediaStatus)
    ensures
        MediaStatus::spec_from_i32(s.spec_code()) == s,
{
}

/// A raw value means success exactly when it is non-negative and is neither
/// of the two positive error codes (insufficient resource, reclaimed); an
/// error outcome never carries the success status.
pub proof fn lemma_success_exactly(v: i32)
    ensures
        (MediaStatus::spec_from_i32(v) == MediaStatus::Success) <==> (v >= 0 && v != 1100 && v
            != 1101),
        MediaStatus::spec_make_result(v) is Ok <==> (v >= 0 && v != 1100 && v != 1101),
        MediaStatus::spec_make_result(v) matches Err(e) ==> e != MediaStatus::Success,
{
    if MediaStatus::is_known_code(v) {
        let t = choose|t: MediaStatus| #[trigger] t.spec_code() == v;
        assert(t.spec_code() == v);
    }
    if v == 1100 {
        assert(MediaStatus::ErrorInsufficientResource.spec_code() == v);
    }
    if v == 1101 {
        assert(MediaStatus::ErrorReclaimed.spec_code() == v);
    }
    if v == 0 {
        assert(MediaStatus::Success.spec_code() == v);
    }
}

} // verus!
