//! Types that are exchanged with the driver as plain integers.

use vstd::prelude::*;

verus! {

/// A codec profile that may be accelerated by the driver.
#[derive(Clone, Copy, PartialEq, Eq, Structural, Debug, Hash)]
#[allow(non_camel_case_types)]
pub enum Profile {
    /// Profile for format-independent operations; code -1.
    Misc,
    MPEG2Simple,
    MPEG2Main,
    MPEG4Simple,
    MPEG4AdvancedSimple,
    MPEG4Main,
    H264Baseline,
    H264Main,
    H264High,
    VC1Simple,
    VC1Main,
    VC1Advanced,
    H263Baseline,
    JPEGBaseline,
    H264ConstrainedBaseline,
    VP8Version0_3,
    H264MultiviewHigh,
    H264StereoHigh,
    HEVCMain,
    HEVCMain10,
    VP9Profile0,
    VP9Profile1,
    VP9Profile2,
    VP9Profile3,
    HEVCMain12,
    HEVCMain422_10,
    HEVCMain422_12,
    HEVCMain444,
    HEVCMain444_10,
    HEVCMain444_12,
    HEVCSccMain,
    HEVCSccMain10,
    HEVCSccMain444,
    AV1Profile0,
    AV1Profile1,
    HEVCSccMain444_10,
    Protected,
}

impl Profile {
    /// The integer code that the driver uses for this value.
    pub open spec fn spec_code(self) -> int {
        match self {
            Profile::Misc => -1,
            Profile::MPEG2Simple => 0,
            Profile::MPEG2Main => 1,
            Profile::MPEG4Simple => 2,
            Profile::MPEG4AdvancedSimple => 3,
            Profile::MPEG4Main => 4,
            Profile::H264Baseline => 5,
            Profile::H264Main => 6,
            Profile::H264High => 7,
            Profile::VC1Simple => 8,
            Profile::VC1Main => 9,
            Profile::VC1Advanced => 10,
            Profile::H263Baseline => 11,
            Profile::JPEGBaseline => 12,
            Profile::H264ConstrainedBaseline => 13,
            Profile::VP8Version0_3 => 14,
            Profile::H264MultiviewHigh => 15,
            Profile::H264StereoHigh => 16,
            Profile::HEVCMain => 17,
            Profile::HEVCMain10 => 18,
            Profile::VP9Profile0 => 19,
            Profile::VP9Profile1 => 20,
            Profile::VP9Profile2 => 21,
            Profile::VP9Profile3 => 22,
            Profile::HEVCMain12 => 23,
            Profile::HEVCMain422_10 => 24,
            Profile::HEVCMain422_12 => 25,
            Profile::HEVCMain444 => 26,
            Profile::HEVCMain444_10 => 27,
            Profile::HEVCMain444_12 => 28,
            Profile::HEVCSccMain => 29,
            Profile::HEVCSccMain10 => 30,
            Profile::HEVCSccMain444 => 31,
            Profile::AV1Profile0 => 32,
            Profile::AV1Profile1 => 33,
            Profile::HEVCSccMain444_10 => 34,
            Profile::Protected => 35,
        }
    }

    /// The value that a driver code denotes, if any.
    pub open spec fn spec_from_code(code: int) -> Option<Profile> {
        if code == -1 {
            Some(Profile::Misc)
        } else if code == 0 {
            Some(Profile::MPEG2Simple)
        } else if code == 1 {
            Some(Profile::MPEG2Main)
        } else if code == 2 {
            Some(Profile::MPEG4Simple)
        } else if code == 3 {
            Some(Profile::MPEG4AdvancedSimple)
        } else if code == 4 {
            Some(Profile::MPEG4Main)
        } else if code == 5 {
            Some(Profile::H264Baseline)
        } else if code == 6 {
            Some(Profile::H264Main)
        } else if code == 7 {
            Some(Profile::H264High)
        } else if code == 8 {
            Some(Profile::VC1Simple)
        } else if code == 9 {
            Some(Profile::VC1Main)
        } else if code == 10 {
            Some(Profile::VC1Advanced)
        } else if code == 11 {
            Some(Profile::H263Baseline)
        } else if code == 12 {
            Some(Profile::JPEGBaseline)
        } else if code == 13 {
            Some(Profile::H264ConstrainedBaseline)
        } else if code == 14 {
            Some(Profile::VP8Version0_3)
        } else if code == 15 {
            Some(Profile::H264MultiviewHigh)
        } else if code == 16 {
            Some(Profile::H264StereoHigh)
        } else if code == 17 {
            Some(Profile::HEVCMain)
        } else if code == 18 {
            Some(Profile::HEVCMain10)
        } else if code == 19 {
            Some(Profile::VP9Profile0)
        } else if code == 20 {
            Some(Profile::VP9Profile1)
        } else if code == 21 {
            Some(Profile::VP9Profile2)
        } else if code == 22 {
            Some(Profile::VP9Profile3)
        } else if code == 23 {
            Some(Profile::HEVCMain12)
        } else if code == 24 {
            Some(Profile::HEVCMain422_10)
        } else if code == 25 {
            Some(Profile::HEVCMain422_12)
        } else if code == 26 {
            Some(Profile::HEVCMain444)
        } else if code == 27 {
            Some(Profile::HEVCMain444_10)
        } else if code == 28 {
            Some(Profile::HEVCMain444_12)
        } else if code == 29 {
            Some(Profile::HEVCSccMain)
        } else if code == 30 {
            Some(Profile::HEVCSccMain10)
        } else if code == 31 {
            Some(Profile::HEVCSccMain444)
        } else if code == 32 {
            Some(Profile::AV1Profile0)
        } else if code == 33 {
            Some(Profile::AV1Profile1)
        } else if code == 34 {
            Some(Profile::HEVCSccMain444_10)
        } else if code == 35 {
            Some(Profile::Protected)
        } else {
            None
        }
    }

    pub fn to_raw(self) -> (r: i32)
        ensures
            r == self.spec_code(),
    {
        match self {
            Profile::Misc => -1,
            Profile::MPEG2Simple => 0,
            Profile::MPEG2Main => 1,
            Profile::MPEG4Simple => 2,
            Profile::MPEG4AdvancedSimple => 3,
            Profile::MPEG4Main => 4,
            Profile::H264Baseline => 5,
            Profile::H264Main => 6,
            Profile::H264High => 7,
            Profile::VC1Simple => 8,
            Profile::VC1Main => 9,
            Profile::VC1Advanced => 10,
            Profile::H263Baseline => 11,
            Profile::JPEGBaseline => 12,
            Profile::H264ConstrainedBaseline => 13,
            Profile::VP8Version0_3 => 14,
            Profile::H264MultiviewHigh => 15,
            Profile::H264StereoHigh => 16,
            Profile::HEVCMain => 17,
            Profile::HEVCMain10 => 18,
            Profile::VP9Profile0 => 19,
            Profile::VP9Profile1 => 20,
            Profile::VP9Profile2 => 21,
            Profile::VP9Profile3 => 22,
            Profile::HEVCMain12 => 23,
            Profile::HEVCMain422_10 => 24,
            Profile::HEVCMain422_12 => 25,
            Profile::HEVCMain444 => 26,
            Profile::HEVCMain444_10 => 27,
            Profile::HEVCMain444_12 => 28,
            Profile::HEVCSccMain => 29,
            Profile::HEVCSccMain10 => 30,
            Profile::HEVCSccMain444 => 31,
            Profile::AV1Profile0 => 32,
            Profile::AV1Profile1 => 33,
            Profile::HEVCSccMain444_10 => 34,
            Profile::Protected => 35,
        }
    }

    /// Decodes a driver code; an integer that names no value is refused.
    pub fn from_raw(raw: i32) -> (r: Option<Profile>)
        ensures
            r == Self::spec_from_code(raw as int),
    {
        match raw {
            -1 => Some(Profile::Misc),
            0 => Some(Profile::MPEG2Simple),
            1 => Some(Profile::MPEG2Main),
            2 => Some(Profile::MPEG4Simple),
            3 => Some(Profile::MPEG4AdvancedSimple),
            4 => Some(Profile::MPEG4Main),
            5 => Some(Profile::H264Baseline),
            6 => Some(Profile::H264Main),
            7 => Some(Profile::H264High),
            8 => Some(Profile::VC1Simple),
            9 => Some(Profile::VC1Main),
            10 => Some(Profile::VC1Advanced),
            11 => Some(Profile::H263Baseline),
            12 => Some(Profile::JPEGBaseline),
            13 => Some(Profile::H264ConstrainedBaseline),
            14 => Some(Profile::VP8Version0_3),
            15 => Some(Profile::H264MultiviewHigh),
            16 => Some(Profile::H264StereoHigh),
            17 => Some(Profile::HEVCMain),
            18 => Some(Profile::HEVCMain10),
            19 => Some(Profile::VP9Profile0),
            20 => Some(Profile::VP9Profile1),
            21 => Some(Profile::VP9Profile2),
            22 => Some(Profile::VP9Profile3),
            23 => Some(Profile::HEVCMain12),
            24 => Some(Profile::HEVCMain422_10),
            25 => Some(Profile::HEVCMain422_12),
            26 => Some(Profile::HEVCMain444),
            27 => Some(Profile::HEVCMain444_10),
            28 => Some(Profile::HEVCMain444_12),
            29 => Some(Profile::HEVCSccMain),
            30 => Some(Profile::HEVCSccMain10),
            31 => Some(Profile::HEVCSccMain444),
            32 => Some(Profile::AV1Profile0),
            33 => Some(Profile::AV1Profile1),
            34 => Some(Profile::HEVCSccMain444_10),
            35 => Some(Profile::Protected),
            _ => None,
        }
    }
}

/// Every profile value encodes to its code and decodes back to itself, and only its
/// own code decodes to it.
pub proof fn lemma_profile_code_round_trip(p: Profile, code: int)
    ensures
        Profile::spec_from_code(p.spec_code()) == Some(p),
        Profile::spec_from_code(code) == Some(p) ==> p.spec_code() == code,
{
}

/// An entrypoint: a specific operation on image or video data.
#[derive(Clone, Copy, PartialEq, Eq, Structural, Debug, Hash)]
#[allow(non_camel_case_types)]
pub enum Entrypoint {
    /// Variable-length decoding (of video slices or pictures).
    VLD,
    IZZ,
    IDCT,
    MoComp,
    Deblocking,
    /// Video slice encoding.
    EncSlice,
    /// Picture encoding (eg. for JPEGs).
    EncPicture,
    EncSliceLP,
    /// The video processing API.
    VideoProc,
    /// Flexible Encoding Infrastructure.
    FEI,
    Stats,
    ProtectedTEEComm,
    ProtectedContent,
}

impl Entrypoint {
    /// The integer code that the driver uses for this value.
    pub open spec fn spec_code(self) -> int {
        match self {
            Entrypoint::VLD => 1,
            Entrypoint::IZZ => 2,
            Entrypoint::IDCT => 3,
            Entrypoint::MoComp => 4,
            Entrypoint::Deblocking => 5,
            Entrypoint::EncSlice => 6,
            Entrypoint::EncPicture => 7,
            Entrypoint::EncSliceLP => 8,
            Entrypoint::VideoProc => 10,
            Entrypoint::FEI => 11,
            Entrypoint::Stats => 12,
            Entrypoint::ProtectedTEEComm => 13,
            Entrypoint::ProtectedContent => 14,
        }
    }

    /// The value that a driver code denotes, if any.
    pub open spec fn spec_from_code(code: int) -> Option<Entrypoint> {
        if code == 1 {
            Some(Entrypoint::VLD)
        } else if code == 2 {
            Some(Entrypoint::IZZ)
        } else if code == 3 {
            Some(Entrypoint::IDCT)
        } else if code == 4 {
            Some(Entrypoint::MoComp)
        } else if code == 5 {
            Some(Entrypoint::Deblocking)
        } else if code == 6 {
            Some(Entrypoint::EncSlice)
        } else if code == 7 {
            Some(Entrypoint::EncPicture)
        } else if code == 8 {
            Some(Entrypoint::EncSliceLP)
        } else if code == 10 {
            Some(Entrypoint::VideoProc)
        } else if code == 11 {
            Some(Entrypoint::FEI)
        } else if code == 12 {
            Some(Entrypoint::Stats)
        } else if code == 13 {
            Some(Entrypoint::ProtectedTEEComm)
        } else if code == 14 {
            Some(Entrypoint::ProtectedContent)
        } else {
            None
        }
    }

    pub fn to_raw(self) -> (r: i32)
        ensures
            r == self.spec_code(),
    {
        match self {
            Entrypoint::VLD => 1,
            Entrypoint::IZZ => 2,
            Entrypoint::IDCT => 3,
            Entrypoint::MoComp => 4,
            Entrypoint::Deblocking => 5,
            Entrypoint::EncSlice => 6,
            Entrypoint::EncPicture => 7,
            Entrypoint::EncSliceLP => 8,
            Entrypoint::VideoProc => 10,
            Entrypoint::FEI => 11,
            Entrypoint::Stats => 12,
            Entrypoint::ProtectedTEEComm => 13,
            Entrypoint::ProtectedContent => 14,
        }
    }

    /// Decodes a driver code; an integer that names no value is refused.
    pub fn from_raw(raw: i32) -> (r: Option<Entrypoint>)
        ensures
            r == Self::spec_from_code(raw as int),
    {
        match raw {
            1 => Some(Entrypoint::VLD),
            2 => Some(Entrypoint::IZZ),
            3 => Some(Entrypoint::IDCT),
            4 => Some(Entrypoint::MoComp),
            5 => Some(Entrypoint::Deblocking),
            6 => Some(Entrypoint::EncSlice),
            7 => Some(Entrypoint::EncPicture),
            8 => Some(Entrypoint::EncSliceLP),
            10 => Some(Entrypoint::VideoProc),
            11 => Some(Entrypoint::FEI),
            12 => Some(Entrypoint::Stats),
            13 => Some(Entrypoint::ProtectedTEEComm),
            14 => Some(Entrypoint::ProtectedContent),
            _ => None,
        }
    }
}

/// Every entrypoint value encodes to its code and decodes back to itself, and only its
/// own code decodes to it.
pub proof fn lemma_entrypoint_code_round_trip(p: Entrypoint, code: int)
    ensures
        Entrypoint::spec_from_code(p.spec_code()) == Some(p),
        Entrypoint::spec_from_code(code) == Some(p) ==> p.spec_code() == code,
{
}

/// The kind of error the driver reports for a decoded picture.
#[derive(Clone, Copy, PartialEq, Eq, Structural, Debug, Hash)]
#[allow(non_camel_case_types)]
pub enum DecodeErrorType {
    SliceMissing,
    MBError,
}

impl DecodeErrorType {
    /// The integer code that the driver uses for this value.
    pub open spec fn spec_code(self) -> int {
        match self {
            DecodeErrorType::SliceMissing => 0,
            DecodeErrorType::MBError => 1,
        }
    }

    /// The value that a driver code denotes, if any.
    pub open spec fn spec_from_code(code: int) -> Option<DecodeErrorType> {
        if code == 0 {
            Some(DecodeErrorType::SliceMissing)
        } else if code == 1 {
            Some(DecodeErrorType::MBError)
        } else {
            None
        }
    }

    pub fn to_raw(self) -> (r: i32)
        ensures
            r == self.spec_code(),
    {
        match self {
            DecodeErrorType::SliceMissing => 0,
            DecodeErrorType::MBError => 1,
        }
    }

    /// Decodes a driver code; an integer that names no value is refused.
    pub fn from_raw(raw: i32) -> (r: Option<DecodeErrorType>)
        ensures
            r == Self::spec_from_code(raw as int),
    {
        match raw {
            0 => Some(DecodeErrorType::SliceMissing),
            1 => Some(DecodeErrorType::MBError),
            _ => None,
        }
    }
}

/// Every decode_error_type value encodes to its code and decodes back to itself, and only its
/// own code decodes to it.
pub proof fn lemma_decode_error_type_code_round_trip(p: DecodeErrorType, code: int)
    ensures
        DecodeErrorType::spec_from_code(p.spec_code()) == Some(p),
        DecodeErrorType::spec_from_code(code) == Some(p) ==> p.spec_code() == code,
{
}

/// A rotation applied to a picture, in steps of 90 degrees.
#[derive(Clone, Copy, PartialEq, Eq, Structural, Debug, Hash)]
#[allow(non_camel_case_types)]
pub enum Rotation {
    NONE,
    R90,
    R180,
    R270,
}

impl Rotation {
    /// The integer code that the driver uses for this value.
    pub open spec fn spec_code(self) -> int {
        match self {
            Rotation::NONE => 0,
            Rotation::R90 => 1,
            Rotation::R180 => 2,
            Rotation::R270 => 3,
        }
    }

    /// The value that a driver code denotes, if any.
    pub open spec fn spec_from_code(code: int) -> Option<Rotation> {
        if code == 0 {
            Some(Rotation::NONE)
        } else if code == 1 {
            Some(Rotation::R90)
        } else if code == 2 {
            Some(Rotation::R180)
        } else if code == 3 {
            Some(Rotation::R270)
        } else {
            None
        }
    }

    pub fn to_raw(self) -> (r: u32)
        ensures
            r == self.spec_code(),
    {
        match self {
            Rotation::NONE => 0,
            Rotation::R90 => 1,
            Rotation::R180 => 2,
            Rotation::R270 => 3,
        }
    }

    /// Decodes a driver code; an integer that names no value is refused.
    pub fn from_raw(raw: u32) -> (r: Option<Rotation>)
        ensures
            r == Self::spec_from_code(raw as int),
    {
        match raw {
            0 => Some(Rotation::NONE),
            1 => Some(Rotation::R90),
            2 => Some(Rotation::R180),
            3 => Some(Rotation::R270),
            _ => None,
        }
    }
}

/// Every rotation value encodes to its code and decodes back to itself, and only its
/// own code decodes to it.
pub proof fn lemma_rotation_code_round_trip(p: Rotation, code: int)
    ensures
        Rotation::spec_from_code(p.spec_code()) == Some(p),
        Rotation::spec_from_code(code) == Some(p) ==> p.spec_code() == code,
{
}
/// Mirroring applied to a picture.
///
/// A set of bits; bits without a name are kept as they are.
#[derive(Clone, Copy, PartialEq, Eq, Structural, Debug, Hash)]
pub struct Mirror {
    bits: u32,
}

impl Mirror {
    /// The raw bits.
    pub closed spec fn spec_bits(self) -> u32 {
        self.bits
    }

    pub const NONE: u32 = 0;

    /// No mirroring.
    pub fn none() -> (r: Self)
        ensures
            r.spec_bits() == 0,
    {
        Mirror { bits: Self::NONE }
    }

    pub const HORIZONTAL: u32 = 1;

    /// Mirror along the vertical axis.
    pub fn horizontal() -> (r: Self)
        ensures
            r.spec_bits() == 1,
    {
        Mirror { bits: Self::HORIZONTAL }
    }

    pub const VERTICAL: u32 = 2;

    /// Mirror along the horizontal axis.
    pub fn vertical() -> (r: Self)
        ensures
            r.spec_bits() == 2,
    {
        Mirror { bits: Self::VERTICAL }
    }

    pub fn from_bits_retain(bits: u32) -> (r: Self)
        ensures
            r.spec_bits() == bits,
    {
        Mirror { bits }
    }

    pub fn bits(&self) -> (r: u32)
        ensures
            r == self.spec_bits(),
    {
        self.bits
    }

    pub fn is_empty(&self) -> (r: bool)
        ensures
            r == (self.spec_bits() == 0),
    {
        self.bits == 0
    }

    /// Whether every bit of `other` is set in `self`.
    pub fn contains(&self, other: Self) -> (r: bool)
        ensures
            r == (self.spec_bits() & other.spec_bits() == other.spec_bits()),
    {
        self.bits & other.bits == other.bits
    }

    pub fn union(self, other: Self) -> (r: Self)
        ensures
            r.spec_bits() == self.spec_bits() | other.spec_bits(),
    {
        Mirror { bits: self.bits | other.bits }
    }

    pub fn intersection(self, other: Self) -> (r: Self)
        ensures
            r.spec_bits() == self.spec_bits() & other.spec_bits(),
    {
        Mirror { bits: self.bits & other.bits }
    }

    /// Sets the bits of `other`, keeping every other bit.
    pub fn insert(&mut self, other: Self)
        ensures
            final(self).spec_bits() == old(self).spec_bits() | other.spec_bits(),
    {
        self.bits = self.bits | other.bits;
    }

    /// Clears the bits of `other`, keeping every other bit.
    pub fn remove(&mut self, other: Self)
        ensures
            final(self).spec_bits() == old(self).spec_bits() & !other.spec_bits(),
    {
        self.bits = self.bits & !other.bits;
    }
}

/// Two values of `Mirror` with the same bits are the same value.
pub proof fn lemma_mirror_bits_determine(a: Mirror, b: Mirror)
    requires
        a.spec_bits() == b.spec_bits(),
    ensures
        a == b,
{
}

/// Options for blending a subpicture onto a surface.
///
/// A set of bits; bits without a name are kept as they are.
#[derive(Clone, Copy, PartialEq, Eq, Structural, Debug, Hash)]
pub struct SubpictureFlags {
    bits: u32,
}

impl SubpictureFlags {
    /// The raw bits.
    pub closed spec fn spec_bits(self) -> u32 {
        self.bits
    }

    pub const CHROMA_KEYING: u32 = 1;

    /// Blend with a chroma key.
    pub fn chroma_keying() -> (r: Self)
        ensures
            r.spec_bits() == 1,
    {
        SubpictureFlags { bits: Self::CHROMA_KEYING }
    }

    pub const GLOBAL_ALPHA: u32 = 2;

    /// Blend with a global alpha value.
    pub fn global_alpha() -> (r: Self)
        ensures
            r.spec_bits() == 2,
    {
        SubpictureFlags { bits: Self::GLOBAL_ALPHA }
    }

    pub const DESTINATION_IS_SCREEN_COORD: u32 = 4;

    /// Destination rectangle is in screen coordinates.
    pub fn destination_is_screen_coord() -> (r: Self)
        ensures
            r.spec_bits() == 4,
    {
        SubpictureFlags { bits: Self::DESTINATION_IS_SCREEN_COORD }
    }

    pub fn from_bits_retain(bits: u32) -> (r: Self)
        ensures
            r.spec_bits() == bits,
    {
        SubpictureFlags { bits }
    }

    pub fn bits(&self) -> (r: u32)
        ensures
            r == self.spec_bits(),
    {
        self.bits
    }

    pub fn is_empty(&self) -> (r: bool)
        ensures
            r == (self.spec_bits() == 0),
    {
        self.bits == 0
    }

    /// Whether every bit of `other` is set in `self`.
    pub fn contains(&self, other: Self) -> (r: bool)
        ensures
            r == (self.spec_bits() & other.spec_bits() == other.spec_bits()),
    {
        self.bits & other.bits == other.bits
    }

    pub fn union(self, other: Self) -> (r: Self)
        ensures
            r.spec_bits() == self.spec_bits() | other.spec_bits(),
    {
        SubpictureFlags { bits: self.bits | other.bits }
    }

    pub fn intersection(self, other: Self) -> (r: Self)
        ensures
            r.spec_bits() == self.spec_bits() & other.spec_bits(),
    {
        SubpictureFlags { bits: self.bits & other.bits }
    }

    /// Sets the bits of `other`, keeping every other bit.
    pub fn insert(&mut self, other: Self)
        ensures
            final(self).spec_bits() == old(self).spec_bits() | other.spec_bits(),
    {
        self.bits = self.bits | other.bits;
    }

    /// Clears the bits of `other`, keeping every other bit.
    pub fn remove(&mut self, other: Self)
        ensures
            final(self).spec_bits() == old(self).spec_bits() & !other.spec_bits(),
    {
        self.bits = self.bits & !other.bits;
    }
}

/// Two values of `SubpictureFlags` with the same bits are the same value.
pub proof fn lemma_subpicture_flags_bits_determine(a: SubpictureFlags, b: SubpictureFlags)
    requires
        a.spec_bits() == b.spec_bits(),
    ensures
        a == b,
{
}

/// Where a slice's data buffer lies within the slice.
///
/// A set of bits; bits without a name are kept as they are.
#[derive(Clone, Copy, PartialEq, Eq, Structural, Debug, Hash)]
pub struct SliceDataFlags {
    bits: u32,
}

impl SliceDataFlags {
    /// The raw bits.
    pub closed spec fn spec_bits(self) -> u32 {
        self.bits
    }

    pub const ALL: u32 = 0;

    /// The entire slice is in one buffer.
    pub fn whole() -> (r: Self)
        ensures
            r.spec_bits() == 0,
    {
        SliceDataFlags { bits: Self::ALL }
    }

    pub const BEGIN: u32 = 1;

    /// The buffer holds the start of the slice.
    pub fn begin() -> (r: Self)
        ensures
            r.spec_bits() == 1,
    {
        SliceDataFlags { bits: Self::BEGIN }
    }

    pub const MIDDLE: u32 = 2;

    /// The buffer holds a middle part of the slice.
    pub fn middle() -> (r: Self)
        ensures
            r.spec_bits() == 2,
    {
        SliceDataFlags { bits: Self::MIDDLE }
    }

    pub const END: u32 = 4;

    /// The buffer holds the end of the slice.
    pub fn end() -> (r: Self)
        ensures
            r.spec_bits() == 4,
    {
        SliceDataFlags { bits: Self::END }
    }

    pub fn from_bits_retain(bits: u32) -> (r: Self)
        ensures
            r.spec_bits() == bits,
    {
        SliceDataFlags { bits }
    }

    pub fn bits(&self) -> (r: u32)
        ensures
            r == self.spec_bits(),
    {
        self.bits
    }

    pub fn is_empty(&self) -> (r: bool)
        ensures
            r == (self.spec_bits() == 0),
    {
        self.bits == 0
    }

    /// Whether every bit of `other` is set in `self`.
    pub fn contains(&self, other: Self) -> (r: bool)
        ensures
            r == (self.spec_bits() & other.spec_bits() == other.spec_bits()),
    {
        self.bits & other.bits == other.bits
    }

    pub fn union(self, other: Self) -> (r: Self)
        ensures
            r.spec_bits() == self.spec_bits() | other.spec_bits(),
    {
        SliceDataFlags { bits: self.bits | other.bits }
    }

    pub fn intersection(self, other: Self) -> (r: Self)
        ensures
            r.spec_bits() == self.spec_bits() & other.spec_bits(),
    {
        SliceDataFlags { bits: self.bits & other.bits }
    }

    /// Sets the bits of `other`, keeping every other bit.
    pub fn insert(&mut self, other: Self)
        ensures
            final(self).spec_bits() == old(self).spec_bits() | other.spec_bits(),
    {
        self.bits = self.bits | other.bits;
    }

    /// Clears the bits of `other`, keeping every other bit.
    pub fn remove(&mut self, other: Self)
        ensures
            final(self).spec_bits() == old(self).spec_bits() & !other.spec_bits(),
    {
        self.bits = self.bits & !other.bits;
    }
}

/// Two values of `SliceDataFlags` with the same bits are the same value.
pub proof fn lemma_slice_data_flags_bits_determine(a: SliceDataFlags, b: SliceDataFlags)
    requires
        a.spec_bits() == b.spec_bits(),
    ensures
        a == b,
{
}
/// The kind of payload a buffer carries; it selects the layout the driver expects.
#[derive(Clone, Copy, PartialEq, Eq, Structural, Debug, Hash)]
pub enum BufferType {
    PictureParameter,
    IQMatrix,
    SliceParameter,
    SliceData,
    HuffmanTable,
}

impl BufferType {
    /// The integer code that the driver uses for this buffer type.
    pub open spec fn spec_code(self) -> int {
        match self {
            BufferType::PictureParameter => 0,
            BufferType::IQMatrix => 1,
            BufferType::SliceParameter => 4,
            BufferType::SliceData => 5,
            BufferType::HuffmanTable => 12,
        }
    }

    pub fn to_raw(self) -> (r: u32)
        ensures
            r == self.spec_code(),
    {
        match self {
            BufferType::PictureParameter => 0,
            BufferType::IQMatrix => 1,
            BufferType::SliceParameter => 4,
            BufferType::SliceData => 5,
            BufferType::HuffmanTable => 12,
        }
    }
}

/// Codec-independent slice parameters.
///
/// In memory the three fields are laid out as three 32-bit words, in declaration order.
#[derive(Clone, Copy, Debug)]
pub struct SliceParameterBufferBase {
    slice_data_size: u32,
    slice_data_offset: u32,
    slice_data_flags: SliceDataFlags,
}

impl SliceParameterBufferBase {
    pub closed spec fn spec_size(self) -> u32 {
        self.slice_data_size
    }

    pub closed spec fn spec_offset(self) -> u32 {
        self.slice_data_offset
    }

    pub closed spec fn spec_flags(self) -> SliceDataFlags {
        self.slice_data_flags
    }

    /// Parameters for a slice of `slice_data_size` bytes that lies whole in one buffer,
    /// at its start.
    pub fn new(slice_data_size: u32) -> (r: Self)
        ensures
            r.spec_size() == slice_data_size,
            r.spec_offset() == 0,
            r.spec_flags().spec_bits() == SliceDataFlags::ALL,
    {
        SliceParameterBufferBase {
            slice_data_size,
            slice_data_offset: 0,
            slice_data_flags: SliceDataFlags::whole(),
        }
    }

    pub fn slice_data_size(&self) -> (r: u32)
        ensures
            r == self.spec_size(),
    {
        self.slice_data_size
    }

    pub fn slice_data_offset(&self) -> (r: u32)
        ensures
            r == self.spec_offset(),
    {
        self.slice_data_offset
    }

    pub fn set_slice_data_offset(&mut self, slice_data_offset: u32)
        ensures
            final(self).spec_offset() == slice_data_offset,
            final(self).spec_size() == old(self).spec_size(),
            final(self).spec_flags() == old(self).spec_flags(),
    {
        self.slice_data_offset = slice_data_offset;
    }

    pub fn slice_data_flags(&self) -> (r: SliceDataFlags)
        ensures
            r == self.spec_flags(),
    {
        self.slice_data_flags
    }

    pub fn set_slice_data_flags(&mut self, flags: SliceDataFlags)
        ensures
            final(self).spec_flags() == flags,
            final(self).spec_size() == old(self).spec_size(),
            final(self).spec_offset() == old(self).spec_offset(),
    {
        self.slice_data_flags = flags;
    }

    /// The three words in the order the driver reads them: size, offset, flags.
    pub fn to_words(&self) -> (r: [u32; 3])
        ensures
            r@ == seq![self.spec_size(), self.spec_offset(), self.spec_flags().spec_bits()],
    {
        let r = [self.slice_data_size, self.slice_data_offset, self.slice_data_flags.bits()];
        assert(r@ =~= seq![self.spec_size(), self.spec_offset(), self.spec_flags().spec_bits()]);
        r
    }
}

} // verus!
