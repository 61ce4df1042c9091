use vstd::prelude::*;

verus! {

/// The little-endian integer that four bytes encode.
pub open spec fn le_u32_of(b: Seq<u8>) -> int {
    b[0] as int + 256 * (b[1] as int) + 65536 * (b[2] as int) + 16777216 * (b[3] as int)
}

/// The four little-endian bytes of an integer.
pub open spec fn le_bytes_of(x: u32) -> Seq<u8> {
    seq![
        (x % 256) as u8,
        ((x / 256) % 256) as u8,
        ((x / 65536) % 256) as u8,
        (x / 16777216) as u8,
    ]
}

/// A FourCC code identifying a pixel format.
///
/// Equality and hashing are over the raw code.
#[derive(Clone, Copy, PartialEq, Eq, Structural, Hash, Debug)]
pub struct PixelFormat(u32);

impl PixelFormat {
    pub closed spec fn code(self) -> u32 {
        self.0
    }

    /// Planar YUV 4:2:0 with 8-bit samples: a Y plane followed by a plane of interleaved
    /// U and V samples. Widely supported by hardware codecs.
    pub fn nv12() -> (r: PixelFormat)
        ensures
            r.code() == 0x3231564e,
            le_bytes_of(r.code()) == seq![0x4eu8, 0x56u8, 0x31u8, 0x32u8],
    {
        let r = f(&[0x4e, 0x56, 0x31, 0x32]);
        assert(le_bytes_of(r.code()) =~= seq![0x4eu8, 0x56u8, 0x31u8, 0x32u8]);
        r
    }

    pub fn from_bytes(fourcc: [u8; 4]) -> (r: PixelFormat)
        ensures
            r.code() as int == le_u32_of(fourcc@),
    {
        let r = (fourcc[0] as u32) + 256 * (fourcc[1] as u32) + 65536 * (fourcc[2] as u32)
            + 16777216 * (fourcc[3] as u32);
        PixelFormat(r)
    }

    pub fn from_u32_le(fourcc: u32) -> (r: PixelFormat)
        ensures
            r.code() == fourcc,
    {
        PixelFormat(fourcc)
    }

    pub fn to_bytes(self) -> (r: [u8; 4])
        ensures
            r@ == le_bytes_of(self.code()),
    {
        let x = self.0;
        let r = [(x % 256) as u8, ((x / 256) % 256) as u8, ((x / 65536) % 256) as u8, (x / 16777216) as u8];
        assert(r@ =~= le_bytes_of(self.code()));
        r
    }

    pub fn to_u32_le(self) -> (r: u32)
        ensures
            r == self.code(),
    {
        self.0
    }

    /// The four characters of the code, one per byte, in memory order.
    pub fn to_chars(self) -> (r: [char; 4])
        ensures
            forall|i: int| 0 <= i < 4 ==> r@[i] as u32 == le_bytes_of(self.code())[i] as u32,
    {
        let b = self.to_bytes();
        [b[0] as char, b[1] as char, b[2] as char, b[3] as char]
    }
}

fn f(fourcc: &[u8; 4]) -> (r: PixelFormat)
    ensures
        r.code() as int == le_u32_of(fourcc@),
{
    PixelFormat::from_bytes(*fourcc)
}

/// Two pixel formats with the same code are the same pixel format.
pub proof fn lemma_code_determines(p: PixelFormat, q: PixelFormat)
    requires
        p.code() == q.code(),
    ensures
        p == q,
{
}

/// Four bytes survive encoding into a code and decoding back.
pub proof fn lemma_bytes_round_trip(b: [u8; 4])
    ensures
        ({
            let x = le_u32_of(b@);
            0 <= x <= u32::MAX && le_bytes_of(x as u32) == b@
        }),
{
    let x = le_u32_of(b@);
    let (b0, b1, b2, b3) = (b@[0] as int, b@[1] as int, b@[2] as int, b@[3] as int);
    assert(0 <= x <= u32::MAX);
    assert(x % 256 == b0) by (nonlinear_arith)
        requires x == b0 + 256 * b1 + 65536 * b2 + 16777216 * b3, 0 <= b0 < 256, 0 <= b1 < 256, 0 <= b2 < 256, 0 <= b3 < 256;
    assert((x / 256) % 256 == b1) by (nonlinear_arith)
        requires x == b0 + 256 * b1 + 65536 * b2 + 16777216 * b3, 0 <= b0 < 256, 0 <= b1 < 256, 0 <= b2 < 256, 0 <= b3 < 256;
    assert((x / 65536) % 256 == b2) by (nonlinear_arith)
        requires x == b0 + 256 * b1 + 65536 * b2 + 16777216 * b3, 0 <= b0 < 256, 0 <= b1 < 256, 0 <= b2 < 256, 0 <= b3 < 256;
    assert(x / 16777216 == b3) by (nonlinear_arith)
        requires x == b0 + 256 * b1 + 65536 * b2 + 16777216 * b3, 0 <= b0 < 256, 0 <= b1 < 256, 0 <= b2 < 256, 0 <= b3 < 256;
    assert(le_bytes_of(x as u32) =~= b@);
}

/// A code survives decoding into bytes and encoding back.
pub proof fn lemma_code_round_trip(x: u32)
    ensures
        le_bytes_of(x).len() == 4,
        le_u32_of(le_bytes_of(x)) == x,
{
    let xi = x as int;
    assert(xi == xi % 256 + 256 * ((xi / 256) % 256) + 65536 * ((xi / 65536) % 256) + 16777216 * (xi / 16777216)) by (nonlinear_arith)
        requires 0 <= xi <= 0xffff_ffff;
}

/// `from_bytes` followed by `to_bytes` gives back the same four bytes, for every four bytes.
pub proof fn lemma_pixel_format_round_trip(b: [u8; 4], p: PixelFormat)
    requires
        p.code() as int == le_u32_of(b@),
    ensures
        le_bytes_of(p.code()) == b@,
{
    lemma_bytes_round_trip(b);
}

} // verus!
