//! Reading decoded pixels out of a mapped surface.
//!
//! A mapping covers the surface's backing memory, row padding included; only the first
//! `width * height * channels` samples are pixel data.

use vstd::prelude::*;

verus! {

/// How many samples of a mapping are pixel data.
pub open spec fn spec_sample_count(width: int, height: int, channels: int) -> int {
    width * height * channels
}

/// The number of meaningful samples, when it fits in a `usize`.
pub fn sample_count(width: u32, height: u32, channels: u32) -> (r: Option<usize>)
    ensures
        spec_sample_count(width as int, height as int, channels as int) <= usize::MAX ==> r == Some(
            spec_sample_count(width as int, height as int, channels as int) as usize),
        spec_sample_count(width as int, height as int, channels as int) > usize::MAX ==> r is None,
{
    let wh = (width as usize).checked_mul(height as usize);
    match wh {
        Some(wh) => {
            let r = wh.checked_mul(channels as usize);
            proof {
                assert(wh as int * channels as int == spec_sample_count(width as int, height as int, channels as int))
                    by (nonlinear_arith) requires wh as int == width as int * height as int;
            }
            r
        },
        None => {
            proof {
                let w = width as int;
                let h = height as int;
                let c = channels as int;
                assert(w * h > usize::MAX);
                if c == 0 {
                    assert(spec_sample_count(w, h, c) == 0) by (nonlinear_arith) requires c == 0;
                } else {
                    assert(w * h * c >= w * h) by (nonlinear_arith) requires c >= 1, w >= 0, h >= 0;
                }
            }
            if channels == 0 {
                Some(0)
            } else {
                None
            }
        },
    }
}

/// The pixel data of a mapping of a `width` by `height` surface with `channels` samples per
/// pixel: its first `width * height * channels` samples. `None` when the mapping is shorter.
pub fn meaningful_samples(mapping: &Vec<u8>, width: u32, height: u32, channels: u32) -> (r: Option<Vec<u8>>)
    ensures
        spec_sample_count(width as int, height as int, channels as int) <= mapping@.len() ==> (r matches Some(v)
            && v@ == mapping@.take(spec_sample_count(width as int, height as int, channels as int))),
        spec_sample_count(width as int, height as int, channels as int) > mapping@.len() ==> r is None,
{
    let len = mapping.len();
    let n = match sample_count(width, height, channels) {
        Some(n) => n,
        None => {
            return None;
        },
    };
    if n > len {
        return None;
    }
    let mut out: Vec<u8> = Vec::with_capacity(n);
    let mut i: usize = 0;
    while i < n
        invariant
            n <= mapping@.len(),
            0 <= i <= n,
            out@ == mapping@.take(i as int),
        decreases n - i,
    {
        out.push(mapping[i]);
        i += 1;
        assert(out@ =~= mapping@.take(i as int));
    }
    Some(out)
}

} // verus!
