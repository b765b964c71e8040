use vstd::prelude::*;

use crate::error::SpectrogramError;

verus! {

/// Number of whole frames of `frame_length` samples, `hop` apart, that fit in
/// `input_len` samples.
pub open spec fn spec_frame_count(input_len: nat, frame_length: nat, hop: nat) -> nat {
    if input_len < frame_length || hop == 0 {
        0
    } else {
        ((input_len - frame_length) as nat / hop + 1) as nat
    }
}

/// Stride between consecutive frame starts: `frame_length - overlap`.
pub fn hop_size(frame_length: usize, overlap: usize) -> (r: Result<usize, SpectrogramError>)
    ensures
        overlap < frame_length ==> r == Ok::<usize, SpectrogramError>((frame_length - overlap) as usize),
        overlap >= frame_length ==> r == Err::<usize, SpectrogramError>(SpectrogramError::InvalidOverlap),
{
    if overlap >= frame_length {
        Err(SpectrogramError::InvalidOverlap)
    } else {
        Ok(frame_length - overlap)
    }
}

/// Number of frames for an input of `input_len` samples: zero when the input is
/// shorter than one frame, else `(input_len - frame_length) / hop + 1`.
pub fn frame_count(input_len: usize, frame_length: usize, overlap: usize) -> (r: Result<usize, SpectrogramError>)
    ensures
        overlap < frame_length ==> r == Ok::<usize, SpectrogramError>(
            spec_frame_count(input_len as nat, frame_length as nat, (frame_length - overlap) as nat) as usize,
        ),
        overlap >= frame_length ==> r == Err::<usize, SpectrogramError>(SpectrogramError::InvalidOverlap),
{
    match hop_size(frame_length, overlap) {
        Err(e) => Err(e),
        Ok(hop) => {
            if input_len < frame_length {
                Ok(0)
            } else {
                let n: usize = (input_len - frame_length) / hop;
                assert(n <= input_len - frame_length) by (nonlinear_arith)
                    requires n == (input_len - frame_length) as int / hop as int, hop >= 1, input_len >= frame_length;
                Ok(n + 1)
            }
        },
    }
}

/// Every frame counted by `spec_frame_count` lies wholly inside the input.
pub proof fn lemma_frame_in_bounds(input_len: nat, frame_length: nat, hop: nat, f: nat)
    requires
        hop > 0,
        f < spec_frame_count(input_len, frame_length, hop),
    ensures
        f * hop + frame_length <= input_len,
{
    let d = (input_len - frame_length) as nat;
    assert(f * hop <= d) by (nonlinear_arith)
        requires
            f < d / hop + 1,
            hop > 0,
    {
        assert(f <= d / hop);
        assert(f * hop <= (d / hop) * hop);
        assert((d / hop) * hop <= d);
    }
}

/// Start offsets of all frames: `f * hop` for each frame index `f`.
pub fn frame_starts(input_len: usize, frame_length: usize, overlap: usize) -> (r: Result<Vec<usize>, SpectrogramError>)
    ensures
        overlap >= frame_length ==> r == Err::<Vec<usize>, SpectrogramError>(SpectrogramError::InvalidOverlap),
        overlap < frame_length ==> r.is_ok() && ({
            let hop = (frame_length - overlap) as nat;
            let starts = r.unwrap()@;
            &&& starts.len() == spec_frame_count(input_len as nat, frame_length as nat, hop)
            &&& forall|f: int| 0 <= f < starts.len() ==> #[trigger] starts[f] == f * hop
            &&& forall|f: int| 0 <= f < starts.len() ==> #[trigger] starts[f] + frame_length <= input_len
        }),
{
    let hop = match hop_size(frame_length, overlap) {
        Err(e) => return Err(e),
        Ok(h) => h,
    };
    let count = match frame_count(input_len, frame_length, overlap) {
        Err(e) => return Err(e),
        Ok(c) => c,
    };
    let mut starts: Vec<usize> = Vec::new();
    let mut f: usize = 0;
    let mut pos: usize = 0;
    while f < count
        invariant
            hop == frame_length - overlap,
            hop > 0,
            count == spec_frame_count(input_len as nat, frame_length as nat, hop as nat),
            f <= count,
            f < count ==> pos == f * hop,
            starts@.len() == f,
            forall|g: int| 0 <= g < f ==> #[trigger] starts@[g] == g * hop,
            forall|g: int| 0 <= g < f ==> #[trigger] starts@[g] + frame_length <= input_len,
        decreases count - f,
    {
        proof {
            lemma_frame_in_bounds(input_len as nat, frame_length as nat, hop as nat, f as nat);
        }
        starts.push(pos);
        f = f + 1;
        if f < count {
            proof {
                lemma_frame_in_bounds(input_len as nat, frame_length as nat, hop as nat, f as nat);
            }
            assert(f * hop == pos + hop) by (nonlinear_arith)
                requires f == (f - 1) + 1, pos == (f - 1) * hop;
            pos = pos + hop;
        }
    }
    Ok(starts)
}

} // verus!
