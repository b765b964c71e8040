use vstd::prelude::*;

verus! {

/// First sample of bucket `p` when `len` samples are spread over `num` buckets.
pub open spec fn spec_bucket_start(p: nat, len: nat, num: nat) -> nat {
    (p * len) / num
}

/// One past the last sample of bucket `p`: the ceiling of `(p + 1) * len / num`,
/// capped at `len`.
pub open spec fn spec_bucket_end(p: nat, len: nat, num: nat) -> nat {
    let e = ((p + 1) * len + num - 1) as nat / num;
    if e < len {
        e
    } else {
        len
    }
}

/// Sample range `[start, end)` summarised by peak `p` of `num_peaks`, for a
/// channel of `data_len` samples. Neighbouring buckets may share a sample.
pub fn peak_bucket(p: usize, data_len: usize, num_peaks: usize) -> (r: (usize, usize))
    requires
        p < num_peaks,
    ensures
        r.0 == spec_bucket_start(p as nat, data_len as nat, num_peaks as nat),
        r.1 == spec_bucket_end(p as nat, data_len as nat, num_peaks as nat),
        r.0 <= r.1 <= data_len,
{
    let pp = p as u128;
    let len = data_len as u128;
    let num = num_peaks as u128;
    assert(pp * len < num * len + 1 && num * len <= 0xffff_ffff_ffff_ffff * 0xffff_ffff_ffff_ffffu128) by (nonlinear_arith)
        requires
            pp < num,
            num <= 0xffff_ffff_ffff_ffff,
            len <= 0xffff_ffff_ffff_ffff,
    ;
    let start = (pp * len) / num;
    assert(start <= len) by (nonlinear_arith)
        requires
            start == (pp * len) / (num as int),
            pp < num,
    {
        assert(pp * len <= num * len);
        assert((num * len) / (num as int) == len);
    }
    assert((pp + 1) * len + num - 1 <= 0xffff_ffff_ffff_ffff * 0xffff_ffff_ffff_ffffu128 + 0xffff_ffff_ffff_ffff) by (nonlinear_arith)
        requires
            pp < num,
            num <= 0xffff_ffff_ffff_ffff,
            len <= 0xffff_ffff_ffff_ffff,
    ;
    let ceil = ((pp + 1) * len + num - 1) / num;
    assert(start <= ceil) by (nonlinear_arith)
        requires
            start == (pp * len) / (num as int),
            ceil == ((pp + 1) * len + num - 1) / (num as int),
            num > 0,
    {
        assert(pp * len <= (pp + 1) * len + num - 1);
    }
    let end = if ceil < len {
        ceil
    } else {
        len
    };
    (start as usize, end as usize)
}

/// Size of the consecutive chunks that cover `len` samples in at most `num`
/// chunks: the ceiling of `len / num`.
pub open spec fn spec_chunk_size(len: nat, num: nat) -> nat {
    (len + num - 1) as nat / num
}

/// Sample range of chunk `p` when a channel of `data_len` samples is cut into
/// consecutive chunks of the ceiling of `data_len / num_peaks` samples; `None`
/// when the chunks end before chunk `p`.
pub fn peak_chunk(p: usize, data_len: usize, num_peaks: usize) -> (r: Option<(usize, usize)>)
    requires
        p < num_peaks,
    ensures
        ({
            let size = spec_chunk_size(data_len as nat, num_peaks as nat);
            let start = p * size;
            &&& start >= data_len ==> r is None
            &&& start < data_len ==> r == Some::<(usize, usize)>((
                start as usize,
                if start + size < data_len { (start + size) as usize } else { data_len },
            ))
        }),
{
    let len = data_len as u128;
    let num = num_peaks as u128;
    let size = (len + num - 1) / num;
    assert(size <= len + 1) by (nonlinear_arith)
        requires
            size == (len + num - 1) / (num as int),
            num >= 1,
    {
        assert((len + num - 1) / (num as int) <= (len + num - 1));
    }
    assert(p as u128 * size <= 0xffff_ffff_ffff_ffff * 0x1_0000_0000_0000_0000u128) by (nonlinear_arith)
        requires
            p <= 0xffff_ffff_ffff_ffff,
            size <= 0x1_0000_0000_0000_0000u128,
    ;
    let start = p as u128 * size;
    if start >= len {
        None
    } else {
        let end = if start + size < len {
            start + size
        } else {
            len
        };
        Some((start as usize, end as usize))
    }
}

} // verus!
