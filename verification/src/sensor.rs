use vstd::prelude::*;

verus! {

/// Number of samples in one half of the current sensor's buffer.
pub const ADC_BUF_LEN: usize = 64;

/// The sum of the samples.
pub open spec fn sum_of(samples: Seq<u16>) -> nat
    decreases samples.len(),
{
    if samples.len() == 0 {
        0
    } else {
        sum_of(samples.drop_last()) + samples.last() as nat
    }
}

/// Adds up the raw samples of a filled half buffer; their mean is this sum
/// over their number.
pub fn sample_sum(samples: &[u16]) -> (total: u32)
    requires
        samples@.len() <= 0x1_0000,
    ensures
        total == sum_of(samples@),
{
    let mut total: u32 = 0;
    let mut i: usize = 0;
    while i < samples.len()
        invariant
            i <= samples@.len() <= 0x1_0000,
            total == sum_of(samples@.subrange(0, i as int)),
            total <= i * 0xFFFF,
        decreases samples@.len() - i,
    {
        proof {
            assert(samples@.subrange(0, i + 1).drop_last() =~= samples@.subrange(0, i as int));
            assert(i * 0xFFFF + 0xFFFF <= 0x1_0000 * 0xFFFF) by (nonlinear_arith)
                requires
                    i < 0x1_0000,
            ;
        }
        total = total + samples[i] as u32;
        i += 1;
    }
    proof {
        assert(samples@.subrange(0, i as int) =~= samples@);
    }
    total
}

} // verus!
