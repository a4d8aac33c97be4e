use crate::ofdm_parameters::OfdmParameters;
use std::ops::Range;
use vstd::prelude::*;

verus! {

/// The index range of `length` elements that starts at `start`.
pub fn span_slice(start: usize, length: usize) -> (span: Range<usize>)
    requires
        start + length <= usize::MAX,
    ensures
        span.start == start,
        span.end == start + length,
{
    start..start + length
}

/// The index range of the chunk number `index` among chunks of `length`
/// elements each.
pub fn chunk_slice(index: usize, length: usize) -> (span: Range<usize>)
    requires
        (index + 1) * length <= usize::MAX,
    ensures
        span.start == index * length,
        span.end == (index + 1) * length,
{
    assert(index * length + length == (index + 1) * length) by (nonlinear_arith);
    assert(index * length >= 0) by (nonlinear_arith);
    let start_index: usize = index * length;
    span_slice(start_index, length)
}

/// The number of blocks that enter the signal power average: of the whole
/// blocks of `block_size` samples among `total_samples` samples, every
/// `stride`-th one, starting with the first.
pub open spec fn decimated_block_count(total_samples: nat, block_size: nat, stride: nat) -> nat {
    let total_blocks = total_samples / block_size;
    if total_blocks == 0 {
        0
    } else {
        ((total_blocks - 1) / (stride as int) + 1) as nat
    }
}

/// The `j`-th block of every `stride`-th is a whole block of the input
/// exactly when `j` is below the count of decimated blocks.
pub proof fn lemma_decimated_block_count(total_samples: nat, block_size: nat, stride: nat, j: nat)
    requires
        block_size > 0,
        stride > 0,
    ensures
        j < decimated_block_count(total_samples, block_size, stride) <==> j * stride
            < total_samples / block_size,
{
    let total_blocks = (total_samples / block_size) as int;
    if total_blocks > 0 {
        let q = (total_blocks - 1) / (stride as int);
        assert(q * stride <= total_blocks - 1 < (q + 1) * stride) by (nonlinear_arith)
            requires
                q == (total_blocks - 1) / (stride as int),
                stride > 0,
                total_blocks - 1 >= 0,
        ;
        if j <= q {
            assert(j * stride <= q * stride) by (nonlinear_arith)
                requires
                    j <= q,
                    stride > 0,
            ;
        } else {
            assert(j * stride >= (q + 1) * stride) by (nonlinear_arith)
                requires
                    j >= q + 1,
                    stride > 0,
            ;
        }
    } else {
        assert(j * stride >= 0) by (nonlinear_arith);
    }
}

/// Samples beyond the last whole block do not change the count of
/// decimated blocks.
pub proof fn lemma_decimated_blocks_ignore_partial_block(
    total_samples: nat,
    block_size: nat,
    stride: nat,
)
    requires
        block_size > 0,
        stride > 0,
    ensures
        decimated_block_count(total_samples, block_size, stride) == decimated_block_count(
            (total_samples / block_size) * block_size,
            block_size,
            stride,
        ),
{
    let whole = total_samples / block_size;
    assert((whole * block_size) / block_size == whole) by (nonlinear_arith)
        requires
            block_size > 0,
            whole >= 0,
    ;
}

/// Counts the blocks that enter the signal power average.
pub fn count_decimated_blocks(total_samples: usize, block_size: usize, stride: usize) -> (count:
    usize)
    requires
        block_size > 0,
        stride > 0,
    ensures
        count == decimated_block_count(total_samples as nat, block_size as nat, stride as nat),
{
    let total_blocks: usize = total_samples / block_size;
    if total_blocks == 0 {
        0
    } else {
        (total_blocks - 1) / stride + 1
    }
}

/// The bin of a spectrum that a display centred on DC shows at position
/// `index`: the spectrum turned by half its length.
pub open spec fn spec_fft_shift_index(index: int, total: int) -> int {
    (index + total / 2) % total
}

/// Turning a spectrum of even length by half its length twice gives the
/// spectrum back.
pub proof fn lemma_fft_shift_twice(index: int, total: int)
    requires
        0 <= index < total,
        total % 2 == 0,
    ensures
        0 <= spec_fft_shift_index(index, total) < total,
        spec_fft_shift_index(spec_fft_shift_index(index, total), total) == index,
{
    let half = total / 2;
    if index + half >= total {
        vstd::arithmetic::div_mod::lemma_fundamental_div_mod_converse(
            index + half,
            total,
            1,
            index + half - total,
        );
        vstd::arithmetic::div_mod::lemma_small_mod((index - half + half) as nat, total as nat);
    } else {
        vstd::arithmetic::div_mod::lemma_small_mod((index + half) as nat, total as nat);
        vstd::arithmetic::div_mod::lemma_fundamental_div_mod_converse(
            index + half + half,
            total,
            1,
            index,
        );
    }
}

/// Returns the bin of a spectrum that a display centred on DC shows at
/// position `index`.
pub fn fft_shift_index(index: usize, total: usize) -> (bin: usize)
    requires
        index < total,
    ensures
        bin == spec_fft_shift_index(index as int, total as int),
        bin < total,
{
    let half: usize = total / 2;
    if index >= total - half {
        proof {
            vstd::arithmetic::div_mod::lemma_fundamental_div_mod_converse(
                index + half,
                total as int,
                1,
                index + half - total,
            );
        }
        index - (total - half)
    } else {
        proof {
            vstd::arithmetic::div_mod::lemma_small_mod((index + half) as nat, total as nat);
        }
        index + half
    }
}

/// The byte that stands for a soft decision bit in the output stream: its
/// two's complement.
pub open spec fn soft_bit_byte(bit: i8) -> u8 {
    if bit >= 0 {
        bit as u8
    } else {
        (bit + 256) as u8
    }
}

/// Turns soft decision bits into the bytes of the output stream.
pub fn soft_bits_to_bytes(bits: &[i8]) -> (bytes: Vec<u8>)
    ensures
        bytes@.len() == bits@.len(),
        forall|i: int| 0 <= i < bits@.len() ==> #[trigger] bytes@[i] == soft_bit_byte(bits@[i]),
{
    let mut bytes: Vec<u8> = Vec::with_capacity(bits.len());
    let mut i: usize = 0;
    while i < bits.len()
        invariant
            i <= bits@.len(),
            bytes@.len() == i,
            forall|j: int| 0 <= j < i ==> #[trigger] bytes@[j] == soft_bit_byte(bits@[j]),
        decreases bits@.len() - i,
    {
        let bit: i8 = bits[i];
        let byte: u8 = if bit >= 0 {
            bit as u8
        } else {
            (bit as i16 + 256) as u8
        };
        bytes.push(byte);
        i += 1;
    }
    bytes
}

/// The FFT bin of the data carrier number `index`: the lower half of the
/// carriers are the negative frequencies, stored at the top of the FFT;
/// the upper half are the positive frequencies next to the DC bin, which
/// carries no data.
pub open spec fn spec_dqpsk_fft_bin(params: OfdmParameters, index: int) -> int {
    let half = params.nb_fft_data_carriers as int / 2;
    if index < half {
        params.nb_fft - half + index
    } else {
        1 + (index - half)
    }
}

/// No data carrier lies on the DC bin, and while the carriers do not fill
/// the FFT, two different carriers lie on different bins.
pub proof fn lemma_dqpsk_fft_bins_distinct(params: OfdmParameters, i: int, j: int)
    requires
        params.wf(),
        params.nb_fft_data_carriers % 2 == 0,
        0 <= i < params.nb_fft_data_carriers,
        0 <= j < params.nb_fft_data_carriers,
    ensures
        0 < spec_dqpsk_fft_bin(params, i) < params.nb_fft,
        params.nb_fft_data_carriers < params.nb_fft && i != j ==> spec_dqpsk_fft_bin(params, i)
            != spec_dqpsk_fft_bin(params, j),
{
}

/// Returns the FFT bin of the data carrier number `index`.
pub fn dqpsk_fft_bin(params: &OfdmParameters, index: usize) -> (fft_index: usize)
    requires
        params.wf(),
        params.nb_fft_data_carriers % 2 == 0,
        index < params.nb_fft_data_carriers,
    ensures
        fft_index == spec_dqpsk_fft_bin(*params, index as int),
        0 < fft_index < params.nb_fft,
{
    let nb_data_half: usize = params.nb_fft_data_carriers / 2;
    if index < nb_data_half {
        params.nb_fft - nb_data_half + index
    } else {
        1 + (index - nb_data_half)
    }
}

} // verus!
