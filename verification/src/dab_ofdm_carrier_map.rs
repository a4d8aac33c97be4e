use vstd::prelude::*;

verus! {

/// The `n`-th value of the frequency interleaving sequence for an FFT of
/// `total_fft` bins: it starts at 0 and each value follows from the one
/// before as `13 * p + total_fft / 4 - 1` modulo `total_fft`.
pub open spec fn pi_value(total_fft: int, n: nat) -> int
    decreases n,
{
    if n == 0 {
        0
    } else {
        (13 * pi_value(total_fft, (n - 1) as nat) + total_fft / 4 - 1) % total_fft
    }
}

/// The position among the data carriers of an FFT bin counted from the
/// lowest frequency, or `None` for a bin that carries no data: one outside
/// the band of `total_carriers` bins around the centre, or the centre itself.
pub open spec fn carrier_of_bin(total_fft: int, total_carriers: int, fft_index: int) -> Option<
    int,
> {
    let dc = total_fft / 2;
    let start = dc - total_carriers / 2;
    let end = dc + total_carriers / 2;
    if fft_index < start || fft_index > end || fft_index == dc {
        None
    } else if fft_index < dc {
        Some(fft_index - start)
    } else {
        Some(fft_index - start - 1)
    }
}

/// The data carriers among the first `n` values of the interleaving
/// sequence, in the order in which the sequence visits them.
pub open spec fn interleaved_carriers(total_fft: int, total_carriers: int, n: nat) -> Seq<int>
    decreases n,
{
    if n == 0 {
        Seq::empty()
    } else {
        let before = interleaved_carriers(total_fft, total_carriers, (n - 1) as nat);
        match carrier_of_bin(total_fft, total_carriers, pi_value(total_fft, (n - 1) as nat)) {
            Some(carrier) => before.push(carrier),
            None => before,
        }
    }
}

/// Every data carrier that the interleaving sequence visits lies among the
/// `total_carriers` carriers.
pub proof fn lemma_interleaved_carriers_in_range(total_fft: int, total_carriers: int, n: nat)
    requires
        0 < total_carriers <= total_fft,
    ensures
        forall|i: int|
            0 <= i < interleaved_carriers(total_fft, total_carriers, n).len() ==> 0
                <= #[trigger] interleaved_carriers(total_fft, total_carriers, n)[i]
                < total_carriers,
    decreases n,
{
    if n > 0 {
        lemma_interleaved_carriers_in_range(total_fft, total_carriers, (n - 1) as nat);
        let before = interleaved_carriers(total_fft, total_carriers, (n - 1) as nat);
        let now = interleaved_carriers(total_fft, total_carriers, n);
        assert forall|i: int| 0 <= i < now.len() implies 0 <= #[trigger] now[i]
            < total_carriers by {
            if i < before.len() {
                assert(now[i] == before[i]);
            }
        }
    }
}

/// Fills the frequency de-interleaving table of a DAB symbol: entry `i` is
/// the data carrier that the `i`-th in-band value of the interleaving
/// sequence names. Entries that the sequence does not reach keep their
/// value, and carriers beyond the end of the table are left out.
pub fn get_dab_ofdm_carrier_map(carrier_map: &mut [usize], total_fft: usize)
    requires
        old(carrier_map)@.len() > 0,
        total_fft > 0,
        total_fft % 4 == 0,
        old(carrier_map)@.len() <= total_fft,
        14 * total_fft <= usize::MAX,
    ensures
        final(carrier_map)@.len() == old(carrier_map)@.len(),
        forall|i: int|
            0 <= i < final(carrier_map)@.len() ==> #[trigger] final(carrier_map)@[i] == (if i
                < interleaved_carriers(
                total_fft as int,
                old(carrier_map)@.len() as int,
                total_fft as nat,
            ).len() {
                interleaved_carriers(
                    total_fft as int,
                    old(carrier_map)@.len() as int,
                    total_fft as nat,
                )[i] as usize
            } else {
                old(carrier_map)@[i]
            }),
        forall|i: int|
            0 <= i < final(carrier_map)@.len() && (i < interleaved_carriers(
                total_fft as int,
                old(carrier_map)@.len() as int,
                total_fft as nat,
            ).len() || old(carrier_map)@[i] < old(carrier_map)@.len())
                ==> #[trigger] final(carrier_map)@[i] < final(carrier_map)@.len(),
{
    let total_carriers: usize = carrier_map.len();
    let fft_index_dc: usize = total_fft / 2;
    let fft_index_start: usize = fft_index_dc - total_carriers / 2;
    let fft_index_end: usize = fft_index_dc + total_carriers / 2;
    let k: usize = total_fft / 4;

    let mut carrier_map_index: usize = 0;
    let mut pi_value: usize = 0;
    let mut n: usize = 0;
    while n < total_fft
        invariant
            n <= total_fft,
            total_fft > 0,
            14 * total_fft <= usize::MAX,
            0 < total_carriers <= total_fft,
            total_carriers == old(carrier_map)@.len(),
            carrier_map@.len() == total_carriers,
            fft_index_dc == total_fft / 2,
            fft_index_start == fft_index_dc - total_carriers / 2,
            fft_index_end == fft_index_dc + total_carriers / 2,
            k == total_fft / 4,
            k >= 1,
            pi_value == self::pi_value(total_fft as int, n as nat),
            pi_value < total_fft,
            carrier_map_index <= total_carriers,
            carrier_map_index == vstd::math::min(
                interleaved_carriers(total_fft as int, total_carriers as int, n as nat).len() as int,
                total_carriers as int,
            ),
            forall|i: int|
                0 <= i < carrier_map_index ==> #[trigger] carrier_map@[i]
                    == interleaved_carriers(total_fft as int, total_carriers as int, n as nat)[i],
            forall|i: int|
                carrier_map_index <= i < total_carriers ==> #[trigger] carrier_map@[i] == old(
                    carrier_map,
                )@[i],
        decreases total_fft - n,
    {
        proof {
            lemma_interleaved_carriers_in_range(
                total_fft as int,
                total_carriers as int,
                (n + 1) as nat,
            );
        }
        let fft_index: usize = pi_value;
        pi_value = (13 * pi_value + k - 1) % total_fft;
        n += 1;
        if fft_index < fft_index_start || fft_index > fft_index_end || fft_index == fft_index_dc {
            continue ;
        }
        let carrier_out_index: usize = if fft_index < fft_index_dc {
            fft_index - fft_index_start
        } else {
            fft_index - fft_index_start - 1
        };
        if carrier_map_index < total_carriers {
            carrier_map[carrier_map_index] = carrier_out_index;
            carrier_map_index += 1;
        }
    }
    proof {
        lemma_interleaved_carriers_in_range(total_fft as int, total_carriers as int, total_fft as nat);
    }
}

} // verus!
