use crate::circular_bucket::{newest, CircularBucket};
use crate::linear_bucket::LinearBucket;
use crate::ofdm_parameters::OfdmParameters;
use vstd::prelude::*;

verus! {

/// The steps that the demodulator goes through for every frame.
#[derive(Debug, Clone, Copy, PartialEq, Eq, Structural)]
pub enum OfdmDemodulatorState {
    /// Looking for the NULL symbol by the average power of blocks of samples.
    FindingNullPowerDip,
    /// Reading the NULL symbol and the phase reference symbol that follows.
    ReadingNullAndPrs,
    /// Correcting frequency offsets of whole FFT bins.
    RunningCoarseFrequencySynchronisation,
    /// Locating the start of the phase reference symbol to the sample. This
    /// fails on a weak correlation peak, and the search for the NULL symbol
    /// starts again.
    RunningFineTimeSync,
    /// Reading the rest of the frame.
    ReadingSymbols,
    /// Demodulating the symbols of a whole frame.
    ProcessingSymbols,
}

/// Whether the demodulator may go from one step directly to another.
pub open spec fn is_transition(from: OfdmDemodulatorState, to: OfdmDemodulatorState) -> bool {
    match (from, to) {
        (OfdmDemodulatorState::FindingNullPowerDip, OfdmDemodulatorState::ReadingNullAndPrs) => true,
        (
            OfdmDemodulatorState::ReadingNullAndPrs,
            OfdmDemodulatorState::RunningCoarseFrequencySynchronisation,
        ) => true,
        (
            OfdmDemodulatorState::RunningCoarseFrequencySynchronisation,
            OfdmDemodulatorState::RunningFineTimeSync,
        ) => true,
        (OfdmDemodulatorState::RunningFineTimeSync, OfdmDemodulatorState::ReadingSymbols) => true,
        (OfdmDemodulatorState::RunningFineTimeSync, OfdmDemodulatorState::FindingNullPowerDip) => true,
        (OfdmDemodulatorState::ReadingSymbols, OfdmDemodulatorState::ProcessingSymbols) => true,
        (OfdmDemodulatorState::ProcessingSymbols, OfdmDemodulatorState::ReadingNullAndPrs) => true,
        _ => false,
    }
}

/// How the average power of one block of samples compares with the two
/// thresholds of the NULL symbol search.
#[derive(Debug, Clone, Copy)]
pub struct BlockPower {
    /// The block is weaker than the threshold that starts a NULL symbol.
    pub is_below_start: bool,
    /// The block is stronger than the threshold that ends a NULL symbol.
    pub is_above_end: bool,
}

/// What a scan over blocks of samples has found of the NULL symbol.
#[derive(Debug, Clone, Copy)]
pub struct NullScan {
    /// The number of blocks that the scan went over.
    pub blocks_read: usize,
    /// A block below the start threshold was seen, now or earlier.
    pub is_null_start_found: bool,
    /// After the start, a block above the end threshold was seen.
    pub is_null_end_found: bool,
}

/// The outcome of scanning the first `n` blocks: a block below the start
/// threshold starts the NULL symbol; once it has started, the first block
/// above the end threshold ends it and ends the scan.
pub open spec fn null_scan(blocks: Seq<BlockPower>, is_null_start_found: bool, n: nat) -> NullScan
    decreases n,
{
    if n == 0 {
        NullScan { blocks_read: 0, is_null_start_found, is_null_end_found: false }
    } else {
        let before = null_scan(blocks, is_null_start_found, (n - 1) as nat);
        if before.is_null_end_found {
            before
        } else if before.is_null_start_found {
            NullScan {
                blocks_read: n as usize,
                is_null_start_found: true,
                is_null_end_found: blocks[n - 1].is_above_end,
            }
        } else {
            NullScan {
                blocks_read: n as usize,
                is_null_start_found: blocks[n - 1].is_below_start,
                is_null_end_found: false,
            }
        }
    }
}

/// A scan reads every block unless it finds the end of the NULL symbol; it
/// finds the end only after the start, in the last block it read, and
/// never forgets a start.
pub proof fn lemma_null_scan(blocks: Seq<BlockPower>, is_null_start_found: bool, n: nat)
    requires
        n <= blocks.len(),
        n <= usize::MAX,
    ensures
        null_scan(blocks, is_null_start_found, n).blocks_read <= n,
        !null_scan(blocks, is_null_start_found, n).is_null_end_found ==> null_scan(
            blocks,
            is_null_start_found,
            n,
        ).blocks_read == n,
        null_scan(blocks, is_null_start_found, n).is_null_end_found ==> {
            &&& null_scan(blocks, is_null_start_found, n).blocks_read >= 1
            &&& null_scan(blocks, is_null_start_found, n).is_null_start_found
            &&& blocks[null_scan(blocks, is_null_start_found, n).blocks_read - 1].is_above_end
        },
        is_null_start_found ==> null_scan(blocks, is_null_start_found, n).is_null_start_found,
    decreases n,
{
    if n > 0 {
        lemma_null_scan(blocks, is_null_start_found, (n - 1) as nat);
    }
}

/// A scan ends at the first block that ends the NULL symbol: no block
/// before the last one read is strong after a start was found.
pub proof fn lemma_null_scan_ends_first(
    blocks: Seq<BlockPower>,
    is_null_start_found: bool,
    n: nat,
    j: nat,
)
    requires
        n <= blocks.len(),
        n <= usize::MAX,
        j + 1 < null_scan(blocks, is_null_start_found, n).blocks_read,
    ensures
        !(null_scan(blocks, is_null_start_found, j).is_null_start_found
            && blocks[j as int].is_above_end),
        !null_scan(blocks, is_null_start_found, j + 1).is_null_end_found,
    decreases n,
{
    lemma_null_scan(blocks, is_null_start_found, n);
    if n > 0 {
        let before = null_scan(blocks, is_null_start_found, (n - 1) as nat);
        lemma_null_scan(blocks, is_null_start_found, (n - 1) as nat);
        if before.is_null_end_found {
            lemma_null_scan_ends_first(blocks, is_null_start_found, (n - 1) as nat, j);
        } else if j + 1 < n - 1 {
            lemma_null_scan_ends_first(blocks, is_null_start_found, (n - 1) as nat, j);
        } else {
            assert(j + 1 == n - 1);
            lemma_null_scan(blocks, is_null_start_found, j);
        }
    }
}

/// A search over no samples finds nothing and keeps what the ring of
/// recent samples holds.
pub proof fn lemma_empty_input_changes_nothing<T>(
    ring: Seq<T>,
    capacity: nat,
    is_null_start_found: bool,
)
    requires
        ring.len() <= capacity,
    ensures
        null_scan(Seq::<BlockPower>::empty(), is_null_start_found, 0) == (NullScan {
            blocks_read: 0,
            is_null_start_found,
            is_null_end_found: false,
        }),
        newest(ring + Seq::<T>::empty(), capacity) == ring,
{
    assert(ring + Seq::<T>::empty() =~= ring);
}

/// Scans blocks of samples for the NULL symbol.
pub fn scan_null_power_blocks(blocks: &[BlockPower], is_null_start_found: bool) -> (scan: NullScan)
    ensures
        scan == null_scan(blocks@, is_null_start_found, blocks@.len()),
        scan.blocks_read <= blocks@.len(),
{
    let mut scan = NullScan { blocks_read: 0, is_null_start_found, is_null_end_found: false };
    let mut n: usize = 0;
    while n < blocks.len()
        invariant_except_break
            scan == null_scan(blocks@, is_null_start_found, n as nat),
            !scan.is_null_end_found,
            scan.blocks_read == n,
        invariant
            n <= blocks@.len(),
        ensures
            scan == null_scan(blocks@, is_null_start_found, blocks@.len()),
            scan.blocks_read <= blocks@.len(),
        decreases blocks@.len() - n,
    {
        let block = blocks[n];
        n += 1;
        scan.blocks_read = n;
        if scan.is_null_start_found {
            if block.is_above_end {
                scan.is_null_end_found = true;
                proof {
                    lemma_null_scan_stays(blocks@, is_null_start_found, n as nat, blocks@.len());
                }
                break ;
            }
        } else if block.is_below_start {
            scan.is_null_start_found = true;
        }
    }
    scan
}

/// Once the end of the NULL symbol is found, further blocks change nothing.
proof fn lemma_null_scan_stays(blocks: Seq<BlockPower>, is_null_start_found: bool, n: nat, m: nat)
    requires
        n <= m,
        null_scan(blocks, is_null_start_found, n).is_null_end_found,
    ensures
        null_scan(blocks, is_null_start_found, m) == null_scan(blocks, is_null_start_found, n),
    decreases m,
{
    if n < m {
        lemma_null_scan_stays(blocks, is_null_start_found, n, (m - 1) as nat);
    }
}

/// Whether every entry of a de-interleaving table names one of its own
/// positions.
pub open spec fn carrier_mapper_valid(carrier_mapper: Seq<usize>) -> bool {
    forall|i: int|
        0 <= i < carrier_mapper.len() ==> #[trigger] carrier_mapper[i] < carrier_mapper.len()
}

/// Tests whether every entry of a de-interleaving table names one of its
/// own positions.
pub fn is_carrier_mapper_valid(carrier_mapper: &[usize]) -> (valid: bool)
    ensures
        valid == carrier_mapper_valid(carrier_mapper@),
{
    let mut i: usize = 0;
    while i < carrier_mapper.len()
        invariant
            i <= carrier_mapper@.len(),
            forall|j: int| 0 <= j < i ==> #[trigger] carrier_mapper@[j] < carrier_mapper@.len(),
        decreases carrier_mapper@.len() - i,
    {
        if carrier_mapper[i] >= carrier_mapper.len() {
            return false;
        }
        i += 1;
    }
    true
}

/// What the frequency estimates owe to a run of the coarse frequency
/// synchronisation.
#[derive(Debug, Clone, Copy, PartialEq, Eq, Structural)]
pub enum CoarseFrequencyUpdate {
    /// The correction is switched off: the coarse offset is cleared.
    Cleared,
    /// No offset was found since the last loss of synchronisation: the
    /// measured offset is taken over at once.
    Acquired,
    /// An offset was found before: a small change is followed slowly, a
    /// large one is taken over at once.
    Followed,
}

/// The part of the OFDM demodulator that keeps the step, the counters and
/// the sample buffers of a frame, for samples of any type `T`. The signal
/// processing on the samples is done outside and handed in as plain
/// findings: which blocks are weak or strong, where a correlation peaks,
/// and whether the peak is strong enough.
pub struct OfdmDemodulatorCore<T> {
    /// The current step.
    pub state: OfdmDemodulatorState,
    /// The structure of a frame.
    pub params: OfdmParameters,
    /// The number of frames demodulated.
    pub total_frames_read: u32,
    /// The number of frames given up for a weak correlation peak.
    pub total_frames_desync: u32,
    /// A coarse frequency offset was found since synchronisation was lost.
    pub is_found_coarse_frequency_offset: bool,
    /// The distance in samples of the phase reference symbol from where
    /// it was expected.
    pub fine_time_offset: isize,
    /// The NULL symbol search has seen a weak block.
    pub is_null_start_found: bool,
    /// The NULL symbol search has seen a strong block after a weak one.
    pub is_null_end_found: bool,
    /// The data carrier that each pair of output bits is taken from.
    pub carrier_mapper_data: Vec<usize>,
    /// The most recent samples seen by the NULL symbol search.
    pub null_power_dip_buffer: CircularBucket<T>,
    /// The presumed NULL symbol and phase reference symbol.
    pub null_prs_buffer: LinearBucket<T>,
    /// The samples of the frame, from the phase reference symbol on.
    pub data_time_buffer: LinearBucket<T>,
    /// The soft decision bits of the last frame.
    pub data_out_bits_buffer: Vec<i8>,
}

/// The soft decision bits of one symbol after frequency de-interleaving:
/// first the real bit of every carrier in table order, then the imaginary
/// bit of every carrier in the same order.
pub open spec fn demapped_bits(
    carrier_mapper: Seq<usize>,
    re_bits: Seq<i8>,
    im_bits: Seq<i8>,
) -> Seq<i8> {
    Seq::new(
        2 * carrier_mapper.len(),
        |i: int|
            if i < carrier_mapper.len() {
                re_bits[carrier_mapper[i] as int]
            } else {
                im_bits[carrier_mapper[i - carrier_mapper.len()] as int]
            },
    )
}

/// Whether every soft decision bit lies between -127 and 127.
pub open spec fn soft_bits_in_range(bits: Seq<i8>) -> bool {
    forall|i: int| 0 <= i < bits.len() ==> -127 <= #[trigger] bits[i] <= 127
}

/// Tests whether every soft decision bit lies between -127 and 127.
pub fn are_soft_bits_in_range(bits: &[i8]) -> (valid: bool)
    ensures
        valid == soft_bits_in_range(bits@),
{
    let mut i: usize = 0;
    while i < bits.len()
        invariant
            i <= bits@.len(),
            forall|j: int| 0 <= j < i ==> -127 <= #[trigger] bits@[j] <= 127,
        decreases bits@.len() - i,
    {
        if bits[i] < -127 {
            return false;
        }
        i += 1;
    }
    true
}

/// De-interleaving only moves bits: bounds that hold of every bit that
/// goes in hold of every bit that comes out.
pub proof fn lemma_demapped_bits_bounded(
    carrier_mapper: Seq<usize>,
    re_bits: Seq<i8>,
    im_bits: Seq<i8>,
    low: i8,
    high: i8,
)
    requires
        re_bits.len() == carrier_mapper.len(),
        im_bits.len() == carrier_mapper.len(),
        carrier_mapper_valid(carrier_mapper),
        forall|i: int| 0 <= i < re_bits.len() ==> low <= #[trigger] re_bits[i] <= high,
        forall|i: int| 0 <= i < im_bits.len() ==> low <= #[trigger] im_bits[i] <= high,
    ensures
        demapped_bits(carrier_mapper, re_bits, im_bits).len() == 2 * carrier_mapper.len(),
        forall|i: int|
            0 <= i < 2 * carrier_mapper.len() ==> low <= #[trigger] demapped_bits(
                carrier_mapper,
                re_bits,
                im_bits,
            )[i] <= high,
{
    assert forall|i: int| 0 <= i < 2 * carrier_mapper.len() implies low
        <= #[trigger] demapped_bits(carrier_mapper, re_bits, im_bits)[i] <= high by {
        if i < carrier_mapper.len() {
            assert(carrier_mapper[i] < carrier_mapper.len());
        } else {
            assert(carrier_mapper[i - carrier_mapper.len()] < carrier_mapper.len());
        }
    }
}

impl<T> OfdmDemodulatorCore<T> {
    /// The buffers have the capacities that the frame structure asks
    /// for, the de-interleaving table names data carriers only, every
    /// soft decision bit lies between -127 and 127, and the buffer that a
    /// step works on is full when that step is reached.
    pub open spec fn wf(&self) -> bool {
        &&& self.params.wf()
        &&& self.params.nb_symbol_period <= isize::MAX
        &&& self.carrier_mapper_data@.len() == self.params.nb_fft_data_carriers
        &&& carrier_mapper_valid(self.carrier_mapper_data@)
        &&& self.null_power_dip_buffer.wf()
        &&& self.null_power_dip_buffer.spec_capacity() == self.params.nb_null_period
        &&& self.null_prs_buffer.wf()
        &&& self.null_prs_buffer.spec_capacity() == self.params.nb_null_period
            + self.params.nb_symbol_period
        &&& self.data_time_buffer.wf()
        &&& self.data_time_buffer.spec_capacity() == self.params.nb_input_samples
        &&& self.data_out_bits_buffer@.len() == self.params.nb_output_bits
        &&& soft_bits_in_range(self.data_out_bits_buffer@)
        &&& !self.is_null_end_found
        &&& (self.state == OfdmDemodulatorState::RunningCoarseFrequencySynchronisation
            || self.state == OfdmDemodulatorState::RunningFineTimeSync)
            ==> self.null_prs_buffer@.len() == self.params.nb_null_period
            + self.params.nb_symbol_period
        &&& self.state == OfdmDemodulatorState::ProcessingSymbols ==> self.data_time_buffer@.len()
            == self.params.nb_input_samples
    }

    /// No buffer ever holds more than its capacity, and the output holds
    /// the soft decision bits of a whole frame, each between -127 and 127.
    pub proof fn lemma_buffers_bounded(&self)
        requires
            self.wf(),
        ensures
            self.null_power_dip_buffer@.len() <= self.params.nb_null_period,
            self.null_prs_buffer@.len() <= self.params.nb_null_period + self.params.nb_symbol_period,
            self.data_time_buffer@.len() <= self.params.nb_input_samples,
            self.data_out_bits_buffer@.len() == self.params.nb_output_bits,
            soft_bits_in_range(self.data_out_bits_buffer@),
    {
        self.null_power_dip_buffer.lemma_length_bounded();
        self.null_prs_buffer.lemma_view_is_front_of_raw();
        self.data_time_buffer.lemma_view_is_front_of_raw();
    }

    /// The current step.
    pub fn state(&self) -> (state: OfdmDemodulatorState)
        ensures
            state == self.state,
    {
        self.state
    }

    /// Every entry of the de-interleaving table names a data carrier.
    pub proof fn lemma_carrier_mapper_in_range(&self, i: int)
        requires
            self.wf(),
            0 <= i < self.params.nb_fft_data_carriers,
        ensures
            0 <= self.carrier_mapper_data@[i] < self.params.nb_fft_data_carriers,
    {
    }

    /// The soft decision bits of the last frame: two for every data
    /// carrier of every demodulated symbol, each between -127 and 127.
    pub fn soft_bits(&self) -> (bits: &[i8])
        requires
            self.wf(),
        ensures
            bits@ == self.data_out_bits_buffer@,
            bits@.len() == self.params.nb_output_bits,
            soft_bits_in_range(bits@),
    {
        self.data_out_bits_buffer.as_slice()
    }

    /// Gives up the current frame: the search for the NULL symbol starts
    /// again, and what was learnt of the signal since the last loss is
    /// forgotten. The samples that the NULL symbol search has kept stay.
    pub fn reset_from_desync(&mut self)
        requires
            old(self).wf(),
            old(self).state == OfdmDemodulatorState::RunningFineTimeSync,
        ensures
            final(self).wf(),
            is_transition(old(self).state, final(self).state),
            final(self).null_prs_buffer@ == Seq::<T>::empty(),
            *final(self) == (OfdmDemodulatorCore {
                state: OfdmDemodulatorState::FindingNullPowerDip,
                is_found_coarse_frequency_offset: false,
                fine_time_offset: 0,
                null_prs_buffer: final(self).null_prs_buffer,
                ..*old(self)
            }),
    {
        self.state = OfdmDemodulatorState::FindingNullPowerDip;
        self.null_prs_buffer.reset();
        self.is_found_coarse_frequency_offset = false;
        self.fine_time_offset = 0;
    }

    /// Ends a run of the coarse frequency synchronisation and says how
    /// the frequency estimates are to be updated.
    pub fn finish_coarse_frequency_synchronisation(&mut self, is_enabled: bool) -> (update:
        CoarseFrequencyUpdate)
        requires
            old(self).wf(),
            old(self).state == OfdmDemodulatorState::RunningCoarseFrequencySynchronisation,
        ensures
            final(self).wf(),
            update == (if !is_enabled {
                CoarseFrequencyUpdate::Cleared
            } else if old(self).is_found_coarse_frequency_offset {
                CoarseFrequencyUpdate::Followed
            } else {
                CoarseFrequencyUpdate::Acquired
            }),
            *final(self) == (OfdmDemodulatorCore {
                state: OfdmDemodulatorState::RunningFineTimeSync,
                is_found_coarse_frequency_offset: old(self).is_found_coarse_frequency_offset
                    || is_enabled,
                ..*old(self)
            }),
            is_transition(old(self).state, final(self).state),
    {
        self.state = OfdmDemodulatorState::RunningFineTimeSync;
        if !is_enabled {
            return CoarseFrequencyUpdate::Cleared;
        }
        let was_found = self.is_found_coarse_frequency_offset;
        self.is_found_coarse_frequency_offset = true;
        if was_found {
            CoarseFrequencyUpdate::Followed
        } else {
            CoarseFrequencyUpdate::Acquired
        }
    }
}

impl<T: Default + Copy> OfdmDemodulatorCore<T> {
    /// Creates a demodulator core that looks for its first NULL symbol,
    /// with empty buffers and a de-interleaving table for every data
    /// carrier.
    pub fn new(params: &OfdmParameters, carrier_mapper: &[usize]) -> (core: Self)
        requires
            params.wf(),
            params.nb_symbol_period <= isize::MAX,
            carrier_mapper@.len() == params.nb_fft_data_carriers,
            carrier_mapper_valid(carrier_mapper@),
        ensures
            core.wf(),
            core.state == OfdmDemodulatorState::FindingNullPowerDip,
            core.params == *params,
            core.total_frames_read == 0,
            core.total_frames_desync == 0,
            !core.is_found_coarse_frequency_offset,
            core.fine_time_offset == 0,
            !core.is_null_start_found,
            !core.is_null_end_found,
            core.carrier_mapper_data@ == carrier_mapper@,
            core.null_power_dip_buffer@ == Seq::<T>::empty(),
            core.null_prs_buffer@ == Seq::<T>::empty(),
            core.data_time_buffer@ == Seq::<T>::empty(),
            forall|i: int|
                0 <= i < core.data_out_bits_buffer@.len() ==> #[trigger] core.data_out_bits_buffer@[i]
                    == 0,
    {
        proof {
            params.lemma_frame_holds_symbols();
        }
        Self {
            state: OfdmDemodulatorState::FindingNullPowerDip,
            params: *params,
            total_frames_read: 0,
            total_frames_desync: 0,
            is_found_coarse_frequency_offset: false,
            fine_time_offset: 0,
            is_null_start_found: false,
            is_null_end_found: false,
            carrier_mapper_data: vstd::slice::slice_to_vec(carrier_mapper),
            null_power_dip_buffer: CircularBucket::new(params.nb_null_period),
            null_prs_buffer: LinearBucket::new(params.nb_null_period + params.nb_symbol_period),
            data_time_buffer: LinearBucket::new(params.nb_input_samples),
            data_out_bits_buffer: vec![0i8; params.nb_output_bits],
        }
    }

    /// Searches `buf` for the NULL symbol, given the power of each of its
    /// whole blocks of `block_size` samples, and returns the number of
    /// samples used up. While the end of the NULL symbol is not found,
    /// all of `buf` goes into the ring of recent samples. When it is
    /// found, the samples up to the end of the block that shows it go into
    /// the ring, the ring is moved into the NULL and PRS buffer, and the
    /// next step is to fill that buffer.
    pub fn find_null_power_dip(
        &mut self,
        buf: &[T],
        block_size: usize,
        blocks: &[BlockPower],
    ) -> (total_read: usize)
        requires
            old(self).wf(),
            old(self).state == OfdmDemodulatorState::FindingNullPowerDip,
            block_size > 0,
            blocks@.len() == buf@.len() / (block_size as nat),
        ensures
            final(self).wf(),
            !null_scan(
                blocks@,
                old(self).is_null_start_found,
                blocks@.len(),
            ).is_null_end_found ==> {
                &&& total_read == buf@.len()
                &&& final(self).null_power_dip_buffer@ == newest(
                    old(self).null_power_dip_buffer@ + buf@,
                    old(self).params.nb_null_period as nat,
                )
                &&& *final(self) == (OfdmDemodulatorCore {
                    is_null_start_found: null_scan(
                        blocks@,
                        old(self).is_null_start_found,
                        blocks@.len(),
                    ).is_null_start_found,
                    null_power_dip_buffer: final(self).null_power_dip_buffer,
                    ..*old(self)
                })
            },
            null_scan(blocks@, old(self).is_null_start_found, blocks@.len()).is_null_end_found ==> {
                &&& total_read == null_scan(
                    blocks@,
                    old(self).is_null_start_found,
                    blocks@.len(),
                ).blocks_read * block_size
                &&& total_read <= buf@.len()
                &&& final(self).null_power_dip_buffer@ == Seq::<T>::empty()
                &&& final(self).null_prs_buffer@ == newest(
                    old(self).null_power_dip_buffer@ + buf@.take(total_read as int),
                    old(self).params.nb_null_period as nat,
                )
                &&& *final(self) == (OfdmDemodulatorCore {
                    state: OfdmDemodulatorState::ReadingNullAndPrs,
                    is_null_start_found: false,
                    null_power_dip_buffer: final(self).null_power_dip_buffer,
                    null_prs_buffer: final(self).null_prs_buffer,
                    ..*old(self)
                })
            },
            final(self).state == old(self).state || is_transition(
                old(self).state,
                final(self).state,
            ),
    {
        let scan = scan_null_power_blocks(blocks, self.is_null_start_found);
        self.is_null_start_found = scan.is_null_start_found;
        if !scan.is_null_end_found {
            self.null_power_dip_buffer.consume(buf, true);
            assert(buf@.take(buf@.len() as int) =~= buf@);
            return buf.len();
        }
        let buf_length: usize = buf.len();
        proof {
            let n = scan.blocks_read as int;
            let b = block_size as int;
            let len = buf_length as int;
            assert(n * b <= len) by (nonlinear_arith)
                requires
                    0 <= n <= len / b,
                    b > 0,
            ;
        }
        let total_read: usize = scan.blocks_read * block_size;
        let consumed_blocks = vstd::slice::slice_subrange(buf, 0, total_read);
        self.null_power_dip_buffer.consume(consumed_blocks, true);
        self.null_prs_buffer.reset();
        proof {
            self.null_power_dip_buffer.lemma_length_bounded();
            assert(consumed_blocks@.take(total_read as int) =~= consumed_blocks@);
        }
        let ghost ring = self.null_power_dip_buffer@;
        self.null_prs_buffer.consume_from_iterator(self.null_power_dip_buffer.iter());
        assert(self.null_prs_buffer@ =~= ring);
        self.is_null_start_found = false;
        self.null_power_dip_buffer.reset();
        self.state = OfdmDemodulatorState::ReadingNullAndPrs;
        total_read
    }

    /// Moves samples from `buf` into the NULL and PRS buffer until it is
    /// full, and returns the number of samples moved. A full buffer makes
    /// the coarse frequency synchronisation the next step.
    pub fn read_null_prs(&mut self, buf: &[T]) -> (total_read: usize)
        requires
            old(self).wf(),
            old(self).state == OfdmDemodulatorState::ReadingNullAndPrs,
        ensures
            final(self).wf(),
            total_read == vstd::math::min(
                old(self).params.nb_null_period + old(self).params.nb_symbol_period - old(
                    self,
                ).null_prs_buffer@.len(),
                buf@.len() as int,
            ),
            final(self).null_prs_buffer@ == old(self).null_prs_buffer@ + buf@.take(total_read as int),
            *final(self) == (OfdmDemodulatorCore {
                state: if final(self).null_prs_buffer@.len() == old(self).params.nb_null_period
                    + old(self).params.nb_symbol_period {
                    OfdmDemodulatorState::RunningCoarseFrequencySynchronisation
                } else {
                    OfdmDemodulatorState::ReadingNullAndPrs
                },
                null_prs_buffer: final(self).null_prs_buffer,
                ..*old(self)
            }),
            final(self).state == old(self).state || is_transition(
                old(self).state,
                final(self).state,
            ),
    {
        let total_read = self.null_prs_buffer.consume(buf);
        if self.null_prs_buffer.is_full() {
            self.state = OfdmDemodulatorState::RunningCoarseFrequencySynchronisation;
        }
        total_read
    }

    /// The samples that the coarse frequency synchronisation correlates:
    /// the phase reference symbol without its cyclic prefix, taken where
    /// the NULL symbol search puts it.
    pub fn coarse_frequency_sync_input(&self) -> (samples: &[T])
        requires
            self.wf(),
            self.state == OfdmDemodulatorState::RunningCoarseFrequencySynchronisation,
        ensures
            samples@.len() == self.params.nb_fft,
            samples@ == self.null_prs_buffer@.subrange(
                self.params.nb_null_period + self.params.nb_cyclic_prefix,
                self.params.nb_null_period + self.params.nb_symbol_period,
            ),
    {
        proof {
            self.params.lemma_frame_holds_symbols();
        }
        vstd::slice::slice_subrange(
            self.null_prs_buffer.iter(),
            self.params.nb_null_period + self.params.nb_cyclic_prefix,
            self.params.nb_null_period + self.params.nb_symbol_period,
        )
    }

    /// The samples that the fine time synchronisation correlates: one FFT
    /// length from the presumed end of the NULL symbol.
    pub fn fine_time_sync_input(&self) -> (samples: &[T])
        requires
            self.wf(),
            self.state == OfdmDemodulatorState::RunningFineTimeSync,
        ensures
            samples@.len() == self.params.nb_fft,
            samples@ == self.null_prs_buffer@.subrange(
                self.params.nb_null_period as int,
                self.params.nb_null_period + self.params.nb_fft,
            ),
    {
        proof {
            self.params.lemma_frame_holds_symbols();
        }
        vstd::slice::slice_subrange(
            self.null_prs_buffer.iter(),
            self.params.nb_null_period,
            self.params.nb_null_period + self.params.nb_fft,
        )
    }

    /// Ends a run of the fine time synchronisation, given where the
    /// correlation with the phase reference symbol peaks and whether the
    /// peak is strong enough, and returns whether the frame goes on.
    ///
    /// A weak peak counts as a lost frame, and the search for the NULL
    /// symbol starts again. A strong peak `offset` samples from the end
    /// of the cyclic prefix moves the start of the phase reference
    /// symbol by as much: the frame buffer is started with the samples
    /// from there on, and the next step is to read the rest of the frame.
    pub fn finish_fine_time_sync(
        &mut self,
        impulse_peak_index: usize,
        is_peak_strong: bool,
    ) -> (is_locked: bool)
        requires
            old(self).wf(),
            old(self).state == OfdmDemodulatorState::RunningFineTimeSync,
            impulse_peak_index < old(self).params.nb_fft,
            is_peak_strong ==> old(self).params.nb_cyclic_prefix <= old(self).params.nb_null_period
                + impulse_peak_index,
            !is_peak_strong ==> old(self).total_frames_desync < u32::MAX,
        ensures
            final(self).wf(),
            is_locked == is_peak_strong,
            final(self).null_prs_buffer@ == Seq::<T>::empty(),
            !is_peak_strong ==> *final(self) == (OfdmDemodulatorCore {
                state: OfdmDemodulatorState::FindingNullPowerDip,
                total_frames_desync: (old(self).total_frames_desync + 1) as u32,
                is_found_coarse_frequency_offset: false,
                fine_time_offset: 0,
                null_prs_buffer: final(self).null_prs_buffer,
                ..*old(self)
            }),
            is_peak_strong ==> {
                &&& final(self).data_time_buffer@ == old(self).null_prs_buffer@.subrange(
                    old(self).params.nb_null_period + impulse_peak_index - old(
                        self,
                    ).params.nb_cyclic_prefix,
                    old(self).params.nb_null_period + old(self).params.nb_symbol_period,
                )
                &&& *final(self) == (OfdmDemodulatorCore {
                    state: OfdmDemodulatorState::ReadingSymbols,
                    fine_time_offset: (impulse_peak_index - old(self).params.nb_cyclic_prefix) as isize,
                    null_prs_buffer: final(self).null_prs_buffer,
                    data_time_buffer: final(self).data_time_buffer,
                    ..*old(self)
                })
            },
            is_transition(old(self).state, final(self).state),
    {
        if !is_peak_strong {
            self.reset_from_desync();
            self.total_frames_desync += 1;
            return false;
        }
        proof {
            self.params.lemma_frame_holds_symbols();
        }
        let nb_cyclic_prefix: usize = self.params.nb_cyclic_prefix;
        let prs_start_offset: isize = if impulse_peak_index >= nb_cyclic_prefix {
            (impulse_peak_index - nb_cyclic_prefix) as isize
        } else {
            -((nb_cyclic_prefix - impulse_peak_index) as isize)
        };
        let prs_start_index: usize = self.params.nb_null_period + impulse_peak_index
            - nb_cyclic_prefix;
        let prs_end_index: usize = self.params.nb_null_period + self.params.nb_symbol_period;
        let prs_partial_buffer = vstd::slice::slice_subrange(
            self.null_prs_buffer.iter(),
            prs_start_index,
            prs_end_index,
        );
        self.data_time_buffer.reset();
        self.data_time_buffer.consume(prs_partial_buffer);
        assert(self.data_time_buffer@ =~= prs_partial_buffer@);
        self.null_prs_buffer.reset();
        self.fine_time_offset = prs_start_offset;
        self.state = OfdmDemodulatorState::ReadingSymbols;
        true
    }

    /// Moves samples from `buf` into the frame buffer until it is full,
    /// and returns the number of samples moved. A full buffer makes the
    /// processing of the symbols the next step.
    pub fn read_symbols(&mut self, buf: &[T]) -> (total_read: usize)
        requires
            old(self).wf(),
            old(self).state == OfdmDemodulatorState::ReadingSymbols,
        ensures
            final(self).wf(),
            total_read == vstd::math::min(
                old(self).params.nb_input_samples - old(self).data_time_buffer@.len(),
                buf@.len() as int,
            ),
            final(self).data_time_buffer@ == old(self).data_time_buffer@ + buf@.take(
                total_read as int,
            ),
            *final(self) == (OfdmDemodulatorCore {
                state: if final(self).data_time_buffer@.len() == old(self).params.nb_input_samples {
                    OfdmDemodulatorState::ProcessingSymbols
                } else {
                    OfdmDemodulatorState::ReadingSymbols
                },
                data_time_buffer: final(self).data_time_buffer,
                ..*old(self)
            }),
            final(self).state == old(self).state || is_transition(
                old(self).state,
                final(self).state,
            ),
    {
        let total_read = self.data_time_buffer.consume(buf);
        if self.data_time_buffer.is_full() {
            self.state = OfdmDemodulatorState::ProcessingSymbols;
        }
        total_read
    }

    /// The samples of the whole frame, from the phase reference symbol
    /// to the NULL symbol that follows the last data symbol.
    pub fn frame_samples(&self) -> (samples: &[T])
        requires
            self.wf(),
            self.state == OfdmDemodulatorState::ProcessingSymbols,
        ensures
            samples@ == self.data_time_buffer@,
            samples@.len() == self.params.nb_input_samples,
    {
        self.data_time_buffer.iter()
    }

    /// Stores the soft decision bits of one demodulated symbol, given
    /// the real and the imaginary bit of each of its data carriers: the
    /// symbol's part of the output holds the real bits in the order of
    /// the de-interleaving table, then the imaginary bits in that order.
    pub fn store_soft_bits(&mut self, symbol: usize, re_bits: &[i8], im_bits: &[i8])
        requires
            old(self).wf(),
            symbol < old(self).params.nb_dqpsk_symbols,
            re_bits@.len() == old(self).params.nb_fft_data_carriers,
            im_bits@.len() == old(self).params.nb_fft_data_carriers,
            soft_bits_in_range(re_bits@),
            soft_bits_in_range(im_bits@),
        ensures
            final(self).wf(),
            *final(self) == (OfdmDemodulatorCore {
                data_out_bits_buffer: final(self).data_out_bits_buffer,
                ..*old(self)
            }),
            final(self).data_out_bits_buffer@.len() == old(self).data_out_bits_buffer@.len(),
            final(self).data_out_bits_buffer@.subrange(
                symbol * (2 * old(self).params.nb_fft_data_carriers),
                (symbol + 1) * (2 * old(self).params.nb_fft_data_carriers),
            ) == demapped_bits(old(self).carrier_mapper_data@, re_bits@, im_bits@),
            forall|i: int|
                0 <= i < old(self).data_out_bits_buffer@.len() && !(symbol * (2 * old(
                    self,
                ).params.nb_fft_data_carriers) <= i < (symbol + 1) * (2 * old(
                    self,
                ).params.nb_fft_data_carriers)) ==> #[trigger] final(self).data_out_bits_buffer@[i]
                    == old(self).data_out_bits_buffer@[i],
    {
        let nb_data: usize = self.params.nb_fft_data_carriers;
        proof {
            let p = self.params;
            let s = symbol as int;
            let d = nb_data as int;
            assert((s + 1) * (2 * d) <= (p.nb_symbols - 1) * (2 * d)) by (nonlinear_arith)
                requires
                    0 <= s < p.nb_symbols - 1,
                    d >= 0,
            ;
            assert((p.nb_symbols - 1) * (2 * d) == 2 * ((p.nb_symbols - 1) * d))
                by (nonlinear_arith);
            assert(s * (2 * d) + 2 * d == (s + 1) * (2 * d)) by (nonlinear_arith);
            assert(s * (2 * d) >= 0) by (nonlinear_arith)
                requires
                    s >= 0,
                    d >= 0,
            ;
        }
        let base: usize = symbol * (2 * nb_data);
        let mut i: usize = 0;
        while i < nb_data
            invariant
                i <= nb_data,
                nb_data == self.params.nb_fft_data_carriers,
                base == symbol * (2 * nb_data),
                base + 2 * nb_data <= self.data_out_bits_buffer@.len(),
                base + 2 * nb_data == (symbol + 1) * (2 * nb_data),
                re_bits@.len() == nb_data,
                im_bits@.len() == nb_data,
                soft_bits_in_range(re_bits@),
                soft_bits_in_range(im_bits@),
                self.wf(),
                *self == (OfdmDemodulatorCore {
                    data_out_bits_buffer: self.data_out_bits_buffer,
                    ..*old(self)
                }),
                forall|j: int|
                    0 <= j < i ==> #[trigger] self.data_out_bits_buffer@[base + j]
                        == re_bits@[self.carrier_mapper_data@[j] as int],
                forall|j: int|
                    0 <= j < i ==> #[trigger] self.data_out_bits_buffer@[base + nb_data + j]
                        == im_bits@[self.carrier_mapper_data@[j] as int],
                forall|j: int|
                    0 <= j < self.data_out_bits_buffer@.len() && !(base <= j < base + 2 * nb_data)
                        ==> #[trigger] self.data_out_bits_buffer@[j] == old(
                        self,
                    ).data_out_bits_buffer@[j],
            decreases nb_data - i,
        {
            let i_mapped: usize = self.carrier_mapper_data[i];
            assert(i_mapped < nb_data);
            assert(-127 <= re_bits@[i_mapped as int] <= 127);
            assert(-127 <= im_bits@[i_mapped as int] <= 127);
            self.data_out_bits_buffer[base + i] = re_bits[i_mapped];
            self.data_out_bits_buffer[base + nb_data + i] = im_bits[i_mapped];
            i += 1;
        }
        proof {
            let out = self.data_out_bits_buffer@.subrange(base as int, base + 2 * nb_data);
            let want = demapped_bits(old(self).carrier_mapper_data@, re_bits@, im_bits@);
            assert forall|j: int| 0 <= j < 2 * nb_data implies out[j] == want[j] by {
                if j < nb_data {
                    assert(out[j] == self.data_out_bits_buffer@[base + j]);
                } else {
                    assert(out[j] == self.data_out_bits_buffer@[base + nb_data + (j - nb_data)]);
                }
            }
            assert(out =~= want);
        }
    }

    /// Ends the processing of a frame once its soft decision bits are
    /// stored and handed on: the frame is counted, the NULL symbol at its
    /// end becomes the start of the next NULL and PRS buffer, and the
    /// next step is to fill that buffer.
    pub fn finish_processing_symbols(&mut self)
        requires
            old(self).wf(),
            old(self).state == OfdmDemodulatorState::ProcessingSymbols,
            old(self).total_frames_read < u32::MAX,
        ensures
            final(self).wf(),
            final(self).null_prs_buffer@ == old(self).data_time_buffer@.subrange(
                old(self).params.nb_symbols * old(self).params.nb_symbol_period,
                old(self).params.nb_symbols * old(self).params.nb_symbol_period + old(
                    self,
                ).params.nb_null_period,
            ),
            *final(self) == (OfdmDemodulatorCore {
                state: OfdmDemodulatorState::ReadingNullAndPrs,
                total_frames_read: (old(self).total_frames_read + 1) as u32,
                null_prs_buffer: final(self).null_prs_buffer,
                ..*old(self)
            }),
            is_transition(old(self).state, final(self).state),
    {
        proof {
            self.params.lemma_frame_holds_symbols();
        }
        let null_symbol_offset: usize = self.params.nb_symbols * self.params.nb_symbol_period;
        let null_symbol = vstd::slice::slice_subrange(
            self.data_time_buffer.iter(),
            null_symbol_offset,
            null_symbol_offset + self.params.nb_null_period,
        );
        self.null_prs_buffer.reset();
        self.null_prs_buffer.consume(null_symbol);
        assert(self.null_prs_buffer@ =~= null_symbol@);
        self.total_frames_read += 1;
        self.state = OfdmDemodulatorState::ReadingNullAndPrs;
    }
}

} // verus!
