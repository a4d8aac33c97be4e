use crate::dab_transmission_modes::DabTransmissionMode;
use vstd::prelude::*;

verus! {

/// The phase reference symbol is made of segments of 32 carriers each, half
/// of them below the centre frequency and half above it. This is their
/// number for a transmission mode.
pub open spec fn prs_segment_count(transmission_mode: DabTransmissionMode) -> int {
    match transmission_mode {
        DabTransmissionMode::I => 48,
        DabTransmissionMode::II => 12,
        DabTransmissionMode::III => 6,
        DabTransmissionMode::IV => 24,
    }
}

/// The row of the table of h-values that each segment uses, from the
/// lowest frequency up.
pub open spec fn prs_h_rows(transmission_mode: DabTransmissionMode) -> Seq<u8> {
    match transmission_mode {
        DabTransmissionMode::I => seq![
            0u8, 1u8, 2u8, 3u8, 0u8, 1u8, 2u8, 3u8, 0u8, 1u8, 2u8, 3u8, 0u8, 1u8, 2u8,
            3u8, 0u8, 1u8, 2u8, 3u8, 0u8, 1u8, 2u8, 3u8, 0u8, 3u8, 2u8, 1u8, 0u8, 3u8,
            2u8, 1u8, 0u8, 3u8, 2u8, 1u8, 0u8, 3u8, 2u8, 1u8, 0u8, 3u8, 2u8, 1u8, 0u8,
            3u8, 2u8, 1u8,
        ],
        DabTransmissionMode::II => seq![
            0u8, 1u8, 2u8, 3u8, 0u8, 1u8, 2u8, 1u8, 0u8, 3u8, 2u8, 1u8,
        ],
        DabTransmissionMode::III => seq![
            0u8, 1u8, 2u8, 3u8, 2u8, 1u8,
        ],
        DabTransmissionMode::IV => seq![
            0u8, 1u8, 2u8, 3u8, 0u8, 1u8, 2u8, 3u8, 0u8, 1u8, 2u8, 3u8, 0u8, 3u8, 2u8,
            1u8, 0u8, 3u8, 2u8, 1u8, 0u8, 3u8, 2u8, 1u8,
        ],
    }
}

/// The number of quarter turns that each segment adds to its h-values,
/// from the lowest frequency up.
pub open spec fn prs_phase_offsets(transmission_mode: DabTransmissionMode) -> Seq<u8> {
    match transmission_mode {
        DabTransmissionMode::I => seq![
            1u8, 2u8, 0u8, 1u8, 3u8, 2u8, 2u8, 3u8, 2u8, 1u8, 2u8, 3u8, 1u8, 2u8, 3u8,
            3u8, 2u8, 2u8, 2u8, 1u8, 1u8, 3u8, 1u8, 2u8, 3u8, 1u8, 1u8, 1u8, 2u8, 2u8,
            1u8, 0u8, 2u8, 2u8, 3u8, 3u8, 0u8, 2u8, 1u8, 3u8, 3u8, 3u8, 3u8, 0u8, 3u8,
            0u8, 1u8, 1u8,
        ],
        DabTransmissionMode::II => seq![
            2u8, 3u8, 2u8, 2u8, 1u8, 2u8, 0u8, 2u8, 2u8, 1u8, 0u8, 3u8,
        ],
        DabTransmissionMode::III => seq![
            2u8, 3u8, 0u8, 2u8, 2u8, 2u8,
        ],
        DabTransmissionMode::IV => seq![
            0u8, 1u8, 1u8, 2u8, 2u8, 2u8, 0u8, 3u8, 3u8, 1u8, 3u8, 2u8, 0u8, 1u8, 0u8,
            2u8, 0u8, 1u8, 2u8, 2u8, 2u8, 1u8, 3u8, 0u8,
        ],
    }
}

/// The table of h-values: four rows of one value for each carrier of a
/// segment, in quarter turns.
pub open spec fn prs_h_table() -> Seq<Seq<u8>> {
    seq![
        seq![
            0u8, 2u8, 0u8, 0u8, 0u8, 0u8, 1u8, 1u8, 2u8, 0u8, 0u8, 0u8, 2u8, 2u8, 1u8,
            1u8, 0u8, 2u8, 0u8, 0u8, 0u8, 0u8, 1u8, 1u8, 2u8, 0u8, 0u8, 0u8, 2u8, 2u8,
            1u8, 1u8,
        ],
        seq![
            0u8, 3u8, 2u8, 3u8, 0u8, 1u8, 3u8, 0u8, 2u8, 1u8, 2u8, 3u8, 2u8, 3u8, 3u8,
            0u8, 0u8, 3u8, 2u8, 3u8, 0u8, 1u8, 3u8, 0u8, 2u8, 1u8, 2u8, 3u8, 2u8, 3u8,
            3u8, 0u8,
        ],
        seq![
            0u8, 0u8, 0u8, 2u8, 0u8, 2u8, 1u8, 3u8, 2u8, 2u8, 0u8, 2u8, 2u8, 0u8, 1u8,
            3u8, 0u8, 0u8, 0u8, 2u8, 0u8, 2u8, 1u8, 3u8, 2u8, 2u8, 0u8, 2u8, 2u8, 0u8,
            1u8, 3u8,
        ],
        seq![
            0u8, 1u8, 2u8, 1u8, 0u8, 3u8, 3u8, 2u8, 2u8, 3u8, 2u8, 1u8, 2u8, 1u8, 3u8,
            2u8, 0u8, 1u8, 2u8, 1u8, 0u8, 3u8, 3u8, 2u8, 2u8, 3u8, 2u8, 1u8, 2u8, 1u8,
            3u8, 2u8,
        ],
    ]
}

/// The segment that an FFT bin belongs to and the bin's place in it, or
/// `None` for a bin that the phase reference symbol leaves empty. The
/// carriers above the centre frequency lie in the bins from 1 up, those
/// below it in the topmost bins.
pub open spec fn prs_segment_of(
    transmission_mode: DabTransmissionMode,
    total_fft: int,
    fft_index: int,
) -> Option<(int, int)> {
    let half = prs_segment_count(transmission_mode) / 2;
    let side = 32 * half;
    if 1 <= fft_index <= side {
        Some((half + (fft_index - 1) / 32, (fft_index - 1) % 32))
    } else if total_fft - side <= fft_index < total_fft {
        Some(((fft_index - (total_fft - side)) / 32, (fft_index - (total_fft - side)) % 32))
    } else {
        None
    }
}

/// The phase of the phase reference symbol in an FFT bin, in quarter
/// turns, or `None` for a bin that it leaves empty: the h-value of the
/// bin's place in its segment plus what the segment adds.
pub open spec fn prs_phase(
    transmission_mode: DabTransmissionMode,
    total_fft: int,
    fft_index: int,
) -> Option<u8> {
    match prs_segment_of(transmission_mode, total_fft, fft_index) {
        Some((segment, column)) => Some(
            (prs_h_table()[prs_h_rows(transmission_mode)[segment] as int][column]
                + prs_phase_offsets(transmission_mode)[segment]) as u8,
        ),
        None => None,
    }
}

/// Whether the walk over the segments has passed a bin when it stands at
/// the given place of the given segment.
spec fn prs_walk_passed(
    transmission_mode: DabTransmissionMode,
    total_fft: int,
    fft_index: int,
    segment: int,
    column: int,
) -> bool {
    match prs_segment_of(transmission_mode, total_fft, fft_index) {
        Some((s, c)) => s < segment || (s == segment && c < column),
        None => false,
    }
}

/// Returns the number of FFT bins that the phase reference symbol of a
/// transmission mode spans from its lowest carrier to its highest, the
/// empty DC bin in the middle included. An FFT has to have as many.
pub fn get_dab_ofdm_phase_reference_symbol_span(transmission_mode: DabTransmissionMode) -> (span:
    usize)
    ensures
        span == 32 * prs_segment_count(transmission_mode) + 1,
{
    32 * segment_count(transmission_mode) + 1
}

/// Returns the number of segments of a transmission mode.
fn segment_count(transmission_mode: DabTransmissionMode) -> (count: usize)
    ensures
        count == prs_segment_count(transmission_mode),
{
    match transmission_mode {
        DabTransmissionMode::I => 48,
        DabTransmissionMode::II => 12,
        DabTransmissionMode::III => 6,
        DabTransmissionMode::IV => 24,
    }
}

/// Returns the row of h-values and the added quarter turns of a segment.
fn segment_entry(transmission_mode: DabTransmissionMode, segment: usize) -> (entry: (u8, u8))
    requires
        segment < prs_segment_count(transmission_mode),
    ensures
        entry.0 == prs_h_rows(transmission_mode)[segment as int],
        entry.1 == prs_phase_offsets(transmission_mode)[segment as int],
        entry.0 < 4,
        entry.1 < 4,
{
    match transmission_mode {
        DabTransmissionMode::I => {
            let rows: [u8; 48] = [
                0, 1, 2, 3, 0, 1, 2, 3, 0, 1, 2, 3, 0, 1, 2, 3, 0, 1, 2, 3, 0, 1, 2, 3,
                0, 3, 2, 1, 0, 3, 2, 1, 0, 3, 2, 1, 0, 3, 2, 1, 0, 3, 2, 1, 0, 3, 2, 1,
            ];
            let offsets: [u8; 48] = [
                1, 2, 0, 1, 3, 2, 2, 3, 2, 1, 2, 3, 1, 2, 3, 3, 2, 2, 2, 1, 1, 3, 1, 2,
                3, 1, 1, 1, 2, 2, 1, 0, 2, 2, 3, 3, 0, 2, 1, 3, 3, 3, 3, 0, 3, 0, 1, 1,
            ];
            assert(rows@ =~= prs_h_rows(transmission_mode));
            assert(offsets@ =~= prs_phase_offsets(transmission_mode));
            assert(forall|i: int| 0 <= i < 48 ==> #[trigger] rows@[i] < 4);
            assert(forall|i: int| 0 <= i < 48 ==> #[trigger] offsets@[i] < 4);
            (rows[segment], offsets[segment])
        },
        DabTransmissionMode::II => {
            let rows: [u8; 12] = [
                0, 1, 2, 3, 0, 1, 2, 1, 0, 3, 2, 1,
            ];
            let offsets: [u8; 12] = [
                2, 3, 2, 2, 1, 2, 0, 2, 2, 1, 0, 3,
            ];
            assert(rows@ =~= prs_h_rows(transmission_mode));
            assert(offsets@ =~= prs_phase_offsets(transmission_mode));
            assert(forall|i: int| 0 <= i < 12 ==> #[trigger] rows@[i] < 4);
            assert(forall|i: int| 0 <= i < 12 ==> #[trigger] offsets@[i] < 4);
            (rows[segment], offsets[segment])
        },
        DabTransmissionMode::III => {
            let rows: [u8; 6] = [
                0, 1, 2, 3, 2, 1,
            ];
            let offsets: [u8; 6] = [
                2, 3, 0, 2, 2, 2,
            ];
            assert(rows@ =~= prs_h_rows(transmission_mode));
            assert(offsets@ =~= prs_phase_offsets(transmission_mode));
            assert(forall|i: int| 0 <= i < 6 ==> #[trigger] rows@[i] < 4);
            assert(forall|i: int| 0 <= i < 6 ==> #[trigger] offsets@[i] < 4);
            (rows[segment], offsets[segment])
        },
        DabTransmissionMode::IV => {
            let rows: [u8; 24] = [
                0, 1, 2, 3, 0, 1, 2, 3, 0, 1, 2, 3, 0, 3, 2, 1, 0, 3, 2, 1, 0, 3, 2, 1,
            ];
            let offsets: [u8; 24] = [
                0, 1, 1, 2, 2, 2, 0, 3, 3, 1, 3, 2, 0, 1, 0, 2, 0, 1, 2, 2, 2, 1, 3, 0,
            ];
            assert(rows@ =~= prs_h_rows(transmission_mode));
            assert(offsets@ =~= prs_phase_offsets(transmission_mode));
            assert(forall|i: int| 0 <= i < 24 ==> #[trigger] rows@[i] < 4);
            assert(forall|i: int| 0 <= i < 24 ==> #[trigger] offsets@[i] < 4);
            (rows[segment], offsets[segment])
        },
    }
}

/// Returns an h-value.
fn h_value(row: u8, column: usize) -> (value: u8)
    requires
        row < 4,
        column < 32,
    ensures
        value == prs_h_table()[row as int][column as int],
        value < 4,
{
    let row_0: [u8; 32] = [
        0, 2, 0, 0, 0, 0, 1, 1, 2, 0, 0, 0, 2, 2, 1, 1, 0, 2, 0, 0, 0, 0, 1, 1, 2, 0,
        0, 0, 2, 2, 1, 1,
    ];
    let row_1: [u8; 32] = [
        0, 3, 2, 3, 0, 1, 3, 0, 2, 1, 2, 3, 2, 3, 3, 0, 0, 3, 2, 3, 0, 1, 3, 0, 2, 1,
        2, 3, 2, 3, 3, 0,
    ];
    let row_2: [u8; 32] = [
        0, 0, 0, 2, 0, 2, 1, 3, 2, 2, 0, 2, 2, 0, 1, 3, 0, 0, 0, 2, 0, 2, 1, 3, 2, 2,
        0, 2, 2, 0, 1, 3,
    ];
    let row_3: [u8; 32] = [
        0, 1, 2, 1, 0, 3, 3, 2, 2, 3, 2, 1, 2, 1, 3, 2, 0, 1, 2, 1, 0, 3, 3, 2, 2, 3,
        2, 1, 2, 1, 3, 2,
    ];
    assert(row_0@ =~= prs_h_table()[0]);
    assert(row_1@ =~= prs_h_table()[1]);
    assert(row_2@ =~= prs_h_table()[2]);
    assert(row_3@ =~= prs_h_table()[3]);
    assert(forall|i: int| 0 <= i < 32 ==> #[trigger] row_0@[i] < 4);
    assert(forall|i: int| 0 <= i < 32 ==> #[trigger] row_1@[i] < 4);
    assert(forall|i: int| 0 <= i < 32 ==> #[trigger] row_2@[i] < 4);
    assert(forall|i: int| 0 <= i < 32 ==> #[trigger] row_3@[i] < 4);
    if row == 0 {
        row_0[column]
    } else if row == 1 {
        row_1[column]
    } else if row == 2 {
        row_2[column]
    } else {
        row_3[column]
    }
}

/// Writes the phase reference symbol of a transmission mode as one phase
/// for each FFT bin, in quarter turns, with `None` for the bins that it
/// leaves empty. The DC bin comes first.
pub fn get_dab_ofdm_phase_reference_symbol_phases(
    prs_phases: &mut [Option<u8>],
    transmission_mode: DabTransmissionMode,
)
    requires
        old(prs_phases)@.len() >= 32 * prs_segment_count(transmission_mode) + 1,
    ensures
        final(prs_phases)@.len() == old(prs_phases)@.len(),
        forall|i: int|
            0 <= i < final(prs_phases)@.len() ==> #[trigger] final(prs_phases)@[i] == prs_phase(
                transmission_mode,
                old(prs_phases)@.len() as int,
                i,
            ),
{
    let total_fft: usize = prs_phases.len();
    let total_segments: usize = segment_count(transmission_mode);
    let half: usize = total_segments / 2;
    let side: usize = 32 * half;

    let mut i: usize = 0;
    while i < total_fft
        invariant
            i <= total_fft,
            prs_phases@.len() == total_fft,
            forall|j: int| 0 <= j < i ==> #[trigger] prs_phases@[j] == None::<u8>,
        decreases total_fft - i,
    {
        prs_phases[i] = None;
        i += 1;
    }

    let mut segment: usize = 0;
    while segment < total_segments
        invariant
            segment <= total_segments,
            total_segments == prs_segment_count(transmission_mode),
            half == total_segments / 2,
            side == 32 * half,
            total_fft >= 2 * side + 1,
            prs_phases@.len() == total_fft,
            total_fft == old(prs_phases)@.len(),
            forall|j: int|
                0 <= j < total_fft ==> #[trigger] prs_phases@[j] == (if prs_walk_passed(
                    transmission_mode,
                    total_fft as int,
                    j,
                    segment as int,
                    0,
                ) {
                    prs_phase(transmission_mode, total_fft as int, j)
                } else {
                    None
                }),
        decreases total_segments - segment,
    {
        let (h_table_row, phase_offset) = segment_entry(transmission_mode, segment);
        let first_bin: usize = if segment < half {
            total_fft - side + 32 * segment
        } else {
            1 + 32 * (segment - half)
        };
        let mut column: usize = 0;
        while column < 32
            invariant
                column <= 32,
                segment < total_segments,
                total_segments == prs_segment_count(transmission_mode),
                half == total_segments / 2,
                side == 32 * half,
                total_fft >= 2 * side + 1,
                prs_phases@.len() == total_fft,
                h_table_row == prs_h_rows(transmission_mode)[segment as int],
                phase_offset == prs_phase_offsets(transmission_mode)[segment as int],
                h_table_row < 4,
                phase_offset < 4,
                first_bin == (if segment < half {
                    total_fft - side + 32 * segment
                } else {
                    1 + 32 * (segment - half)
                }),
                forall|j: int|
                    0 <= j < total_fft ==> #[trigger] prs_phases@[j] == (if prs_walk_passed(
                        transmission_mode,
                        total_fft as int,
                        j,
                        segment as int,
                        column as int,
                    ) {
                        prs_phase(transmission_mode, total_fft as int, j)
                    } else {
                        None
                    }),
            decreases 32 - column,
        {
            let h = h_value(h_table_row, column);
            let fft_index: usize = first_bin + column;
            assert(prs_segment_of(transmission_mode, total_fft as int, fft_index as int) == Some(
                (segment as int, column as int),
            ));
            prs_phases[fft_index] = Some(h + phase_offset);
            column += 1;
        }
        segment += 1;
    }
    assert forall|j: int| 0 <= j < total_fft implies #[trigger] prs_phases@[j] == prs_phase(
        transmission_mode,
        total_fft as int,
        j,
    ) by {
        match prs_segment_of(transmission_mode, total_fft as int, j) {
            Some((s, c)) => {
                assert(s < total_segments);
            },
            None => {},
        }
    }
}

} // verus!
