use ofdm_demod::ofdm_demodulator::{
    scan_null_power_blocks, BlockPower, CoarseFrequencyUpdate, OfdmDemodulatorCore,
    OfdmDemodulatorState,
};
use ofdm_demod::ofdm_parameters::OfdmParameters;

const WEAK: BlockPower = BlockPower { is_below_start: true, is_above_end: false };
const MID: BlockPower = BlockPower { is_below_start: false, is_above_end: false };
const STRONG: BlockPower = BlockPower { is_below_start: false, is_above_end: true };

/// Three symbols of six samples (two of them cyclic prefix) after a NULL
/// symbol of four samples, with two data carriers.
fn small_params() -> OfdmParameters {
    OfdmParameters::new(3, 4, 6, 4, 2)
}

fn small_core() -> OfdmDemodulatorCore<i32> {
    OfdmDemodulatorCore::new(&small_params(), &[1, 0])
}

fn ramp(from: i32, count: usize) -> Vec<i32> {
    (0..count).map(|i| from + i as i32).collect()
}

#[test]
fn scan_needs_a_weak_block_before_a_strong_one() {
    let scan = scan_null_power_blocks(&[STRONG, MID, STRONG], false);
    assert_eq!(scan.blocks_read, 3);
    assert!(!scan.is_null_start_found);
    assert!(!scan.is_null_end_found);
}

#[test]
fn scan_stops_at_the_first_strong_block_after_a_weak_one() {
    let scan = scan_null_power_blocks(&[MID, WEAK, MID, STRONG, WEAK, STRONG], false);
    assert_eq!(scan.blocks_read, 4);
    assert!(scan.is_null_start_found);
    assert!(scan.is_null_end_found);
}

#[test]
fn scan_remembers_an_earlier_start() {
    let scan = scan_null_power_blocks(&[STRONG, MID], true);
    assert_eq!(scan.blocks_read, 1);
    assert!(scan.is_null_end_found);
    let scan = scan_null_power_blocks(&[], true);
    assert_eq!(scan.blocks_read, 0);
    assert!(scan.is_null_start_found);
    assert!(!scan.is_null_end_found);
}

#[test]
fn scan_does_not_end_in_the_block_that_starts() {
    let both = BlockPower { is_below_start: true, is_above_end: true };
    let scan = scan_null_power_blocks(&[both], false);
    assert_eq!(scan.blocks_read, 1);
    assert!(scan.is_null_start_found);
    assert!(!scan.is_null_end_found);
}

#[test]
fn new_core_looks_for_the_null_symbol() {
    let core = small_core();
    assert_eq!(core.state(), OfdmDemodulatorState::FindingNullPowerDip);
    assert_eq!(core.total_frames_read, 0);
    assert_eq!(core.total_frames_desync, 0);
    assert_eq!(core.fine_time_offset, 0);
    assert_eq!(core.null_power_dip_buffer.capacity(), 4);
    assert_eq!(core.null_prs_buffer.capacity(), 10);
    assert_eq!(core.data_time_buffer.capacity(), 22);
    assert_eq!(core.soft_bits(), &[0i8; 8][..]);
    assert_eq!(core.carrier_mapper_data, vec![1, 0]);
}

#[test]
fn null_search_without_an_end_keeps_recent_samples() {
    let mut core = small_core();
    let buf = ramp(0, 7);
    let read = core.find_null_power_dip(&buf, 2, &[MID, WEAK, MID]);
    assert_eq!(read, 7);
    assert_eq!(core.state(), OfdmDemodulatorState::FindingNullPowerDip);
    assert!(core.is_null_start_found);
    assert_eq!(core.null_power_dip_buffer.length(), 4);
    assert_eq!(*core.null_power_dip_buffer.get(0), 3);
    assert_eq!(*core.null_power_dip_buffer.get(3), 6);
    assert_eq!(core.null_prs_buffer.length(), 0);
}

#[test]
fn null_search_with_an_end_hands_the_ring_over() {
    let mut core = small_core();
    core.find_null_power_dip(&ramp(0, 3), 2, &[WEAK]);
    let buf = ramp(10, 7);
    let read = core.find_null_power_dip(&buf, 2, &[MID, STRONG, MID]);
    assert_eq!(read, 4);
    assert_eq!(core.state(), OfdmDemodulatorState::ReadingNullAndPrs);
    assert!(!core.is_null_start_found);
    assert!(!core.is_null_end_found);
    assert_eq!(core.null_power_dip_buffer.length(), 0);
    assert_eq!(core.null_prs_buffer.iter(), &[10, 11, 12, 13]);
}

#[test]
fn null_search_hands_over_a_ring_that_is_not_full() {
    let mut core = small_core();
    let read = core.find_null_power_dip(&ramp(5, 3), 1, &[WEAK, STRONG, MID]);
    assert_eq!(read, 2);
    assert_eq!(core.null_prs_buffer.iter(), &[5, 6]);
}

#[test]
fn null_search_on_less_than_a_block_only_stores() {
    let mut core = small_core();
    let read = core.find_null_power_dip(&[1, 2, 3], 100, &[]);
    assert_eq!(read, 3);
    assert_eq!(core.state(), OfdmDemodulatorState::FindingNullPowerDip);
    assert_eq!(core.null_power_dip_buffer.length(), 3);
}

fn core_with_full_null_prs(samples: &[i32]) -> OfdmDemodulatorCore<i32> {
    let mut core = small_core();
    core.find_null_power_dip(&samples[..4], 2, &[WEAK, STRONG]);
    assert_eq!(core.read_null_prs(&samples[4..7]), 3);
    assert_eq!(core.state(), OfdmDemodulatorState::ReadingNullAndPrs);
    assert_eq!(core.read_null_prs(&samples[7..]), 3);
    assert_eq!(core.state(), OfdmDemodulatorState::RunningCoarseFrequencySynchronisation);
    core
}

#[test]
fn reading_null_and_prs_stops_when_full() {
    let mut core = small_core();
    core.find_null_power_dip(&ramp(0, 4), 2, &[WEAK, STRONG]);
    assert_eq!(core.read_null_prs(&ramp(4, 20)), 6);
    assert_eq!(core.state(), OfdmDemodulatorState::RunningCoarseFrequencySynchronisation);
    assert_eq!(core.null_prs_buffer.iter(), &ramp(0, 10)[..]);
}

#[test]
fn sync_inputs_are_windows_of_the_prs() {
    let samples = ramp(100, 10);
    let mut core = core_with_full_null_prs(&samples);
    assert_eq!(core.coarse_frequency_sync_input(), &[106, 107, 108, 109]);
    core.finish_coarse_frequency_synchronisation(true);
    assert_eq!(core.fine_time_sync_input(), &[104, 105, 106, 107]);
}

#[test]
fn coarse_sync_acquires_then_follows() {
    let samples = ramp(0, 10);
    let mut core = core_with_full_null_prs(&samples);
    assert_eq!(
        core.finish_coarse_frequency_synchronisation(true),
        CoarseFrequencyUpdate::Acquired
    );
    assert_eq!(core.state(), OfdmDemodulatorState::RunningFineTimeSync);
    assert!(core.is_found_coarse_frequency_offset);
    core.state = OfdmDemodulatorState::RunningCoarseFrequencySynchronisation;
    assert_eq!(
        core.finish_coarse_frequency_synchronisation(true),
        CoarseFrequencyUpdate::Followed
    );
}

#[test]
fn coarse_sync_switched_off_clears_and_does_not_lock() {
    let samples = ramp(0, 10);
    let mut core = core_with_full_null_prs(&samples);
    assert_eq!(
        core.finish_coarse_frequency_synchronisation(false),
        CoarseFrequencyUpdate::Cleared
    );
    assert_eq!(core.state(), OfdmDemodulatorState::RunningFineTimeSync);
    assert!(!core.is_found_coarse_frequency_offset);
}

#[test]
fn weak_peak_counts_one_desync_and_starts_over() {
    let samples = ramp(0, 10);
    let mut core = core_with_full_null_prs(&samples);
    core.finish_coarse_frequency_synchronisation(true);
    assert!(!core.finish_fine_time_sync(2, false));
    assert_eq!(core.state(), OfdmDemodulatorState::FindingNullPowerDip);
    assert_eq!(core.total_frames_desync, 1);
    assert_eq!(core.total_frames_read, 0);
    assert!(!core.is_found_coarse_frequency_offset);
    assert_eq!(core.fine_time_offset, 0);
    assert_eq!(core.null_prs_buffer.length(), 0);
}

#[test]
fn strong_peak_at_the_expected_place_keeps_the_prs() {
    let samples = ramp(0, 10);
    let mut core = core_with_full_null_prs(&samples);
    core.finish_coarse_frequency_synchronisation(true);
    assert!(core.finish_fine_time_sync(2, true));
    assert_eq!(core.state(), OfdmDemodulatorState::ReadingSymbols);
    assert_eq!(core.fine_time_offset, 0);
    assert_eq!(core.total_frames_desync, 0);
    assert_eq!(core.data_time_buffer.iter(), &[4, 5, 6, 7, 8, 9]);
    assert_eq!(core.null_prs_buffer.length(), 0);
}

#[test]
fn strong_peak_elsewhere_shifts_the_prs() {
    let samples = ramp(0, 10);
    let mut core = core_with_full_null_prs(&samples);
    core.finish_coarse_frequency_synchronisation(true);
    assert!(core.finish_fine_time_sync(3, true));
    assert_eq!(core.fine_time_offset, 1);
    assert_eq!(core.data_time_buffer.iter(), &[5, 6, 7, 8, 9]);

    let mut core = core_with_full_null_prs(&samples);
    core.finish_coarse_frequency_synchronisation(true);
    assert!(core.finish_fine_time_sync(0, true));
    assert_eq!(core.fine_time_offset, -2);
    assert_eq!(core.data_time_buffer.iter(), &[2, 3, 4, 5, 6, 7, 8, 9]);
}

fn core_with_full_frame() -> OfdmDemodulatorCore<i32> {
    let samples = ramp(0, 10);
    let mut core = core_with_full_null_prs(&samples);
    core.finish_coarse_frequency_synchronisation(true);
    core.finish_fine_time_sync(2, true);
    assert_eq!(core.read_symbols(&ramp(10, 5)), 5);
    assert_eq!(core.state(), OfdmDemodulatorState::ReadingSymbols);
    assert_eq!(core.read_symbols(&ramp(15, 40)), 11);
    assert_eq!(core.state(), OfdmDemodulatorState::ProcessingSymbols);
    core
}

#[test]
fn reading_symbols_fills_the_frame() {
    let core = core_with_full_frame();
    assert_eq!(core.frame_samples(), &ramp(4, 22)[..]);
}

#[test]
fn soft_bits_are_stored_in_table_order() {
    let mut core = core_with_full_frame();
    core.store_soft_bits(1, &[10, 20], &[-30, -40]);
    assert_eq!(core.soft_bits(), &[0, 0, 0, 0, 20, 10, -40, -30]);
    core.store_soft_bits(0, &[1, 2], &[3, 4]);
    assert_eq!(core.soft_bits(), &[2, 1, 4, 3, 20, 10, -40, -30]);
    assert_eq!(core.soft_bits().len(), small_params().nb_output_bits);
}

#[test]
fn finished_frame_is_counted_once_and_seeds_the_next() {
    let mut core = core_with_full_frame();
    core.finish_processing_symbols();
    assert_eq!(core.total_frames_read, 1);
    assert_eq!(core.total_frames_desync, 0);
    assert_eq!(core.state(), OfdmDemodulatorState::ReadingNullAndPrs);
    assert_eq!(core.null_prs_buffer.iter(), &[22, 23, 24, 25]);
    assert_eq!(core.read_null_prs(&ramp(50, 6)), 6);
    assert_eq!(core.state(), OfdmDemodulatorState::RunningCoarseFrequencySynchronisation);
}

#[test]
fn reset_from_desync_keeps_the_ring() {
    let mut core = small_core();
    core.find_null_power_dip(&ramp(0, 3), 2, &[WEAK]);
    core.find_null_power_dip(&ramp(3, 2), 2, &[STRONG]);
    assert_eq!(core.state(), OfdmDemodulatorState::ReadingNullAndPrs);
    core.null_power_dip_buffer.consume(&[7, 8], true);
    core.read_null_prs(&ramp(0, 10));
    core.finish_coarse_frequency_synchronisation(true);
    core.reset_from_desync();
    assert_eq!(core.state(), OfdmDemodulatorState::FindingNullPowerDip);
    assert_eq!(core.null_power_dip_buffer.length(), 2);
    assert_eq!(core.null_prs_buffer.length(), 0);
    assert!(!core.is_found_coarse_frequency_offset);
    assert_eq!(core.total_frames_desync, 0);
}

#[test]
fn reading_nothing_changes_nothing() {
    let mut core = small_core();
    assert_eq!(core.find_null_power_dip(&[], 100, &[]), 0);
    assert_eq!(core.state(), OfdmDemodulatorState::FindingNullPowerDip);
    assert_eq!(core.null_power_dip_buffer.length(), 0);
    core.find_null_power_dip(&ramp(0, 4), 2, &[WEAK, STRONG]);
    assert_eq!(core.read_null_prs(&[]), 0);
    assert_eq!(core.state(), OfdmDemodulatorState::ReadingNullAndPrs);
    assert_eq!(core.null_prs_buffer.iter(), &[0, 1, 2, 3]);
}
