use ofdm_demod::dab_ofdm_carrier_map::get_dab_ofdm_carrier_map;
use ofdm_demod::dab_ofdm_parameters::get_dab_ofdm_parameters;
use ofdm_demod::dab_parameters::get_dab_parameters;
use ofdm_demod::dab_radio_parameters::get_dab_radio_parameters;
use ofdm_demod::dab_transmission_modes::DabTransmissionMode;
use ofdm_demod::frame_layout::{chunk_slice, count_decimated_blocks, dqpsk_fft_bin, span_slice};
use ofdm_demod::peak_search::{find_peak_offset_bins, first_maximum, ordered_key};
use ofdm_demod::ofdm_parameters::OfdmParameters;

#[test]
fn ofdm_parameters_derive_sizes() {
    let p = OfdmParameters::new(76, 2656, 2552, 2048, 1536);
    assert_eq!(p.nb_cyclic_prefix, 504);
    assert_eq!(p.nb_dqpsk_symbols, 75);
    assert_eq!(p.nb_output_samples, 115200);
    assert_eq!(p.nb_output_bits, 230400);
    assert_eq!(p.nb_input_samples, 2656 + 2552 * 76);
}

#[test]
fn ofdm_parameters_smallest_frame() {
    let p = OfdmParameters::new(2, 0, 4, 4, 2);
    assert_eq!(p.nb_cyclic_prefix, 0);
    assert_eq!(p.nb_dqpsk_symbols, 1);
    assert_eq!(p.nb_output_bits, 4);
    assert_eq!(p.nb_input_samples, 8);
}

#[test]
fn mode_one_frame_gives_230400_soft_bits() {
    let p = get_dab_ofdm_parameters(DabTransmissionMode::I);
    assert_eq!(p.nb_fft_data_carriers * 2, 3072);
    assert_eq!(p.nb_dqpsk_symbols, 75);
    assert_eq!(p.nb_output_bits, 230400);
}

#[test]
fn mode_two_frame_gives_57600_soft_bits() {
    let p = get_dab_ofdm_parameters(DabTransmissionMode::II);
    assert_eq!(p.nb_fft_data_carriers, 384);
    assert_eq!(p.nb_dqpsk_symbols, 75);
    assert_eq!(p.nb_output_bits, 57600);
}

#[test]
fn dab_parameters_of_each_mode() {
    let p = get_dab_parameters(DabTransmissionMode::I);
    assert_eq!((p.nb_symbols, p.nb_null_period, p.nb_symbol_period), (76, 2656, 2552));
    assert_eq!((p.nb_fft, p.nb_fft_data_carriers), (2048, 1536));
    assert_eq!((p.nb_fic_symbols, p.nb_msc_symbols, p.nb_fibs_in_fic, p.nb_cifs_in_msc), (3, 72, 12, 4));
    let p = get_dab_parameters(DabTransmissionMode::II);
    assert_eq!((p.nb_symbols, p.nb_null_period, p.nb_symbol_period), (76, 664, 638));
    assert_eq!((p.nb_fft, p.nb_fft_data_carriers), (512, 384));
    assert_eq!((p.nb_fic_symbols, p.nb_msc_symbols, p.nb_fibs_in_fic, p.nb_cifs_in_msc), (3, 72, 3, 1));
    let p = get_dab_parameters(DabTransmissionMode::III);
    assert_eq!((p.nb_symbols, p.nb_null_period, p.nb_symbol_period), (153, 345, 319));
    assert_eq!((p.nb_fft, p.nb_fft_data_carriers), (256, 192));
    assert_eq!((p.nb_fic_symbols, p.nb_msc_symbols, p.nb_fibs_in_fic, p.nb_cifs_in_msc), (8, 144, 4, 1));
    let p = get_dab_parameters(DabTransmissionMode::IV);
    assert_eq!((p.nb_symbols, p.nb_null_period, p.nb_symbol_period), (76, 1328, 1276));
    assert_eq!((p.nb_fft, p.nb_fft_data_carriers), (1024, 768));
    assert_eq!((p.nb_fic_symbols, p.nb_msc_symbols, p.nb_fibs_in_fic, p.nb_cifs_in_msc), (3, 72, 6, 2));
}

#[test]
fn dab_radio_parameters_mode_one() {
    let p = get_dab_radio_parameters(DabTransmissionMode::I);
    assert_eq!(p.nb_symbols, 75);
    assert_eq!(p.nb_bits_per_symbol, 3072);
    assert_eq!(p.nb_bits_per_frame, 230400);
    assert_eq!(p.nb_bits_in_fic, 9216);
    assert_eq!(p.nb_bits_in_msc, 221184);
    assert_eq!(p.nb_bits_per_fib, 768);
    assert_eq!(p.nb_bits_per_fig, 2304);
    assert_eq!(p.nb_bits_per_cif, 55296);
}

#[test]
fn dab_radio_parameters_mode_three() {
    let p = get_dab_radio_parameters(DabTransmissionMode::III);
    assert_eq!(p.nb_symbols, 152);
    assert_eq!(p.nb_bits_per_symbol, 384);
    assert_eq!(p.nb_bits_in_fic, 3072);
    assert_eq!(p.nb_bits_per_fib, 768);
    assert_eq!(p.nb_bits_per_fig, 3072);
    assert_eq!(p.nb_bits_per_cif, 55296);
}

#[test]
fn carrier_map_of_a_small_fft() {
    let mut map = vec![0usize; 6];
    get_dab_ofdm_carrier_map(&mut map, 8);
    assert_eq!(map, vec![0, 4, 5, 3, 1, 2]);
    let mut map = vec![0usize; 4];
    get_dab_ofdm_carrier_map(&mut map, 16);
    assert_eq!(map, vec![3, 1, 2, 0]);
}

#[test]
fn carrier_map_of_each_mode_is_a_permutation() {
    let cases: [(usize, usize, [usize; 6], [usize; 3]); 4] = [
        (1536, 2048, [255, 754, 1096, 1459, 35, 780], [1419, 1373, 964]),
        (384, 512, [63, 178, 137, 116, 354, 332], [346, 285, 5]),
        (192, 256, [31, 82, 147, 67, 38, 172], [59, 189, 100]),
        (768, 1024, [127, 370, 456, 563, 581, 141], [523, 410, 325]),
    ];
    for (carriers, fft, head, tail) in cases {
        let mut map = vec![usize::MAX; carriers];
        get_dab_ofdm_carrier_map(&mut map, fft);
        assert_eq!(&map[..6], &head[..]);
        assert_eq!(&map[carriers - 3..], &tail[..]);
        let mut seen = vec![false; carriers];
        for &c in &map {
            assert!(c < carriers);
            assert!(!seen[c]);
            seen[c] = true;
        }
    }
}

#[test]
fn carrier_map_keeps_entries_it_does_not_reach() {
    // With four bins the interleaving sequence never leaves bin 0.
    let mut map = vec![7usize, 8, 9];
    get_dab_ofdm_carrier_map(&mut map, 4);
    assert_eq!(map, vec![7, 8, 9]);
}

#[test]
fn span_and_chunk_ranges() {
    assert_eq!(span_slice(3, 4), 3..7);
    assert_eq!(span_slice(5, 0), 5..5);
    assert_eq!(chunk_slice(0, 10), 0..10);
    assert_eq!(chunk_slice(3, 10), 30..40);
}

#[test]
fn decimated_blocks_count_whole_blocks_only() {
    assert_eq!(count_decimated_blocks(0, 100, 5), 0);
    assert_eq!(count_decimated_blocks(99, 100, 5), 0);
    assert_eq!(count_decimated_blocks(100, 100, 5), 1);
    assert_eq!(count_decimated_blocks(599, 100, 5), 1);
    assert_eq!(count_decimated_blocks(600, 100, 5), 2);
    assert_eq!(count_decimated_blocks(650, 100, 5), 2);
    assert_eq!(count_decimated_blocks(1000, 100, 1), 10);
    assert_eq!(count_decimated_blocks(32768, 100, 5), 66);
}

#[test]
fn dqpsk_bins_skip_dc() {
    let p = OfdmParameters::new(2, 0, 8, 8, 6);
    let bins: Vec<usize> = (0..6).map(|i| dqpsk_fft_bin(&p, i)).collect();
    assert_eq!(bins, vec![5, 6, 7, 1, 2, 3]);
    let p = get_dab_ofdm_parameters(DabTransmissionMode::I);
    assert_eq!(dqpsk_fft_bin(&p, 0), 2048 - 768);
    assert_eq!(dqpsk_fft_bin(&p, 767), 2047);
    assert_eq!(dqpsk_fft_bin(&p, 768), 1);
    assert_eq!(dqpsk_fft_bin(&p, 1535), 768);
}

#[test]
fn first_maximum_prefers_the_earliest() {
    assert_eq!(first_maximum(&[1, 5, 3, 5, 2], 0, 5), 1);
    assert_eq!(first_maximum(&[1, 5, 3, 5, 2], 2, 5), 3);
    assert_eq!(first_maximum(&[4], 0, 1), 0);
    assert_eq!(first_maximum(&[-3, -3, -3], 0, 3), 0);
    assert_eq!(first_maximum(&[1, 2, 3, 9], 0, 3), 2);
}

#[test]
fn peak_offset_is_counted_from_the_centre() {
    let mut response = vec![0i32; 16];
    response[8 + 3] = 10;
    assert_eq!(find_peak_offset_bins(&response, 4), 3);
    response[8 - 2] = 11;
    assert_eq!(find_peak_offset_bins(&response, 4), -2);
    assert_eq!(find_peak_offset_bins(&response, 1), -1);
    assert_eq!(find_peak_offset_bins(&response, 0), 0);
    response[8 + 2] = 11;
    assert_eq!(find_peak_offset_bins(&response, 4), -2);
}

#[test]
fn ordered_keys_order_as_the_numbers_do() {
    let numbers = [
        f32::NEG_INFINITY,
        -3.5e30,
        -20.0,
        -1.0,
        -1.0e-40,
        0.0,
        1.0e-40,
        0.75,
        1.0,
        20.0,
        f32::MAX,
        f32::INFINITY,
    ];
    for pair in numbers.windows(2) {
        assert!(ordered_key(pair[0].to_bits()) < ordered_key(pair[1].to_bits()));
    }
    assert_eq!(ordered_key(0.0f32.to_bits()), 0);
    assert_eq!(ordered_key((-0.0f32).to_bits()), 0);
    assert_eq!(ordered_key(1.0f32.to_bits()), 0x3F80_0000);
    assert_eq!(ordered_key((-1.0f32).to_bits()), -0x3F80_0000);
    assert_eq!(ordered_key(f32::NAN.to_bits()), i32::MIN);
    assert_eq!(ordered_key(0xFFC0_0001), i32::MIN);
    assert!(ordered_key(f32::NEG_INFINITY.to_bits()) > i32::MIN);
}
