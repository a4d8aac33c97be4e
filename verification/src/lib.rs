//! The bookkeeping of a DAB OFDM demodulator, verified with Verus.
//!
//! The library holds what a demodulator decides and stores, for samples of
//! any type: the frame structure of each transmission mode, the frequency
//! de-interleaving table and the phase reference symbol, the bounded
//! buffers, the search for the NULL symbol over blocks of known power, the
//! peak searches, the steps of the frame synchronisation with their
//! counters, and the placing of the soft decision bits. The arithmetic on
//! the samples themselves is left to the program that uses the library.

pub mod barrier;
pub mod circular_bucket;
pub mod dab_ofdm_carrier_map;
pub mod dab_ofdm_parameters;
pub mod dab_ofdm_phase_reference_symbol;
pub mod dab_parameters;
pub mod dab_radio_parameters;
pub mod dab_transmission_modes;
pub mod fic_decoder;
pub mod frame_layout;
pub mod linear_bucket;
mod mut_slice;
pub mod ofdm_demodulator;
pub mod ofdm_parameters;
pub mod peak_search;
