use crate::dab_transmission_modes::DabTransmissionMode;
use vstd::prelude::*;

verus! {

/// Every constant of a transmission mode that demodulation and decoding need,
/// for a sampling frequency of 2.048 MHz.
#[derive(Debug, Clone, Copy)]
pub struct DabParameters {
    /// Number of OFDM data symbols in a transmission frame.
    pub nb_symbols: usize,
    /// Duration of the NULL symbol in samples.
    pub nb_null_period: usize,
    /// Duration of one OFDM data symbol in samples.
    pub nb_symbol_period: usize,
    /// Size of the FFT of a data symbol.
    pub nb_fft: usize,
    /// Number of FFT bins that carry data, centred around DC.
    pub nb_fft_data_carriers: usize,
    /// Number of symbols of the fast information channel (FIC).
    pub nb_fic_symbols: usize,
    /// Number of symbols of the main service channel (MSC).
    pub nb_msc_symbols: usize,
    /// Number of fast information blocks (FIB) in the FIC.
    pub nb_fibs_in_fic: usize,
    /// Number of common interleaved frames (CIF) in the MSC.
    pub nb_cifs_in_msc: usize,
}

/// The table of constants, one row per transmission mode.
pub open spec fn dab_parameters_of(transmission_mode: DabTransmissionMode) -> DabParameters {
    match transmission_mode {
        DabTransmissionMode::I => DabParameters {
            nb_symbols: 76,
            nb_null_period: 2656,
            nb_symbol_period: 2552,
            nb_fft: 2048,
            nb_fft_data_carriers: 1536,
            nb_fic_symbols: 3,
            nb_msc_symbols: 72,
            nb_fibs_in_fic: 12,
            nb_cifs_in_msc: 4,
        },
        DabTransmissionMode::II => DabParameters {
            nb_symbols: 76,
            nb_null_period: 664,
            nb_symbol_period: 638,
            nb_fft: 512,
            nb_fft_data_carriers: 384,
            nb_fic_symbols: 3,
            nb_msc_symbols: 72,
            nb_fibs_in_fic: 3,
            nb_cifs_in_msc: 1,
        },
        DabTransmissionMode::III => DabParameters {
            nb_symbols: 153,
            nb_null_period: 345,
            nb_symbol_period: 319,
            nb_fft: 256,
            nb_fft_data_carriers: 192,
            nb_fic_symbols: 8,
            nb_msc_symbols: 144,
            nb_fibs_in_fic: 4,
            nb_cifs_in_msc: 1,
        },
        DabTransmissionMode::IV => DabParameters {
            nb_symbols: 76,
            nb_null_period: 1328,
            nb_symbol_period: 1276,
            nb_fft: 1024,
            nb_fft_data_carriers: 768,
            nb_fic_symbols: 3,
            nb_msc_symbols: 72,
            nb_fibs_in_fic: 6,
            nb_cifs_in_msc: 2,
        },
    }
}

impl DabParameters {
    /// The constants fit together: the frame can be differentially
    /// demodulated, its symbols split into FIC and MSC, and the FIBs divide
    /// evenly over the CIFs.
    pub open spec fn consistent(&self) -> bool {
        &&& self.nb_symbols >= 2
        &&& self.nb_symbol_period >= self.nb_fft
        &&& self.nb_fft >= self.nb_fft_data_carriers
        &&& self.nb_symbols - 1 == self.nb_fic_symbols + self.nb_msc_symbols
        &&& self.nb_cifs_in_msc > 0
        &&& self.nb_fibs_in_fic % self.nb_cifs_in_msc == 0
    }
}

/// Returns the constants of a transmission mode.
pub fn get_dab_parameters(transmission_mode: DabTransmissionMode) -> (params: DabParameters)
    ensures
        params == dab_parameters_of(transmission_mode),
        params.consistent(),
{
    match transmission_mode {
        DabTransmissionMode::I => DabParameters {
            nb_symbols: 76,
            nb_null_period: 2656,
            nb_symbol_period: 2552,
            nb_fft: 2048,
            nb_fft_data_carriers: 1536,
            nb_fic_symbols: 3,
            nb_msc_symbols: 72,
            nb_fibs_in_fic: 12,
            nb_cifs_in_msc: 4,
        },
        DabTransmissionMode::II => DabParameters {
            nb_symbols: 76,
            nb_null_period: 664,
            nb_symbol_period: 638,
            nb_fft: 512,
            nb_fft_data_carriers: 384,
            nb_fic_symbols: 3,
            nb_msc_symbols: 72,
            nb_fibs_in_fic: 3,
            nb_cifs_in_msc: 1,
        },
        DabTransmissionMode::III => DabParameters {
            nb_symbols: 153,
            nb_null_period: 345,
            nb_symbol_period: 319,
            nb_fft: 256,
            nb_fft_data_carriers: 192,
            nb_fic_symbols: 8,
            nb_msc_symbols: 144,
            nb_fibs_in_fic: 4,
            nb_cifs_in_msc: 1,
        },
        DabTransmissionMode::IV => DabParameters {
            nb_symbols: 76,
            nb_null_period: 1328,
            nb_symbol_period: 1276,
            nb_fft: 1024,
            nb_fft_data_carriers: 768,
            nb_fic_symbols: 3,
            nb_msc_symbols: 72,
            nb_fibs_in_fic: 6,
            nb_cifs_in_msc: 2,
        },
    }
}

} // verus!
