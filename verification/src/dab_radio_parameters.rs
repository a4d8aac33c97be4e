use crate::dab_parameters::{dab_parameters_of, get_dab_parameters};
use crate::dab_transmission_modes::DabTransmissionMode;
use vstd::prelude::*;

verus! {

/// The bit budget of a DAB frame after demodulation: how its soft bits divide
/// into the fast information channel (FIC) and the main service channel
/// (MSC), and those into blocks (FIB), groups (FIG) and interleaved frames
/// (CIF).
#[derive(Debug, Clone, Copy)]
pub struct DabRadioParameters {
    /// Number of demodulated symbols per frame.
    pub nb_symbols: usize,
    /// Number of symbols of the FIC.
    pub nb_fic_symbols: usize,
    /// Number of symbols of the MSC.
    pub nb_msc_symbols: usize,
    /// Number of FIBs in the FIC.
    pub nb_fibs_in_fic: usize,
    /// Number of CIFs in the MSC.
    pub nb_cifs_in_msc: usize,
    /// Number of bits per symbol.
    pub nb_bits_per_symbol: usize,
    /// Number of bits per frame.
    pub nb_bits_per_frame: usize,
    /// Number of bits in the FIC.
    pub nb_bits_in_fic: usize,
    /// Number of bits in the MSC.
    pub nb_bits_in_msc: usize,
    /// Number of bits per FIB.
    pub nb_bits_per_fib: usize,
    /// Number of bits per FIG.
    pub nb_bits_per_fig: usize,
    /// Number of bits per CIF.
    pub nb_bits_per_cif: usize,
}

/// The bit budget that follows from the constants of a transmission mode,
/// with two bits per data carrier.
pub open spec fn dab_radio_parameters_of(
    transmission_mode: DabTransmissionMode,
) -> DabRadioParameters {
    let p = dab_parameters_of(transmission_mode);
    let bits_per_symbol = p.nb_fft_data_carriers * 2;
    DabRadioParameters {
        nb_symbols: (p.nb_symbols - 1) as usize,
        nb_fic_symbols: p.nb_fic_symbols,
        nb_msc_symbols: p.nb_msc_symbols,
        nb_fibs_in_fic: p.nb_fibs_in_fic,
        nb_cifs_in_msc: p.nb_cifs_in_msc,
        nb_bits_per_symbol: bits_per_symbol as usize,
        nb_bits_per_frame: (bits_per_symbol * (p.nb_symbols - 1)) as usize,
        nb_bits_in_fic: (p.nb_fic_symbols * bits_per_symbol) as usize,
        nb_bits_in_msc: (p.nb_msc_symbols * bits_per_symbol) as usize,
        nb_bits_per_fib: (p.nb_fic_symbols * bits_per_symbol / p.nb_fibs_in_fic as int) as usize,
        nb_bits_per_fig: (p.nb_fic_symbols * bits_per_symbol / p.nb_cifs_in_msc as int) as usize,
        nb_bits_per_cif: (p.nb_msc_symbols * bits_per_symbol / p.nb_cifs_in_msc as int) as usize,
    }
}

/// Returns the bit budget of a frame for a transmission mode.
pub fn get_dab_radio_parameters(transmission_mode: DabTransmissionMode) -> (params:
    DabRadioParameters)
    ensures
        params == dab_radio_parameters_of(transmission_mode),
        params.nb_symbols == params.nb_fic_symbols + params.nb_msc_symbols,
        params.nb_bits_per_frame == params.nb_bits_in_fic + params.nb_bits_in_msc,
        params.nb_bits_per_fig > 0,
        params.nb_bits_in_fic % params.nb_bits_per_fig == 0,
{
    let params = get_dab_parameters(transmission_mode);
    proof {
        let p = params;
        let b = p.nb_fft_data_carriers * 2;
        let n = p.nb_symbols - 1;
        match transmission_mode {
            DabTransmissionMode::I => {
                assert(b == 3072);
                assert(b * n == 230400) by (nonlinear_arith)
                    requires
                        b == 3072,
                        n == 75,
                ;
                assert(p.nb_fic_symbols * b == 9216) by (nonlinear_arith)
                    requires
                        b == 3072,
                        p.nb_fic_symbols == 3,
                ;
                assert(p.nb_msc_symbols * b == 221184) by (nonlinear_arith)
                    requires
                        b == 3072,
                        p.nb_msc_symbols == 72,
                ;
                assert(9216int / 4 == 2304);
                assert(9216int % 2304 == 0);
            },
            DabTransmissionMode::II => {
                assert(b == 768);
                assert(b * n == 57600) by (nonlinear_arith)
                    requires
                        b == 768,
                        n == 75,
                ;
                assert(p.nb_fic_symbols * b == 2304) by (nonlinear_arith)
                    requires
                        b == 768,
                        p.nb_fic_symbols == 3,
                ;
                assert(p.nb_msc_symbols * b == 55296) by (nonlinear_arith)
                    requires
                        b == 768,
                        p.nb_msc_symbols == 72,
                ;
                assert(2304int / 1 == 2304);
                assert(2304int % 2304 == 0);
            },
            DabTransmissionMode::III => {
                assert(b == 384);
                assert(b * n == 58368) by (nonlinear_arith)
                    requires
                        b == 384,
                        n == 152,
                ;
                assert(p.nb_fic_symbols * b == 3072) by (nonlinear_arith)
                    requires
                        b == 384,
                        p.nb_fic_symbols == 8,
                ;
                assert(p.nb_msc_symbols * b == 55296) by (nonlinear_arith)
                    requires
                        b == 384,
                        p.nb_msc_symbols == 144,
                ;
                assert(3072int / 1 == 3072);
                assert(3072int % 3072 == 0);
            },
            DabTransmissionMode::IV => {
                assert(b == 1536);
                assert(b * n == 115200) by (nonlinear_arith)
                    requires
                        b == 1536,
                        n == 75,
                ;
                assert(p.nb_fic_symbols * b == 4608) by (nonlinear_arith)
                    requires
                        b == 1536,
                        p.nb_fic_symbols == 3,
                ;
                assert(p.nb_msc_symbols * b == 110592) by (nonlinear_arith)
                    requires
                        b == 1536,
                        p.nb_msc_symbols == 72,
                ;
                assert(4608int / 2 == 2304);
                assert(4608int % 2304 == 0);
            },
        }
    }
    let bits_per_carrier: usize = 2;
    let nb_symbols: usize = params.nb_symbols - 1;
    let nb_fic_symbols: usize = params.nb_fic_symbols;
    let nb_msc_symbols: usize = params.nb_msc_symbols;
    let nb_fibs_in_fic: usize = params.nb_fibs_in_fic;
    let nb_cifs_in_msc: usize = params.nb_cifs_in_msc;
    let nb_bits_per_symbol: usize = params.nb_fft_data_carriers * bits_per_carrier;
    let nb_bits_per_frame: usize = nb_bits_per_symbol * nb_symbols;
    let nb_bits_in_fic: usize = nb_fic_symbols * nb_bits_per_symbol;
    let nb_bits_in_msc: usize = nb_msc_symbols * nb_bits_per_symbol;
    let nb_bits_per_fib: usize = nb_bits_in_fic / nb_fibs_in_fic;
    let nb_bits_per_fig: usize = nb_bits_in_fic / nb_cifs_in_msc;
    let nb_bits_per_cif: usize = nb_bits_in_msc / nb_cifs_in_msc;
    DabRadioParameters {
        nb_symbols,
        nb_fic_symbols,
        nb_msc_symbols,
        nb_fibs_in_fic,
        nb_cifs_in_msc,
        nb_bits_per_symbol,
        nb_bits_per_frame,
        nb_bits_in_fic,
        nb_bits_in_msc,
        nb_bits_per_fib,
        nb_bits_per_fig,
        nb_bits_per_cif,
    }
}

} // verus!
