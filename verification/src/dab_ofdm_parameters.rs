use crate::dab_parameters::{dab_parameters_of, get_dab_parameters};
use crate::dab_transmission_modes::DabTransmissionMode;
use crate::ofdm_parameters::OfdmParameters;
use vstd::prelude::*;

verus! {

/// Returns the OFDM frame structure of a DAB transmission mode.
pub fn get_dab_ofdm_parameters(transmission_mode: DabTransmissionMode) -> (params: OfdmParameters)
    ensures
        params.wf(),
        params.nb_symbols == dab_parameters_of(transmission_mode).nb_symbols,
        params.nb_null_period == dab_parameters_of(transmission_mode).nb_null_period,
        params.nb_symbol_period == dab_parameters_of(transmission_mode).nb_symbol_period,
        params.nb_fft == dab_parameters_of(transmission_mode).nb_fft,
        params.nb_fft_data_carriers == dab_parameters_of(transmission_mode).nb_fft_data_carriers,
{
    let params = get_dab_parameters(transmission_mode);
    OfdmParameters::new(
        params.nb_symbols,
        params.nb_null_period,
        params.nb_symbol_period,
        params.nb_fft,
        params.nb_fft_data_carriers,
    )
}

} // verus!
