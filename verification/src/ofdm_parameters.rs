use vstd::prelude::*;

verus! {

/// Describes the structure of an OFDM frame: one NULL symbol followed by
/// `nb_symbols` data symbols, the first of which is the phase reference
/// symbol. Differential demodulation leaves `nb_symbols - 1` symbols.
#[derive(Debug, Clone, Copy)]
pub struct OfdmParameters {
    /// Number of OFDM data symbols in a transmission frame.
    pub nb_symbols: usize,
    /// Duration of the NULL symbol in samples.
    pub nb_null_period: usize,
    /// Duration of one OFDM data symbol in samples.
    pub nb_symbol_period: usize,
    /// Duration of the cyclic prefix of a data symbol in samples.
    pub nb_cyclic_prefix: usize,
    /// Size of the FFT of a data symbol.
    pub nb_fft: usize,
    /// Number of FFT bins that carry data, centred around DC.
    pub nb_fft_data_carriers: usize,
    /// Number of differentially demodulated symbols per frame.
    pub nb_dqpsk_symbols: usize,
    /// Number of complex output samples per frame.
    pub nb_output_samples: usize,
    /// Number of soft decision bits per frame.
    pub nb_output_bits: usize,
    /// Number of complex input samples per frame.
    pub nb_input_samples: usize,
}

impl OfdmParameters {
    /// The five chosen sizes are admissible: enough symbols for differential
    /// demodulation, a symbol no shorter than its FFT, no more data carriers
    /// than FFT bins, and every derived size representable.
    pub open spec fn sizes_valid(
        nb_symbols: usize,
        nb_null_period: usize,
        nb_symbol_period: usize,
        nb_fft: usize,
        nb_fft_data_carriers: usize,
    ) -> bool {
        &&& nb_symbols >= 2
        &&& nb_symbol_period >= nb_fft
        &&& nb_fft >= nb_fft_data_carriers
        &&& nb_null_period + nb_symbol_period * nb_symbols <= usize::MAX
        &&& nb_symbols * nb_fft <= usize::MAX
        &&& 2 * ((nb_symbols - 1) * nb_fft_data_carriers) <= usize::MAX
    }

    /// Every derived field agrees with the five chosen sizes.
    pub open spec fn wf(&self) -> bool {
        &&& Self::sizes_valid(
            self.nb_symbols,
            self.nb_null_period,
            self.nb_symbol_period,
            self.nb_fft,
            self.nb_fft_data_carriers,
        )
        &&& self.nb_cyclic_prefix == self.nb_symbol_period - self.nb_fft
        &&& self.nb_dqpsk_symbols == self.nb_symbols - 1
        &&& self.nb_output_samples == self.nb_dqpsk_symbols * self.nb_fft_data_carriers
        &&& self.nb_output_bits == 2 * self.nb_output_samples
        &&& self.nb_input_samples == self.nb_null_period + self.nb_symbol_period
            * self.nb_symbols
    }

    /// Tests whether five sizes are admissible.
    pub fn are_sizes_valid(
        nb_symbols: usize,
        nb_null_period: usize,
        nb_symbol_period: usize,
        nb_fft: usize,
        nb_fft_data_carriers: usize,
    ) -> (valid: bool)
        ensures
            valid == Self::sizes_valid(
                nb_symbols,
                nb_null_period,
                nb_symbol_period,
                nb_fft,
                nb_fft_data_carriers,
            ),
    {
        if nb_symbols < 2 || nb_symbol_period < nb_fft || nb_fft < nb_fft_data_carriers {
            return false;
        }
        let frame_fits = match nb_symbol_period.checked_mul(nb_symbols) {
            Some(symbols) => nb_null_period.checked_add(symbols).is_some(),
            None => false,
        };
        proof {
            if nb_symbol_period * nb_symbols > usize::MAX {
                assert(nb_null_period + nb_symbol_period * nb_symbols > usize::MAX);
            }
        }
        let spectra_fit = nb_symbols.checked_mul(nb_fft).is_some();
        let bits_fit = match (nb_symbols - 1).checked_mul(nb_fft_data_carriers) {
            Some(samples) => samples.checked_mul(2).is_some(),
            None => false,
        };
        frame_fits && spectra_fit && bits_fit
    }

    /// Tests whether every derived field agrees with the five chosen sizes.
    pub fn is_wf(&self) -> (valid: bool)
        ensures
            valid == self.wf(),
    {
        if !Self::are_sizes_valid(
            self.nb_symbols,
            self.nb_null_period,
            self.nb_symbol_period,
            self.nb_fft,
            self.nb_fft_data_carriers,
        ) {
            return false;
        }
        proof {
            assert(self.nb_symbol_period * self.nb_symbols <= usize::MAX) by (nonlinear_arith)
                requires
                    self.nb_null_period + self.nb_symbol_period * self.nb_symbols <= usize::MAX,
            ;
            assert((self.nb_symbols - 1) * self.nb_fft_data_carriers <= usize::MAX)
                by (nonlinear_arith)
                requires
                    2 * ((self.nb_symbols - 1) * self.nb_fft_data_carriers) <= usize::MAX,
                    self.nb_symbols >= 2,
            ;
        }
        self.nb_cyclic_prefix == self.nb_symbol_period - self.nb_fft && self.nb_dqpsk_symbols
            == self.nb_symbols - 1 && self.nb_output_samples == (self.nb_symbols - 1)
            * self.nb_fft_data_carriers && self.nb_output_bits == 2 * ((self.nb_symbols - 1)
            * self.nb_fft_data_carriers) && self.nb_input_samples == self.nb_null_period
            + self.nb_symbol_period * self.nb_symbols
    }

    /// A frame holds its NULL symbol and every one of its symbols: the NULL
    /// symbol and two symbols fit into the samples of a frame, and so does
    /// the NULL symbol that follows the last symbol.
    pub proof fn lemma_frame_holds_symbols(&self)
        requires
            self.wf(),
        ensures
            self.nb_null_period + 2 * self.nb_symbol_period <= self.nb_input_samples,
            self.nb_symbols * self.nb_symbol_period + self.nb_null_period == self.nb_input_samples,
            self.nb_cyclic_prefix + self.nb_fft == self.nb_symbol_period,
            self.nb_input_samples <= usize::MAX,
    {
        assert(2 * self.nb_symbol_period <= self.nb_symbol_period * self.nb_symbols)
            by (nonlinear_arith)
            requires
                self.nb_symbols >= 2,
        ;
        assert(self.nb_symbols * self.nb_symbol_period == self.nb_symbol_period * self.nb_symbols)
            by (nonlinear_arith);
    }

    /// Creates all derived parameters from the five chosen sizes.
    pub fn new(
        nb_symbols: usize,
        nb_null_period: usize,
        nb_symbol_period: usize,
        nb_fft: usize,
        nb_fft_data_carriers: usize,
    ) -> (params: Self)
        requires
            Self::sizes_valid(
                nb_symbols,
                nb_null_period,
                nb_symbol_period,
                nb_fft,
                nb_fft_data_carriers,
            ),
        ensures
            params.wf(),
            params.nb_symbols == nb_symbols,
            params.nb_null_period == nb_null_period,
            params.nb_symbol_period == nb_symbol_period,
            params.nb_fft == nb_fft,
            params.nb_fft_data_carriers == nb_fft_data_carriers,
    {
        assert(nb_symbol_period * nb_symbols <= usize::MAX) by (nonlinear_arith)
            requires
                nb_null_period + nb_symbol_period * nb_symbols <= usize::MAX,
        ;
        assert((nb_symbols - 1) * nb_fft_data_carriers <= usize::MAX) by (nonlinear_arith)
            requires
                2 * ((nb_symbols - 1) * nb_fft_data_carriers) <= usize::MAX,
                nb_symbols >= 2,
        ;
        let nb_input_samples: usize = nb_null_period + nb_symbol_period * nb_symbols;
        let nb_cyclic_prefix: usize = nb_symbol_period - nb_fft;
        let nb_dqpsk_symbols: usize = nb_symbols - 1;
        let nb_output_samples: usize = nb_dqpsk_symbols * nb_fft_data_carriers;
        let nb_output_bits: usize = nb_output_samples * 2;
        Self {
            nb_symbols,
            nb_null_period,
            nb_symbol_period,
            nb_fft,
            nb_fft_data_carriers,
            nb_cyclic_prefix,
            nb_dqpsk_symbols,
            nb_output_samples,
            nb_output_bits,
            nb_input_samples,
        }
    }
}

} // verus!
