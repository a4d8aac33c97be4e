use crate::dab_radio_parameters::DabRadioParameters;
use vstd::prelude::*;

verus! {

/// Walks the soft decision bits of the fast information channel group by
/// group. The groups are only delimited, not yet decoded.
pub struct FicDecoder {
    params: DabRadioParameters,
}

impl FicDecoder {
    /// The bit budget that the decoder was made for.
    pub closed spec fn params(&self) -> DabRadioParameters {
        self.params
    }

    /// Creates a decoder for a bit budget.
    pub fn new(params: DabRadioParameters) -> (decoder: Self)
        ensures
            decoder.params() == params,
    {
        Self { params }
    }

    /// Takes the bits of one fast information channel and hands each of
    /// its groups on. The decoder does not change.
    pub fn decode_fic(&mut self, buf: &[i8])
        requires
            buf@.len() == old(self).params().nb_bits_in_fic,
            old(self).params().nb_bits_per_fig > 0,
        ensures
            *final(self) == *old(self),
    {
        let group_size: usize = self.params.nb_bits_per_fig;
        let mut start: usize = 0;
        while buf.len() - start >= group_size
            invariant
                start <= buf@.len(),
                group_size == self.params.nb_bits_per_fig,
                group_size > 0,
                *self == *old(self),
            decreases buf@.len() - start,
        {
            let fig = vstd::slice::slice_subrange(buf, start, start + group_size);
            self.decode_fig(fig);
            start += group_size;
        }
    }

    /// Takes the bits of one fast information group.
    fn decode_fig(&mut self, buf: &[i8])
        requires
            buf@.len() == old(self).params().nb_bits_per_fig,
        ensures
            *final(self) == *old(self),
    {
    }
}

} // verus!
