use vstd::prelude::*;

verus! {

/// The four transmission modes of a DAB ensemble.
#[derive(Debug, Clone, Copy, PartialEq, Eq, Structural)]
pub enum DabTransmissionMode {
    I,
    II,
    III,
    IV,
}

/// The transmission mode that a number from 1 to 4 stands for.
pub open spec fn transmission_mode_of_index(index: u32) -> Option<DabTransmissionMode> {
    if index == 1 {
        Some(DabTransmissionMode::I)
    } else if index == 2 {
        Some(DabTransmissionMode::II)
    } else if index == 3 {
        Some(DabTransmissionMode::III)
    } else if index == 4 {
        Some(DabTransmissionMode::IV)
    } else {
        None
    }
}

/// Returns the transmission mode that a number from 1 to 4 stands for,
/// and `None` for any other number.
pub fn get_transmission_mode(index: u32) -> (mode: Option<DabTransmissionMode>)
    ensures
        mode == transmission_mode_of_index(index),
{
    match index {
        1 => Some(DabTransmissionMode::I),
        2 => Some(DabTransmissionMode::II),
        3 => Some(DabTransmissionMode::III),
        4 => Some(DabTransmissionMode::IV),
        _ => None,
    }
}

} // verus!
