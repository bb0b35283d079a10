use vstd::prelude::*;

verus! {

/// The ways a primitive operation on the radio can fail.
#[derive(Clone, Copy, Debug, PartialEq, Eq)]
pub enum RadioError {
    /// The bus transfer or transaction failed.
    SPI,
    /// The chip did not signal ready.
    Busy,
}

} // verus!
