//! Why a colour literal was not understood.

use vstd::prelude::*;

verus! {

#[derive(Clone, Copy, Debug, PartialEq, Eq)]
pub enum ParseError {
    /// The literal has neither three nor six digits.
    Length,
    /// A character of the literal is not a hexadecimal digit.
    Digit,
}

} // verus!
