//! The ways in which the simulation refuses to go on.

use vstd::prelude::*;

verus! {

/// Why a request to the simulation was refused.
#[derive(Clone, Copy, Debug, PartialEq, Eq, Structural)]
pub enum SimError {
    /// The mass matrix of the equations of motion is singular, or the
    /// integration produced numbers that are not finite. The step is lost;
    /// the simulation keeps the state it had.
    DegenerateConfiguration,
    /// A mass, a length or a time step is not a finite, strictly positive
    /// number, or another numeric parameter is not finite.
    InvalidInput,
}

} // verus!
