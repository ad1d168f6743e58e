//! The physical description of one link of the pendulum.

use vstd::prelude::*;
use crate::error::SimError;
use crate::scalar::Scalar;

verus! {

/// A rigid, massless rod with a point mass at its free end.
///
/// Both the mass and the length of a link are finite and strictly positive;
/// [`LinkParameters::new`] admits no other values and nothing changes them
/// afterwards.
#[derive(Clone, Copy, Debug)]
pub struct LinkParameters {
    mass: Scalar,
    length: Scalar,
}

impl LinkParameters {
    /// The point mass at the end of the link.
    pub closed spec fn mass_value(self) -> Scalar {
        self.mass
    }

    /// The length of the rod.
    pub closed spec fn length_value(self) -> Scalar {
        self.length
    }

    /// What holds of every link: its mass and its length are finite and
    /// strictly positive.
    #[verifier::type_invariant]
    pub closed spec fn valid(self) -> bool {
        self.mass.positive() && self.length.positive()
    }

    /// Whether `mass` and `length` describe a link.
    pub open spec fn admissible(mass: Scalar, length: Scalar) -> bool {
        mass.positive() && length.positive()
    }

    /// A link of the given mass and length.
    ///
    /// Fails with [`SimError::InvalidInput`] exactly when the mass or the
    /// length is not a finite, strictly positive number.
    pub fn new(mass: Scalar, length: Scalar) -> (r: Result<LinkParameters, SimError>)
        ensures
            Self::admissible(mass, length) ==> r is Ok,
            r matches Ok(link) ==> {
                &&& Self::admissible(mass, length)
                &&& link.valid()
                &&& link.mass_value() == mass
                &&& link.length_value() == length
            },
            r matches Err(e) ==> e == SimError::InvalidInput,
    {
        if mass.is_positive() && length.is_positive() {
            Ok(LinkParameters { mass, length })
        } else {
            Err(SimError::InvalidInput)
        }
    }

    /// The point mass at the end of the link: finite and strictly positive.
    pub fn mass(&self) -> (m: Scalar)
        ensures
            m == self.mass_value(),
            m.positive(),
    {
        proof {
            use_type_invariant(self);
        }
        self.mass
    }

    /// The length of the rod: finite and strictly positive.
    pub fn length(&self) -> (l: Scalar)
        ensures
            l == self.length_value(),
            l.positive(),
    {
        proof {
            use_type_invariant(self);
        }
        self.length
    }
}

/// A valid link has a finite, strictly positive mass and length.
pub proof fn lemma_valid_link_is_positive(link: LinkParameters)
    requires
        link.valid(),
    ensures
        link.mass_value().positive(),
        link.length_value().positive(),
{
}

} // verus!
