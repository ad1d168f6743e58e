//! The numeric records that the simulation exchanges with its host: the
//! angular state of the pendulum and the screen positions derived from it.

use vstd::prelude::*;
use crate::scalar::Scalar;

verus! {

/// The instantaneous configuration of one link: its angle from the
/// downward vertical, in radians, and its angular velocity.
#[derive(Clone, Copy, Debug, PartialEq, Eq, Structural)]
pub struct AngularState {
    pub theta: Scalar,
    pub omega: Scalar,
}

/// The state of the whole pendulum: the angular velocities of both links,
/// then their angles.
#[derive(Clone, Copy, Debug, PartialEq, Eq, Structural)]
pub struct DynamicalState {
    pub omega1: Scalar,
    pub omega2: Scalar,
    pub theta1: Scalar,
    pub theta2: Scalar,
}

impl DynamicalState {
    /// Whether all four components are finite.
    pub open spec fn finite(self) -> bool {
        &&& self.omega1.finite()
        &&& self.omega2.finite()
        &&& self.theta1.finite()
        &&& self.theta2.finite()
    }

    /// The state in which link 1 is in configuration `first` and link 2 in
    /// configuration `second`.
    pub open spec fn joined(first: AngularState, second: AngularState) -> DynamicalState {
        DynamicalState {
            omega1: first.omega,
            omega2: second.omega,
            theta1: first.theta,
            theta2: second.theta,
        }
    }

    /// Assembles the state of the pendulum from the states of its links.
    pub fn from_links(first: AngularState, second: AngularState) -> (s: DynamicalState)
        ensures
            s == Self::joined(first, second),
    {
        DynamicalState {
            omega1: first.omega,
            omega2: second.omega,
            theta1: first.theta,
            theta2: second.theta,
        }
    }

    /// Decides whether all four components are finite.
    pub fn is_finite(&self) -> (r: bool)
        ensures
            r == self.finite(),
    {
        self.omega1.is_finite() && self.omega2.is_finite() && self.theta1.is_finite()
            && self.theta2.is_finite()
    }
}

/// A point of the screen.
#[derive(Clone, Copy, Debug, PartialEq, Eq, Structural)]
pub struct Point {
    pub x: Scalar,
    pub y: Scalar,
}

impl Point {
    /// Whether both coordinates are finite.
    pub open spec fn finite(self) -> bool {
        self.x.finite() && self.y.finite()
    }

    /// Decides whether both coordinates are finite.
    pub fn is_finite(&self) -> (r: bool)
        ensures
            r == self.finite(),
    {
        self.x.is_finite() && self.y.is_finite()
    }
}

/// Where the two point masses are drawn: `pivot1` is the free end of link 1,
/// at which link 2 hangs, and `pivot2` the free end of link 2, the tip.
#[derive(Clone, Copy, Debug, PartialEq, Eq, Structural)]
pub struct PositionPair {
    pub pivot1: Point,
    pub pivot2: Point,
}

impl PositionPair {
    /// Whether both points are finite.
    pub open spec fn finite(self) -> bool {
        self.pivot1.finite() && self.pivot2.finite()
    }

    /// Decides whether both points are finite.
    pub fn is_finite(&self) -> (r: bool)
        ensures
            r == self.finite(),
    {
        self.pivot1.is_finite() && self.pivot2.is_finite()
    }

    /// The tip of the pendulum, whose path the trail shows.
    pub fn tip(&self) -> (p: Point)
        ensures
            p == self.pivot2,
    {
        self.pivot2
    }
}

} // verus!
