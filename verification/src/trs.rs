//! Translation, rotation and scale held together as one transform.

use crate::quat::{DQuat, Quat};
use crate::scalar::{DONE, DZERO, ONE, ZERO};
use crate::vec::{DVec3, Vec3};
use vstd::prelude::*;
use vstd::std_specs::cmp::PartialEqSpecImpl;

verus! {

/// Single-precision translation + rotation + non-uniform scale transform.
#[derive(Clone, Copy, Debug)]
pub struct Trs {
    /// Translation vector.
    pub t: Vec3,
    /// Rotation quaternion.
    pub r: Quat,
    /// *Non-uniform* scale factor.
    pub s: Vec3,
}

impl Trs {
    /// Full constructor.
    pub fn new(t: Vec3, r: Quat, s: Vec3) -> (trs: Self)
        ensures
            trs == (Trs { t, r, s }),
    {
        Trs { t, r, s }
    }

    /// Identity constructor: no translation, no rotation, scale one on every axis.
    pub fn identity() -> (trs: Self)
        ensures
            trs == Trs::unit(),
    {
        Trs { t: Vec3::zero(), r: Quat::identity(), s: Vec3::from(ONE) }
    }

    /// The identity transform: translation zero, rotation the identity
    /// quaternion, scale one on every axis.
    pub open spec fn unit() -> Self {
        Trs { t: Vec3::splat(ZERO), r: Quat::unit(), s: Vec3::splat(ONE) }
    }

    /// IEEE equality of the three parts: what `==` computes.
    pub open spec fn same(self, other: Self) -> bool {
        &&& self.t.same(other.t)
        &&& self.r.same(other.r)
        &&& self.s.same(other.s)
    }
}

impl Default for Trs {
    /// The identity transform.
    fn default() -> (trs: Self)
        ensures
            trs == Trs::unit(),
    {
        Trs::identity()
    }
}

impl PartialEq for Trs {
    fn eq(&self, other: &Self) -> (r: bool) {
        self.t == other.t && self.r == other.r && self.s == other.s
    }
}

impl PartialEqSpecImpl for Trs {
    open spec fn obeys_eq_spec() -> bool {
        true
    }

    open spec fn eq_spec(&self, other: &Self) -> bool {
        self.same(*other)
    }
}

/// Double-precision translation + rotation + non-uniform scale transform.
#[derive(Clone, Copy, Debug)]
pub struct DTrs {
    /// Translation vector.
    pub t: DVec3,
    /// Rotation quaternion.
    pub r: DQuat,
    /// *Non-uniform* scale factor.
    pub s: DVec3,
}

impl DTrs {
    /// Full constructor.
    pub fn new(t: DVec3, r: DQuat, s: DVec3) -> (trs: Self)
        ensures
            trs == (DTrs { t, r, s }),
    {
        DTrs { t, r, s }
    }

    /// Identity constructor: no translation, no rotation, scale one on every axis.
    pub fn identity() -> (trs: Self)
        ensures
            trs == DTrs::unit(),
    {
        DTrs { t: DVec3::zero(), r: DQuat::identity(), s: DVec3::from(DONE) }
    }

    /// The identity transform: translation zero, rotation the identity
    /// quaternion, scale one on every axis.
    pub open spec fn unit() -> Self {
        DTrs { t: DVec3::splat(DZERO), r: DQuat::unit(), s: DVec3::splat(DONE) }
    }

    /// IEEE equality of the three parts: what `==` computes.
    pub open spec fn same(self, other: Self) -> bool {
        &&& self.t.same(other.t)
        &&& self.r.same(other.r)
        &&& self.s.same(other.s)
    }
}

impl Default for DTrs {
    /// The identity transform.
    fn default() -> (trs: Self)
        ensures
            trs == DTrs::unit(),
    {
        DTrs::identity()
    }
}

impl PartialEq for DTrs {
    fn eq(&self, other: &Self) -> (r: bool) {
        self.t == other.t && self.r == other.r && self.s == other.s
    }
}

impl PartialEqSpecImpl for DTrs {
    open spec fn obeys_eq_spec() -> bool {
        true
    }

    open spec fn eq_spec(&self, other: &Self) -> bool {
        self.same(*other)
    }
}

} // verus!
