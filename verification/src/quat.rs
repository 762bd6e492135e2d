//! Quaternions.
//!
//! A quaternion is a plain aggregate of four scalars. Nothing here asks that it
//! has unit length.

use crate::scalar::{eq32, eq64, same32, same64, DONE, DZERO, ONE, ZERO};
use vstd::prelude::*;
use vstd::std_specs::cmp::PartialEqSpecImpl;
use vstd::std_specs::convert::FromSpec;

verus! {

/// Single-precision quaternion: vector part `x`, `y`, `z` and scalar part `s`.
#[derive(Clone, Copy, Debug)]
pub struct Quat {
    pub x: u32,
    pub y: u32,
    pub z: u32,
    pub s: u32,
}

impl View for Quat {
    type V = Seq<u32>;

    /// The vector part followed by the scalar part.
    open spec fn view(&self) -> Seq<u32> {
        seq![self.x, self.y, self.z, self.s]
    }
}

impl Quat {
    /// Full constructor.
    pub fn new(x: u32, y: u32, z: u32, s: u32) -> (q: Self)
        ensures
            q == (Quat { x, y, z, s }),
    {
        Quat { x, y, z, s }
    }

    /// Identity constructor: the rotation that moves nothing.
    pub fn identity() -> (q: Self)
        ensures
            q == Quat::unit(),
    {
        Quat::new(ZERO, ZERO, ZERO, ONE)
    }

    /// The identity quaternion: zero vector part, scalar part one.
    pub open spec fn unit() -> Self {
        Quat { x: ZERO, y: ZERO, z: ZERO, s: ONE }
    }

    /// The quaternion whose parts are the entries of `a`: vector part first.
    pub open spec fn of_array(a: [u32; 4]) -> Self {
        Quat { x: a[0], y: a[1], z: a[2], s: a[3] }
    }

    /// The parts as an array: vector part first, scalar part last.
    pub open spec fn array(self) -> [u32; 4] {
        [self.x, self.y, self.z, self.s]
    }

    /// IEEE equality of all four parts: what `==` computes.
    pub open spec fn same(self, other: Self) -> bool {
        &&& same32(self.x, other.x)
        &&& same32(self.y, other.y)
        &&& same32(self.z, other.z)
        &&& same32(self.s, other.s)
    }

    /// An array turned into a quaternion and back is the array again.
    pub proof fn lemma_array_round_trip(a: [u32; 4])
        ensures
            <[u32; 4]>::from_spec(Quat::from_spec(a)) == a,
            Quat::of_array(a).array() == a,
            Quat::of_array(a)@ == a@,
    {
        assert(Quat::of_array(a).array() =~= a);
        assert(Quat::of_array(a)@ =~= a@);
    }

    /// A quaternion turned into an array and back is the quaternion again.
    pub proof fn lemma_quaternion_round_trip(q: Self)
        ensures
            Quat::from_spec(<[u32; 4]>::from_spec(q)) == q,
            Quat::of_array(q.array()) == q,
            q.array()@ == q@,
    {
        assert(q.array()@ =~= q@);
    }
}

impl Default for Quat {
    /// The identity quaternion.
    fn default() -> (q: Self)
        ensures
            q == Quat::unit(),
    {
        Quat::identity()
    }
}

impl PartialEq for Quat {
    fn eq(&self, other: &Self) -> (r: bool) {
        eq32(self.x, other.x) && eq32(self.y, other.y) && eq32(self.z, other.z) && eq32(
            self.s,
            other.s,
        )
    }
}

impl PartialEqSpecImpl for Quat {
    open spec fn obeys_eq_spec() -> bool {
        true
    }

    open spec fn eq_spec(&self, other: &Self) -> bool {
        self.same(*other)
    }
}

impl From<[u32; 4]> for Quat {
    /// Reads the parts from an array: vector part first, scalar part last.
    fn from(q: [u32; 4]) -> (r: Self) {
        Quat::new(q[0], q[1], q[2], q[3])
    }
}

impl vstd::std_specs::convert::FromSpecImpl<[u32; 4]> for Quat {
    open spec fn obeys_from_spec() -> bool {
        true
    }

    open spec fn from_spec(q: [u32; 4]) -> Self {
        Quat::of_array(q)
    }
}

impl From<Quat> for [u32; 4] {
    /// Writes the parts to an array: vector part first, scalar part last.
    fn from(q: Quat) -> (r: Self) {
        [q.x, q.y, q.z, q.s]
    }
}

impl vstd::std_specs::convert::FromSpecImpl<Quat> for [u32; 4] {
    open spec fn obeys_from_spec() -> bool {
        true
    }

    open spec fn from_spec(q: Quat) -> Self {
        q.array()
    }
}

/// Double-precision quaternion: vector part `x`, `y`, `z` and scalar part `s`.
#[derive(Clone, Copy, Debug)]
pub struct DQuat {
    pub x: u64,
    pub y: u64,
    pub z: u64,
    pub s: u64,
}

impl View for DQuat {
    type V = Seq<u64>;

    /// The vector part followed by the scalar part.
    open spec fn view(&self) -> Seq<u64> {
        seq![self.x, self.y, self.z, self.s]
    }
}

impl DQuat {
    /// Full constructor.
    pub fn new(x: u64, y: u64, z: u64, s: u64) -> (q: Self)
        ensures
            q == (DQuat { x, y, z, s }),
    {
        DQuat { x, y, z, s }
    }

    /// Identity constructor: the rotation that moves nothing.
    pub fn identity() -> (q: Self)
        ensures
            q == DQuat::unit(),
    {
        DQuat::new(DZERO, DZERO, DZERO, DONE)
    }

    /// The identity quaternion: zero vector part, scalar part one.
    pub open spec fn unit() -> Self {
        DQuat { x: DZERO, y: DZERO, z: DZERO, s: DONE }
    }

    /// The quaternion whose parts are the entries of `a`: vector part first.
    pub open spec fn of_array(a: [u64; 4]) -> Self {
        DQuat { x: a[0], y: a[1], z: a[2], s: a[3] }
    }

    /// The parts as an array: vector part first, scalar part last.
    pub open spec fn array(self) -> [u64; 4] {
        [self.x, self.y, self.z, self.s]
    }

    /// IEEE equality of all four parts: what `==` computes.
    pub open spec fn same(self, other: Self) -> bool {
        &&& same64(self.x, other.x)
        &&& same64(self.y, other.y)
        &&& same64(self.z, other.z)
        &&& same64(self.s, other.s)
    }

    /// An array turned into a quaternion and back is the array again.
    pub proof fn lemma_array_round_trip(a: [u64; 4])
        ensures
            <[u64; 4]>::from_spec(DQuat::from_spec(a)) == a,
            DQuat::of_array(a).array() == a,
            DQuat::of_array(a)@ == a@,
    {
        assert(DQuat::of_array(a).array() =~= a);
        assert(DQuat::of_array(a)@ =~= a@);
    }

    /// A quaternion turned into an array and back is the quaternion again.
    pub proof fn lemma_quaternion_round_trip(q: Self)
        ensures
            DQuat::from_spec(<[u64; 4]>::from_spec(q)) == q,
            DQuat::of_array(q.array()) == q,
            q.array()@ == q@,
    {
        assert(q.array()@ =~= q@);
    }
}

impl Default for DQuat {
    /// The identity quaternion.
    fn default() -> (q: Self)
        ensures
            q == DQuat::unit(),
    {
        DQuat::identity()
    }
}

impl PartialEq for DQuat {
    fn eq(&self, other: &Self) -> (r: bool) {
        eq64(self.x, other.x) && eq64(self.y, other.y) && eq64(self.z, other.z) && eq64(
            self.s,
            other.s,
        )
    }
}

impl PartialEqSpecImpl for DQuat {
    open spec fn obeys_eq_spec() -> bool {
        true
    }

    open spec fn eq_spec(&self, other: &Self) -> bool {
        self.same(*other)
    }
}

impl From<[u64; 4]> for DQuat {
    /// Reads the parts from an array: vector part first, scalar part last.
    fn from(q: [u64; 4]) -> (r: Self) {
        DQuat::new(q[0], q[1], q[2], q[3])
    }
}

impl vstd::std_specs::convert::FromSpecImpl<[u64; 4]> for DQuat {
    open spec fn obeys_from_spec() -> bool {
        true
    }

    open spec fn from_spec(q: [u64; 4]) -> Self {
        DQuat::of_array(q)
    }
}

impl From<DQuat> for [u64; 4] {
    /// Writes the parts to an array: vector part first, scalar part last.
    fn from(q: DQuat) -> (r: Self) {
        [q.x, q.y, q.z, q.s]
    }
}

impl vstd::std_specs::convert::FromSpecImpl<DQuat> for [u64; 4] {
    open spec fn obeys_from_spec() -> bool {
        true
    }

    open spec fn from_spec(q: DQuat) -> Self {
        q.array()
    }
}

} // verus!
