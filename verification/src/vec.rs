//! Vectors of two, three and four components.
//!
//! A vector is a plain aggregate of scalars. Its view is the sequence of its
//! components, and every conversion is stated over the fields or that view.

use crate::precision::{lemma_widen_narrow, narrow, narrow_spec, widen, widen_spec};
use crate::scalar::{eq32, eq64, is_nan32, same32, same64, DZERO, ZERO};
use vstd::prelude::*;
use vstd::std_specs::cmp::PartialEqSpecImpl;
use vstd::std_specs::convert::FromSpec;

verus! {

/// Single-precision 2D vector.
#[derive(Clone, Copy, Debug)]
pub struct Vec2 {
    pub x: u32,
    pub y: u32,
}

impl View for Vec2 {
    type V = Seq<u32>;

    /// The components in order.
    open spec fn view(&self) -> Seq<u32> {
        seq![self.x, self.y]
    }
}

impl Vec2 {
    /// Full constructor.
    pub fn new(x: u32, y: u32) -> (v: Self)
        ensures
            v == (Vec2 { x, y }),
    {
        Vec2 { x, y }
    }

    /// Zero constructor.
    pub fn zero() -> (v: Self)
        ensures
            v == Vec2::splat(ZERO),
    {
        Vec2 { x: ZERO, y: ZERO }
    }

    /// The vector with every component equal to `s`.
    pub open spec fn splat(s: u32) -> Self {
        Vec2 { x: s, y: s }
    }

    /// The vector whose components are the entries of `a`, in order.
    pub open spec fn of_array(a: [u32; 2]) -> Self {
        Vec2 { x: a[0], y: a[1] }
    }

    /// The components as an array, in order.
    pub open spec fn array(self) -> [u32; 2] {
        [self.x, self.y]
    }

    /// IEEE equality of every pair of components: what `==` computes.
    pub open spec fn same(self, other: Self) -> bool {
        &&& same32(self.x, other.x)
        &&& same32(self.y, other.y)
    }

    /// An array turned into a vector and back is the array again.
    pub proof fn lemma_array_round_trip(a: [u32; 2])
        ensures
            <[u32; 2]>::from_spec(Vec2::from_spec(a)) == a,
            Vec2::of_array(a).array() == a,
            Vec2::of_array(a)@ == a@,
    {
        assert(Vec2::of_array(a).array() =~= a);
        assert(Vec2::of_array(a)@ =~= a@);
    }

    /// A vector turned into an array and back is the vector again.
    pub proof fn lemma_vector_round_trip(v: Self)
        ensures
            Vec2::from_spec(<[u32; 2]>::from_spec(v)) == v,
            Vec2::of_array(v.array()) == v,
            v.array()@ == v@,
    {
        assert(v.array()@ =~= v@);
    }

    /// Widening a vector and narrowing it again gives back every component
    /// that is not a NaN bit for bit, and a NaN as a NaN: a vector that equals
    /// itself comes back whole.
    pub proof fn lemma_widen_round_trip(v: Self)
        ensures
            v.same(v) ==> Vec2::from_spec(DVec2::from_spec(v)) == v,
            !is_nan32(v.x) ==> Vec2::from_spec(DVec2::from_spec(v)).x == v.x,
            is_nan32(v.x) ==> is_nan32(Vec2::from_spec(DVec2::from_spec(v)).x),
            !is_nan32(v.y) ==> Vec2::from_spec(DVec2::from_spec(v)).y == v.y,
            is_nan32(v.y) ==> is_nan32(Vec2::from_spec(DVec2::from_spec(v)).y),
    {
        lemma_widen_narrow(v.x);
        lemma_widen_narrow(v.y);
    }
}

impl Default for Vec2 {
    /// The zero vector.
    fn default() -> (v: Self)
        ensures
            v == Vec2::splat(ZERO),
    {
        Vec2::zero()
    }
}

impl PartialEq for Vec2 {
    fn eq(&self, other: &Self) -> (r: bool) {
        eq32(self.x, other.x) && eq32(self.y, other.y)
    }
}

impl PartialEqSpecImpl for Vec2 {
    open spec fn obeys_eq_spec() -> bool {
        true
    }

    open spec fn eq_spec(&self, other: &Self) -> bool {
        self.same(*other)
    }
}

impl From<u32> for Vec2 {
    /// Broadcasts one scalar to every component.
    fn from(arg: u32) -> (r: Self) {
        Vec2::new(arg, arg)
    }
}

impl vstd::std_specs::convert::FromSpecImpl<u32> for Vec2 {
    open spec fn obeys_from_spec() -> bool {
        true
    }

    open spec fn from_spec(arg: u32) -> Self {
        Vec2::splat(arg)
    }
}

impl From<u64> for Vec2 {
    /// Broadcasts one scalar of the other precision, rounded first.
    fn from(arg: u64) -> (r: Self) {
        Vec2::from(narrow(arg))
    }
}

impl vstd::std_specs::convert::FromSpecImpl<u64> for Vec2 {
    open spec fn obeys_from_spec() -> bool {
        true
    }

    open spec fn from_spec(arg: u64) -> Self {
        Vec2::splat(narrow_spec(arg))
    }
}

impl From<DVec2> for Vec2 {
    /// Rounds every component to single precision.
    fn from(arg: DVec2) -> (r: Self) {
        Vec2::new(narrow(arg.x), narrow(arg.y))
    }
}

impl vstd::std_specs::convert::FromSpecImpl<DVec2> for Vec2 {
    open spec fn obeys_from_spec() -> bool {
        true
    }

    open spec fn from_spec(arg: DVec2) -> Self {
        Vec2 { x: narrow_spec(arg.x), y: narrow_spec(arg.y) }
    }
}

impl From<[u32; 2]> for Vec2 {
    /// Reads the components from an array, in order.
    fn from(a: [u32; 2]) -> (r: Self) {
        Vec2::new(a[0], a[1])
    }
}

impl vstd::std_specs::convert::FromSpecImpl<[u32; 2]> for Vec2 {
    open spec fn obeys_from_spec() -> bool {
        true
    }

    open spec fn from_spec(a: [u32; 2]) -> Self {
        Vec2::of_array(a)
    }
}

impl From<Vec2> for [u32; 2] {
    /// Writes the components to an array, in order.
    fn from(v: Vec2) -> (r: Self) {
        [v.x, v.y]
    }
}

impl vstd::std_specs::convert::FromSpecImpl<Vec2> for [u32; 2] {
    open spec fn obeys_from_spec() -> bool {
        true
    }

    open spec fn from_spec(v: Vec2) -> Self {
        v.array()
    }
}

/// Single-precision 3D vector.
#[derive(Clone, Copy, Debug)]
pub struct Vec3 {
    pub x: u32,
    pub y: u32,
    pub z: u32,
}

impl View for Vec3 {
    type V = Seq<u32>;

    /// The components in order.
    open spec fn view(&self) -> Seq<u32> {
        seq![self.x, self.y, self.z]
    }
}

impl Vec3 {
    /// Full constructor.
    pub fn new(x: u32, y: u32, z: u32) -> (v: Self)
        ensures
            v == (Vec3 { x, y, z }),
    {
        Vec3 { x, y, z }
    }

    /// Zero constructor.
    pub fn zero() -> (v: Self)
        ensures
            v == Vec3::splat(ZERO),
    {
        Vec3 { x: ZERO, y: ZERO, z: ZERO }
    }

    /// Returns the XY components of the vector.
    pub fn xy(self) -> (v: Vec2)
        ensures
            v == (Vec2 { x: self.x, y: self.y }),
            v@ == self@.take(2),
    {
        proof {
            assert(seq![self.x, self.y] =~= self@.take(2));
        }
        Vec2::new(self.x, self.y)
    }

    /// Returns the XZ components of the vector.
    pub fn xz(self) -> (v: Vec2)
        ensures
            v == (Vec2 { x: self.x, y: self.z }),
    {
        Vec2::new(self.x, self.z)
    }

    /// The vector with every component equal to `s`.
    pub open spec fn splat(s: u32) -> Self {
        Vec3 { x: s, y: s, z: s }
    }

    /// The vector whose components are the entries of `a`, in order.
    pub open spec fn of_array(a: [u32; 3]) -> Self {
        Vec3 { x: a[0], y: a[1], z: a[2] }
    }

    /// The components as an array, in order.
    pub open spec fn array(self) -> [u32; 3] {
        [self.x, self.y, self.z]
    }

    /// IEEE equality of every pair of components: what `==` computes.
    pub open spec fn same(self, other: Self) -> bool {
        &&& same32(self.x, other.x)
        &&& same32(self.y, other.y)
        &&& same32(self.z, other.z)
    }

    /// An array turned into a vector and back is the array again.
    pub proof fn lemma_array_round_trip(a: [u32; 3])
        ensures
            <[u32; 3]>::from_spec(Vec3::from_spec(a)) == a,
            Vec3::of_array(a).array() == a,
            Vec3::of_array(a)@ == a@,
    {
        assert(Vec3::of_array(a).array() =~= a);
        assert(Vec3::of_array(a)@ =~= a@);
    }

    /// A vector turned into an array and back is the vector again.
    pub proof fn lemma_vector_round_trip(v: Self)
        ensures
            Vec3::from_spec(<[u32; 3]>::from_spec(v)) == v,
            Vec3::of_array(v.array()) == v,
            v.array()@ == v@,
    {
        assert(v.array()@ =~= v@);
    }

    /// Widening a vector and narrowing it again gives back every component
    /// that is not a NaN bit for bit, and a NaN as a NaN: a vector that equals
    /// itself comes back whole.
    pub proof fn lemma_widen_round_trip(v: Self)
        ensures
            v.same(v) ==> Vec3::from_spec(DVec3::from_spec(v)) == v,
            !is_nan32(v.x) ==> Vec3::from_spec(DVec3::from_spec(v)).x == v.x,
            is_nan32(v.x) ==> is_nan32(Vec3::from_spec(DVec3::from_spec(v)).x),
            !is_nan32(v.y) ==> Vec3::from_spec(DVec3::from_spec(v)).y == v.y,
            is_nan32(v.y) ==> is_nan32(Vec3::from_spec(DVec3::from_spec(v)).y),
            !is_nan32(v.z) ==> Vec3::from_spec(DVec3::from_spec(v)).z == v.z,
            is_nan32(v.z) ==> is_nan32(Vec3::from_spec(DVec3::from_spec(v)).z),
    {
        lemma_widen_narrow(v.x);
        lemma_widen_narrow(v.y);
        lemma_widen_narrow(v.z);
    }
}

impl Default for Vec3 {
    /// The zero vector.
    fn default() -> (v: Self)
        ensures
            v == Vec3::splat(ZERO),
    {
        Vec3::zero()
    }
}

impl PartialEq for Vec3 {
    fn eq(&self, other: &Self) -> (r: bool) {
        eq32(self.x, other.x) && eq32(self.y, other.y) && eq32(self.z, other.z)
    }
}

impl PartialEqSpecImpl for Vec3 {
    open spec fn obeys_eq_spec() -> bool {
        true
    }

    open spec fn eq_spec(&self, other: &Self) -> bool {
        self.same(*other)
    }
}

impl From<u32> for Vec3 {
    /// Broadcasts one scalar to every component.
    fn from(arg: u32) -> (r: Self) {
        Vec3::new(arg, arg, arg)
    }
}

impl vstd::std_specs::convert::FromSpecImpl<u32> for Vec3 {
    open spec fn obeys_from_spec() -> bool {
        true
    }

    open spec fn from_spec(arg: u32) -> Self {
        Vec3::splat(arg)
    }
}

impl From<u64> for Vec3 {
    /// Broadcasts one scalar of the other precision, rounded first.
    fn from(arg: u64) -> (r: Self) {
        Vec3::from(narrow(arg))
    }
}

impl vstd::std_specs::convert::FromSpecImpl<u64> for Vec3 {
    open spec fn obeys_from_spec() -> bool {
        true
    }

    open spec fn from_spec(arg: u64) -> Self {
        Vec3::splat(narrow_spec(arg))
    }
}

impl From<DVec3> for Vec3 {
    /// Rounds every component to single precision.
    fn from(arg: DVec3) -> (r: Self) {
        Vec3::new(narrow(arg.x), narrow(arg.y), narrow(arg.z))
    }
}

impl vstd::std_specs::convert::FromSpecImpl<DVec3> for Vec3 {
    open spec fn obeys_from_spec() -> bool {
        true
    }

    open spec fn from_spec(arg: DVec3) -> Self {
        Vec3 { x: narrow_spec(arg.x), y: narrow_spec(arg.y), z: narrow_spec(arg.z) }
    }
}

impl From<(Vec2, u32)> for Vec3 {
    /// Extends a 2D vector by a Z component.
    fn from(arg: (Vec2, u32)) -> (r: Self) {
        Vec3::new(arg.0.x, arg.0.y, arg.1)
    }
}

impl vstd::std_specs::convert::FromSpecImpl<(Vec2, u32)> for Vec3 {
    open spec fn obeys_from_spec() -> bool {
        true
    }

    open spec fn from_spec(arg: (Vec2, u32)) -> Self {
        Vec3 { x: arg.0.x, y: arg.0.y, z: arg.1 }
    }
}

impl From<[u32; 3]> for Vec3 {
    /// Reads the components from an array, in order.
    fn from(a: [u32; 3]) -> (r: Self) {
        Vec3::new(a[0], a[1], a[2])
    }
}

impl vstd::std_specs::convert::FromSpecImpl<[u32; 3]> for Vec3 {
    open spec fn obeys_from_spec() -> bool {
        true
    }

    open spec fn from_spec(a: [u32; 3]) -> Self {
        Vec3::of_array(a)
    }
}

impl From<Vec3> for [u32; 3] {
    /// Writes the components to an array, in order.
    fn from(v: Vec3) -> (r: Self) {
        [v.x, v.y, v.z]
    }
}

impl vstd::std_specs::convert::FromSpecImpl<Vec3> for [u32; 3] {
    open spec fn obeys_from_spec() -> bool {
        true
    }

    open spec fn from_spec(v: Vec3) -> Self {
        v.array()
    }
}

/// Single-precision 4D vector.
#[derive(Clone, Copy, Debug)]
pub struct Vec4 {
    pub x: u32,
    pub y: u32,
    pub z: u32,
    pub w: u32,
}

impl View for Vec4 {
    type V = Seq<u32>;

    /// The components in order.
    open spec fn view(&self) -> Seq<u32> {
        seq![self.x, self.y, self.z, self.w]
    }
}

impl Vec4 {
    /// Full constructor.
    pub fn new(x: u32, y: u32, z: u32, w: u32) -> (v: Self)
        ensures
            v == (Vec4 { x, y, z, w }),
    {
        Vec4 { x, y, z, w }
    }

    /// Zero constructor.
    pub fn zero() -> (v: Self)
        ensures
            v == Vec4::splat(ZERO),
    {
        Vec4 { x: ZERO, y: ZERO, z: ZERO, w: ZERO }
    }

    /// Returns the XY components of the vector.
    pub fn xy(self) -> (v: Vec2)
        ensures
            v == (Vec2 { x: self.x, y: self.y }),
            v@ == self@.take(2),
    {
        proof {
            assert(seq![self.x, self.y] =~= self@.take(2));
        }
        Vec2::new(self.x, self.y)
    }

    /// Returns the XYZ components of the vector.
    pub fn xyz(self) -> (v: Vec3)
        ensures
            v == (Vec3 { x: self.x, y: self.y, z: self.z }),
            v@ == self@.take(3),
    {
        proof {
            assert(seq![self.x, self.y, self.z] =~= self@.take(3));
        }
        Vec3::new(self.x, self.y, self.z)
    }

    /// The vector with every component equal to `s`.
    pub open spec fn splat(s: u32) -> Self {
        Vec4 { x: s, y: s, z: s, w: s }
    }

    /// The vector whose components are the entries of `a`, in order.
    pub open spec fn of_array(a: [u32; 4]) -> Self {
        Vec4 { x: a[0], y: a[1], z: a[2], w: a[3] }
    }

    /// The components as an array, in order.
    pub open spec fn array(self) -> [u32; 4] {
        [self.x, self.y, self.z, self.w]
    }

    /// IEEE equality of every pair of components: what `==` computes.
    pub open spec fn same(self, other: Self) -> bool {
        &&& same32(self.x, other.x)
        &&& same32(self.y, other.y)
        &&& same32(self.z, other.z)
        &&& same32(self.w, other.w)
    }

    /// An array turned into a vector and back is the array again.
    pub proof fn lemma_array_round_trip(a: [u32; 4])
        ensures
            <[u32; 4]>::from_spec(Vec4::from_spec(a)) == a,
            Vec4::of_array(a).array() == a,
            Vec4::of_array(a)@ == a@,
    {
        assert(Vec4::of_array(a).array() =~= a);
        assert(Vec4::of_array(a)@ =~= a@);
    }

    /// A vector turned into an array and back is the vector again.
    pub proof fn lemma_vector_round_trip(v: Self)
        ensures
            Vec4::from_spec(<[u32; 4]>::from_spec(v)) == v,
            Vec4::of_array(v.array()) == v,
            v.array()@ == v@,
    {
        assert(v.array()@ =~= v@);
    }

    /// Widening a vector and narrowing it again gives back every component
    /// that is not a NaN bit for bit, and a NaN as a NaN: a vector that equals
    /// itself comes back whole.
    pub proof fn lemma_widen_round_trip(v: Self)
        ensures
            v.same(v) ==> Vec4::from_spec(DVec4::from_spec(v)) == v,
            !is_nan32(v.x) ==> Vec4::from_spec(DVec4::from_spec(v)).x == v.x,
            is_nan32(v.x) ==> is_nan32(Vec4::from_spec(DVec4::from_spec(v)).x),
            !is_nan32(v.y) ==> Vec4::from_spec(DVec4::from_spec(v)).y == v.y,
            is_nan32(v.y) ==> is_nan32(Vec4::from_spec(DVec4::from_spec(v)).y),
            !is_nan32(v.z) ==> Vec4::from_spec(DVec4::from_spec(v)).z == v.z,
            is_nan32(v.z) ==> is_nan32(Vec4::from_spec(DVec4::from_spec(v)).z),
            !is_nan32(v.w) ==> Vec4::from_spec(DVec4::from_spec(v)).w == v.w,
            is_nan32(v.w) ==> is_nan32(Vec4::from_spec(DVec4::from_spec(v)).w),
    {
        lemma_widen_narrow(v.x);
        lemma_widen_narrow(v.y);
        lemma_widen_narrow(v.z);
        lemma_widen_narrow(v.w);
    }
}

impl Default for Vec4 {
    /// The zero vector.
    fn default() -> (v: Self)
        ensures
            v == Vec4::splat(ZERO),
    {
        Vec4::zero()
    }
}

impl PartialEq for Vec4 {
    fn eq(&self, other: &Self) -> (r: bool) {
        eq32(self.x, other.x) && eq32(self.y, other.y)
            && eq32(self.z, other.z) && eq32(self.w, other.w)
    }
}

impl PartialEqSpecImpl for Vec4 {
    open spec fn obeys_eq_spec() -> bool {
        true
    }

    open spec fn eq_spec(&self, other: &Self) -> bool {
        self.same(*other)
    }
}

impl From<u32> for Vec4 {
    /// Broadcasts one scalar to every component.
    fn from(arg: u32) -> (r: Self) {
        Vec4::new(arg, arg, arg, arg)
    }
}

impl vstd::std_specs::convert::FromSpecImpl<u32> for Vec4 {
    open spec fn obeys_from_spec() -> bool {
        true
    }

    open spec fn from_spec(arg: u32) -> Self {
        Vec4::splat(arg)
    }
}

impl From<u64> for Vec4 {
    /// Broadcasts one scalar of the other precision, rounded first.
    fn from(arg: u64) -> (r: Self) {
        Vec4::from(narrow(arg))
    }
}

impl vstd::std_specs::convert::FromSpecImpl<u64> for Vec4 {
    open spec fn obeys_from_spec() -> bool {
        true
    }

    open spec fn from_spec(arg: u64) -> Self {
        Vec4::splat(narrow_spec(arg))
    }
}

impl From<DVec4> for Vec4 {
    /// Rounds every component to single precision.
    fn from(arg: DVec4) -> (r: Self) {
        Vec4::new(narrow(arg.x), narrow(arg.y), narrow(arg.z), narrow(arg.w))
    }
}

impl vstd::std_specs::convert::FromSpecImpl<DVec4> for Vec4 {
    open spec fn obeys_from_spec() -> bool {
        true
    }

    open spec fn from_spec(arg: DVec4) -> Self {
        Vec4 {
            x: narrow_spec(arg.x),
            y: narrow_spec(arg.y),
            z: narrow_spec(arg.z),
            w: narrow_spec(arg.w),
        }
    }
}

impl From<(Vec2, u32, u32)> for Vec4 {
    /// Extends a 2D vector by Z and W components.
    fn from(arg: (Vec2, u32, u32)) -> (r: Self) {
        Vec4::new(arg.0.x, arg.0.y, arg.1, arg.2)
    }
}

impl vstd::std_specs::convert::FromSpecImpl<(Vec2, u32, u32)> for Vec4 {
    open spec fn obeys_from_spec() -> bool {
        true
    }

    open spec fn from_spec(arg: (Vec2, u32, u32)) -> Self {
        Vec4 { x: arg.0.x, y: arg.0.y, z: arg.1, w: arg.2 }
    }
}

impl From<(Vec3, u32)> for Vec4 {
    /// Extends a 3D vector by a W component.
    fn from(arg: (Vec3, u32)) -> (r: Self) {
        Vec4::new(arg.0.x, arg.0.y, arg.0.z, arg.1)
    }
}

impl vstd::std_specs::convert::FromSpecImpl<(Vec3, u32)> for Vec4 {
    open spec fn obeys_from_spec() -> bool {
        true
    }

    open spec fn from_spec(arg: (Vec3, u32)) -> Self {
        Vec4 { x: arg.0.x, y: arg.0.y, z: arg.0.z, w: arg.1 }
    }
}

impl From<[u32; 4]> for Vec4 {
    /// Reads the components from an array, in order.
    fn from(a: [u32; 4]) -> (r: Self) {
        Vec4::new(a[0], a[1], a[2], a[3])
    }
}

impl vstd::std_specs::convert::FromSpecImpl<[u32; 4]> for Vec4 {
    open spec fn obeys_from_spec() -> bool {
        true
    }

    open spec fn from_spec(a: [u32; 4]) -> Self {
        Vec4::of_array(a)
    }
}

impl From<Vec4> for [u32; 4] {
    /// Writes the components to an array, in order.
    fn from(v: Vec4) -> (r: Self) {
        [v.x, v.y, v.z, v.w]
    }
}

impl vstd::std_specs::convert::FromSpecImpl<Vec4> for [u32; 4] {
    open spec fn obeys_from_spec() -> bool {
        true
    }

    open spec fn from_spec(v: Vec4) -> Self {
        v.array()
    }
}

/// Double-precision 2D vector.
#[derive(Clone, Copy, Debug)]
pub struct DVec2 {
    pub x: u64,
    pub y: u64,
}

impl View for DVec2 {
    type V = Seq<u64>;

    /// The components in order.
    open spec fn view(&self) -> Seq<u64> {
        seq![self.x, self.y]
    }
}

impl DVec2 {
    /// Full constructor.
    pub fn new(x: u64, y: u64) -> (v: Self)
        ensures
            v == (DVec2 { x, y }),
    {
        DVec2 { x, y }
    }

    /// Zero constructor.
    pub fn zero() -> (v: Self)
        ensures
            v == DVec2::splat(DZERO),
    {
        DVec2 { x: DZERO, y: DZERO }
    }

    /// The vector with every component equal to `s`.
    pub open spec fn splat(s: u64) -> Self {
        DVec2 { x: s, y: s }
    }

    /// The vector whose components are the entries of `a`, in order.
    pub open spec fn of_array(a: [u64; 2]) -> Self {
        DVec2 { x: a[0], y: a[1] }
    }

    /// The components as an array, in order.
    pub open spec fn array(self) -> [u64; 2] {
        [self.x, self.y]
    }

    /// IEEE equality of every pair of components: what `==` computes.
    pub open spec fn same(self, other: Self) -> bool {
        &&& same64(self.x, other.x)
        &&& same64(self.y, other.y)
    }

    /// An array turned into a vector and back is the array again.
    pub proof fn lemma_array_round_trip(a: [u64; 2])
        ensures
            <[u64; 2]>::from_spec(DVec2::from_spec(a)) == a,
            DVec2::of_array(a).array() == a,
            DVec2::of_array(a)@ == a@,
    {
        assert(DVec2::of_array(a).array() =~= a);
        assert(DVec2::of_array(a)@ =~= a@);
    }

    /// A vector turned into an array and back is the vector again.
    pub proof fn lemma_vector_round_trip(v: Self)
        ensures
            DVec2::from_spec(<[u64; 2]>::from_spec(v)) == v,
            DVec2::of_array(v.array()) == v,
            v.array()@ == v@,
    {
        assert(v.array()@ =~= v@);
    }
}

impl Default for DVec2 {
    /// The zero vector.
    fn default() -> (v: Self)
        ensures
            v == DVec2::splat(DZERO),
    {
        DVec2::zero()
    }
}

impl PartialEq for DVec2 {
    fn eq(&self, other: &Self) -> (r: bool) {
        eq64(self.x, other.x) && eq64(self.y, other.y)
    }
}

impl PartialEqSpecImpl for DVec2 {
    open spec fn obeys_eq_spec() -> bool {
        true
    }

    open spec fn eq_spec(&self, other: &Self) -> bool {
        self.same(*other)
    }
}

impl From<u64> for DVec2 {
    /// Broadcasts one scalar to every component.
    fn from(arg: u64) -> (r: Self) {
        DVec2::new(arg, arg)
    }
}

impl vstd::std_specs::convert::FromSpecImpl<u64> for DVec2 {
    open spec fn obeys_from_spec() -> bool {
        true
    }

    open spec fn from_spec(arg: u64) -> Self {
        DVec2::splat(arg)
    }
}

impl From<u32> for DVec2 {
    /// Broadcasts one scalar of the other precision, widened first.
    fn from(arg: u32) -> (r: Self) {
        DVec2::from(widen(arg))
    }
}

impl vstd::std_specs::convert::FromSpecImpl<u32> for DVec2 {
    open spec fn obeys_from_spec() -> bool {
        true
    }

    open spec fn from_spec(arg: u32) -> Self {
        DVec2::splat(widen_spec(arg))
    }
}

impl From<Vec2> for DVec2 {
    /// Widens every component to double precision.
    fn from(arg: Vec2) -> (r: Self) {
        DVec2::new(widen(arg.x), widen(arg.y))
    }
}

impl vstd::std_specs::convert::FromSpecImpl<Vec2> for DVec2 {
    open spec fn obeys_from_spec() -> bool {
        true
    }

    open spec fn from_spec(arg: Vec2) -> Self {
        DVec2 { x: widen_spec(arg.x), y: widen_spec(arg.y) }
    }
}

impl From<[u64; 2]> for DVec2 {
    /// Reads the components from an array, in order.
    fn from(a: [u64; 2]) -> (r: Self) {
        DVec2::new(a[0], a[1])
    }
}

impl vstd::std_specs::convert::FromSpecImpl<[u64; 2]> for DVec2 {
    open spec fn obeys_from_spec() -> bool {
        true
    }

    open spec fn from_spec(a: [u64; 2]) -> Self {
        DVec2::of_array(a)
    }
}

impl From<DVec2> for [u64; 2] {
    /// Writes the components to an array, in order.
    fn from(v: DVec2) -> (r: Self) {
        [v.x, v.y]
    }
}

impl vstd::std_specs::convert::FromSpecImpl<DVec2> for [u64; 2] {
    open spec fn obeys_from_spec() -> bool {
        true
    }

    open spec fn from_spec(v: DVec2) -> Self {
        v.array()
    }
}

/// Double-precision 3D vector.
#[derive(Clone, Copy, Debug)]
pub struct DVec3 {
    pub x: u64,
    pub y: u64,
    pub z: u64,
}

impl View for DVec3 {
    type V = Seq<u64>;

    /// The components in order.
    open spec fn view(&self) -> Seq<u64> {
        seq![self.x, self.y, self.z]
    }
}

impl DVec3 {
    /// Full constructor.
    pub fn new(x: u64, y: u64, z: u64) -> (v: Self)
        ensures
            v == (DVec3 { x, y, z }),
    {
        DVec3 { x, y, z }
    }

    /// Zero constructor.
    pub fn zero() -> (v: Self)
        ensures
            v == DVec3::splat(DZERO),
    {
        DVec3 { x: DZERO, y: DZERO, z: DZERO }
    }

    /// Returns the XY components of the vector.
    pub fn xy(self) -> (v: DVec2)
        ensures
            v == (DVec2 { x: self.x, y: self.y }),
            v@ == self@.take(2),
    {
        proof {
            assert(seq![self.x, self.y] =~= self@.take(2));
        }
        DVec2::new(self.x, self.y)
    }

    /// Returns the XZ components of the vector.
    pub fn xz(self) -> (v: DVec2)
        ensures
            v == (DVec2 { x: self.x, y: self.z }),
    {
        DVec2::new(self.x, self.z)
    }

    /// The vector with every component equal to `s`.
    pub open spec fn splat(s: u64) -> Self {
        DVec3 { x: s, y: s, z: s }
    }

    /// The vector whose components are the entries of `a`, in order.
    pub open spec fn of_array(a: [u64; 3]) -> Self {
        DVec3 { x: a[0], y: a[1], z: a[2] }
    }

    /// The components as an array, in order.
    pub open spec fn array(self) -> [u64; 3] {
        [self.x, self.y, self.z]
    }

    /// IEEE equality of every pair of components: what `==` computes.
    pub open spec fn same(self, other: Self) -> bool {
        &&& same64(self.x, other.x)
        &&& same64(self.y, other.y)
        &&& same64(self.z, other.z)
    }

    /// An array turned into a vector and back is the array again.
    pub proof fn lemma_array_round_trip(a: [u64; 3])
        ensures
            <[u64; 3]>::from_spec(DVec3::from_spec(a)) == a,
            DVec3::of_array(a).array() == a,
            DVec3::of_array(a)@ == a@,
    {
        assert(DVec3::of_array(a).array() =~= a);
        assert(DVec3::of_array(a)@ =~= a@);
    }

    /// A vector turned into an array and back is the vector again.
    pub proof fn lemma_vector_round_trip(v: Self)
        ensures
            DVec3::from_spec(<[u64; 3]>::from_spec(v)) == v,
            DVec3::of_array(v.array()) == v,
            v.array()@ == v@,
    {
        assert(v.array()@ =~= v@);
    }
}

impl Default for DVec3 {
    /// The zero vector.
    fn default() -> (v: Self)
        ensures
            v == DVec3::splat(DZERO),
    {
        DVec3::zero()
    }
}

impl PartialEq for DVec3 {
    fn eq(&self, other: &Self) -> (r: bool) {
        eq64(self.x, other.x) && eq64(self.y, other.y) && eq64(self.z, other.z)
    }
}

impl PartialEqSpecImpl for DVec3 {
    open spec fn obeys_eq_spec() -> bool {
        true
    }

    open spec fn eq_spec(&self, other: &Self) -> bool {
        self.same(*other)
    }
}

impl From<u64> for DVec3 {
    /// Broadcasts one scalar to every component.
    fn from(arg: u64) -> (r: Self) {
        DVec3::new(arg, arg, arg)
    }
}

impl vstd::std_specs::convert::FromSpecImpl<u64> for DVec3 {
    open spec fn obeys_from_spec() -> bool {
        true
    }

    open spec fn from_spec(arg: u64) -> Self {
        DVec3::splat(arg)
    }
}

impl From<u32> for DVec3 {
    /// Broadcasts one scalar of the other precision, widened first.
    fn from(arg: u32) -> (r: Self) {
        DVec3::from(widen(arg))
    }
}

impl vstd::std_specs::convert::FromSpecImpl<u32> for DVec3 {
    open spec fn obeys_from_spec() -> bool {
        true
    }

    open spec fn from_spec(arg: u32) -> Self {
        DVec3::splat(widen_spec(arg))
    }
}

impl From<Vec3> for DVec3 {
    /// Widens every component to double precision.
    fn from(arg: Vec3) -> (r: Self) {
        DVec3::new(widen(arg.x), widen(arg.y), widen(arg.z))
    }
}

impl vstd::std_specs::convert::FromSpecImpl<Vec3> for DVec3 {
    open spec fn obeys_from_spec() -> bool {
        true
    }

    open spec fn from_spec(arg: Vec3) -> Self {
        DVec3 { x: widen_spec(arg.x), y: widen_spec(arg.y), z: widen_spec(arg.z) }
    }
}

impl From<(DVec2, u64)> for DVec3 {
    /// Extends a 2D vector by a Z component.
    fn from(arg: (DVec2, u64)) -> (r: Self) {
        DVec3::new(arg.0.x, arg.0.y, arg.1)
    }
}

impl vstd::std_specs::convert::FromSpecImpl<(DVec2, u64)> for DVec3 {
    open spec fn obeys_from_spec() -> bool {
        true
    }

    open spec fn from_spec(arg: (DVec2, u64)) -> Self {
        DVec3 { x: arg.0.x, y: arg.0.y, z: arg.1 }
    }
}

impl From<[u64; 3]> for DVec3 {
    /// Reads the components from an array, in order.
    fn from(a: [u64; 3]) -> (r: Self) {
        DVec3::new(a[0], a[1], a[2])
    }
}

impl vstd::std_specs::convert::FromSpecImpl<[u64; 3]> for DVec3 {
    open spec fn obeys_from_spec() -> bool {
        true
    }

    open spec fn from_spec(a: [u64; 3]) -> Self {
        DVec3::of_array(a)
    }
}

impl From<DVec3> for [u64; 3] {
    /// Writes the components to an array, in order.
    fn from(v: DVec3) -> (r: Self) {
        [v.x, v.y, v.z]
    }
}

impl vstd::std_specs::convert::FromSpecImpl<DVec3> for [u64; 3] {
    open spec fn obeys_from_spec() -> bool {
        true
    }

    open spec fn from_spec(v: DVec3) -> Self {
        v.array()
    }
}

/// Double-precision 4D vector.
#[derive(Clone, Copy, Debug)]
pub struct DVec4 {
    pub x: u64,
    pub y: u64,
    pub z: u64,
    pub w: u64,
}

impl View for DVec4 {
    type V = Seq<u64>;

    /// The components in order.
    open spec fn view(&self) -> Seq<u64> {
        seq![self.x, self.y, self.z, self.w]
    }
}

impl DVec4 {
    /// Full constructor.
    pub fn new(x: u64, y: u64, z: u64, w: u64) -> (v: Self)
        ensures
            v == (DVec4 { x, y, z, w }),
    {
        DVec4 { x, y, z, w }
    }

    /// Zero constructor.
    pub fn zero() -> (v: Self)
        ensures
            v == DVec4::splat(DZERO),
    {
        DVec4 { x: DZERO, y: DZERO, z: DZERO, w: DZERO }
    }

    /// Returns the XY components of the vector.
    pub fn xy(self) -> (v: DVec2)
        ensures
            v == (DVec2 { x: self.x, y: self.y }),
            v@ == self@.take(2),
    {
        proof {
            assert(seq![self.x, self.y] =~= self@.take(2));
        }
        DVec2::new(self.x, self.y)
    }

    /// Returns the XYZ components of the vector.
    pub fn xyz(self) -> (v: DVec3)
        ensures
            v == (DVec3 { x: self.x, y: self.y, z: self.z }),
            v@ == self@.take(3),
    {
        proof {
            assert(seq![self.x, self.y, self.z] =~= self@.take(3));
        }
        DVec3::new(self.x, self.y, self.z)
    }

    /// The vector with every component equal to `s`.
    pub open spec fn splat(s: u64) -> Self {
        DVec4 { x: s, y: s, z: s, w: s }
    }

    /// The vector whose components are the entries of `a`, in order.
    pub open spec fn of_array(a: [u64; 4]) -> Self {
        DVec4 { x: a[0], y: a[1], z: a[2], w: a[3] }
    }

    /// The components as an array, in order.
    pub open spec fn array(self) -> [u64; 4] {
        [self.x, self.y, self.z, self.w]
    }

    /// IEEE equality of every pair of components: what `==` computes.
    pub open spec fn same(self, other: Self) -> bool {
        &&& same64(self.x, other.x)
        &&& same64(self.y, other.y)
        &&& same64(self.z, other.z)
        &&& same64(self.w, other.w)
    }

    /// An array turned into a vector and back is the array again.
    pub proof fn lemma_array_round_trip(a: [u64; 4])
        ensures
            <[u64; 4]>::from_spec(DVec4::from_spec(a)) == a,
            DVec4::of_array(a).array() == a,
            DVec4::of_array(a)@ == a@,
    {
        assert(DVec4::of_array(a).array() =~= a);
        assert(DVec4::of_array(a)@ =~= a@);
    }

    /// A vector turned into an array and back is the vector again.
    pub proof fn lemma_vector_round_trip(v: Self)
        ensures
            DVec4::from_spec(<[u64; 4]>::from_spec(v)) == v,
            DVec4::of_array(v.array()) == v,
            v.array()@ == v@,
    {
        assert(v.array()@ =~= v@);
    }
}

impl Default for DVec4 {
    /// The zero vector.
    fn default() -> (v: Self)
        ensures
            v == DVec4::splat(DZERO),
    {
        DVec4::zero()
    }
}

impl PartialEq for DVec4 {
    fn eq(&self, other: &Self) -> (r: bool) {
        eq64(self.x, other.x) && eq64(self.y, other.y)
            && eq64(self.z, other.z) && eq64(self.w, other.w)
    }
}

impl PartialEqSpecImpl for DVec4 {
    open spec fn obeys_eq_spec() -> bool {
        true
    }

    open spec fn eq_spec(&self, other: &Self) -> bool {
        self.same(*other)
    }
}

impl From<u64> for DVec4 {
    /// Broadcasts one scalar to every component.
    fn from(arg: u64) -> (r: Self) {
        DVec4::new(arg, arg, arg, arg)
    }
}

impl vstd::std_specs::convert::FromSpecImpl<u64> for DVec4 {
    open spec fn obeys_from_spec() -> bool {
        true
    }

    open spec fn from_spec(arg: u64) -> Self {
        DVec4::splat(arg)
    }
}

impl From<u32> for DVec4 {
    /// Broadcasts one scalar of the other precision, widened first.
    fn from(arg: u32) -> (r: Self) {
        DVec4::from(widen(arg))
    }
}

impl vstd::std_specs::convert::FromSpecImpl<u32> for DVec4 {
    open spec fn obeys_from_spec() -> bool {
        true
    }

    open spec fn from_spec(arg: u32) -> Self {
        DVec4::splat(widen_spec(arg))
    }
}

impl From<Vec4> for DVec4 {
    /// Widens every component to double precision.
    fn from(arg: Vec4) -> (r: Self) {
        DVec4::new(widen(arg.x), widen(arg.y), widen(arg.z), widen(arg.w))
    }
}

impl vstd::std_specs::convert::FromSpecImpl<Vec4> for DVec4 {
    open spec fn obeys_from_spec() -> bool {
        true
    }

    open spec fn from_spec(arg: Vec4) -> Self {
        DVec4 {
            x: widen_spec(arg.x),
            y: widen_spec(arg.y),
            z: widen_spec(arg.z),
            w: widen_spec(arg.w),
        }
    }
}

impl From<(DVec2, u64, u64)> for DVec4 {
    /// Extends a 2D vector by Z and W components.
    fn from(arg: (DVec2, u64, u64)) -> (r: Self) {
        DVec4::new(arg.0.x, arg.0.y, arg.1, arg.2)
    }
}

impl vstd::std_specs::convert::FromSpecImpl<(DVec2, u64, u64)> for DVec4 {
    open spec fn obeys_from_spec() -> bool {
        true
    }

    open spec fn from_spec(arg: (DVec2, u64, u64)) -> Self {
        DVec4 { x: arg.0.x, y: arg.0.y, z: arg.1, w: arg.2 }
    }
}

impl From<(DVec3, u64)> for DVec4 {
    /// Extends a 3D vector by a W component.
    fn from(arg: (DVec3, u64)) -> (r: Self) {
        DVec4::new(arg.0.x, arg.0.y, arg.0.z, arg.1)
    }
}

impl vstd::std_specs::convert::FromSpecImpl<(DVec3, u64)> for DVec4 {
    open spec fn obeys_from_spec() -> bool {
        true
    }

    open spec fn from_spec(arg: (DVec3, u64)) -> Self {
        DVec4 { x: arg.0.x, y: arg.0.y, z: arg.0.z, w: arg.1 }
    }
}

impl From<[u64; 4]> for DVec4 {
    /// Reads the components from an array, in order.
    fn from(a: [u64; 4]) -> (r: Self) {
        DVec4::new(a[0], a[1], a[2], a[3])
    }
}

impl vstd::std_specs::convert::FromSpecImpl<[u64; 4]> for DVec4 {
    open spec fn obeys_from_spec() -> bool {
        true
    }

    open spec fn from_spec(a: [u64; 4]) -> Self {
        DVec4::of_array(a)
    }
}

impl From<DVec4> for [u64; 4] {
    /// Writes the components to an array, in order.
    fn from(v: DVec4) -> (r: Self) {
        [v.x, v.y, v.z, v.w]
    }
}

impl vstd::std_specs::convert::FromSpecImpl<DVec4> for [u64; 4] {
    open spec fn obeys_from_spec() -> bool {
        true
    }

    open spec fn from_spec(v: DVec4) -> Self {
        v.array()
    }
}

} // verus!
