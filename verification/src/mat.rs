//! Square matrices of order two, three and four.
//!
//! A matrix is a plain aggregate of scalars. The two digits in the name of a
//! field are the indexes `(i, j)` of its entry; `new` and the array form list
//! the entries by index, the first index outermost. Where a matrix meets a
//! column vector in a product, the inner arrays of the array form are its
//! columns.
//!
//! The view of a matrix is the sequence of its inner arrays, `at(i, j)` reads
//! one entry, and constructors and conversions are stated entry by entry
//! through `from_entries`.

use crate::precision::{lemma_widen_narrow, narrow, narrow_spec, widen, widen_spec};
use crate::scalar::{eq32, eq64, is_nan32, same32, same64, DONE, DZERO, ONE, ZERO};
use vstd::prelude::*;
use vstd::std_specs::cmp::PartialEqSpecImpl;
use vstd::std_specs::convert::FromSpec;

verus! {

/// Single-precision 2x2 matrix.
///
/// Field `mij` is the entry at index `(i, j)`: entry `j` of the inner array `i`
/// in the array form.
#[derive(Clone, Copy, Debug)]
pub struct Mat2 {
    pub m00: u32,
    pub m01: u32,
    pub m10: u32,
    pub m11: u32,
}

impl View for Mat2 {
    type V = Seq<Seq<u32>>;

    /// The entries, grouped by first index.
    open spec fn view(&self) -> Seq<Seq<u32>> {
        seq![
            seq![self.m00, self.m01],
            seq![self.m10, self.m11],
        ]
    }
}

impl Mat2 {
    /// The entry at index `(i, j)`.
    pub open spec fn at(self, i: int, j: int) -> u32
        recommends
            0 <= i < 2,
            0 <= j < 2,
    {
        self@[i][j]
    }

    /// The matrix whose entry at `(i, j)` is `f(i, j)`.
    pub open spec fn from_entries(f: spec_fn(int, int) -> u32) -> Self {
        Mat2 {
            m00: f(0, 0),
            m01: f(0, 1),
            m10: f(1, 0),
            m11: f(1, 1),
        }
    }

    /// The banded matrix with `di` on the diagonal, `up` at `(i, i + 1)`, `lo` at
    /// `(i + 1, i)` and zero elsewhere.
    pub open spec fn banded(lo: u32, di: u32, up: u32) -> Self {
        Mat2::from_entries(
            |i: int, j: int|
                if i == j {
                    di
                } else if j == i + 1 {
                    up
                } else if i == j + 1 {
                    lo
                } else {
                    ZERO
                },
        )
    }

    /// The transpose: the entry at `(i, j)` is this matrix's entry at `(j, i)`.
    pub open spec fn transposed(self) -> Self {
        Mat2::from_entries(|i: int, j: int| self.at(j, i))
    }

    /// The matrix whose entry at `(i, j)` is `a[i][j]`.
    pub open spec fn of_array(a: [[u32; 2]; 2]) -> Self {
        Mat2::from_entries(|i: int, j: int| a[i][j])
    }

    /// The entries as nested arrays: `array()[i][j]` is the entry at `(i, j)`.
    pub open spec fn array(self) -> [[u32; 2]; 2] {
        [[self.m00, self.m01], [self.m10, self.m11]]
    }

    /// IEEE equality of every pair of entries: what `==` computes.
    pub open spec fn same(self, other: Self) -> bool {
        &&& same32(self.m00, other.m00)
        &&& same32(self.m01, other.m01)
        &&& same32(self.m10, other.m10)
        &&& same32(self.m11, other.m11)
    }

    /// Full constructor. The arguments are the entries ordered by index: `(0, 0)`,
    /// `(0, 1)` and so on.
    pub fn new(m00: u32, m01: u32, m10: u32, m11: u32) -> (m: Self)
        ensures
            m == (Mat2 { m00, m01, m10, m11 }),
    {
        Mat2 { m00, m01, m10, m11 }
    }

    /// Identity constructor: one on the diagonal, zero elsewhere.
    pub fn identity() -> (m: Self)
        ensures
            m == Mat2::banded(ZERO, ONE, ZERO),
    {
        Mat2::diagonal(ONE)
    }

    /// Diagonal constructor: `di` on the diagonal, zero elsewhere.
    pub fn diagonal(di: u32) -> (m: Self)
        ensures
            m == Mat2::banded(ZERO, di, ZERO),
    {
        Mat2::tridiagonal(ZERO, di, ZERO)
    }

    /// Tri-diagonal constructor.
    pub fn tridiagonal(lo: u32, di: u32, up: u32) -> (m: Self)
        ensures
            m == Mat2::banded(lo, di, up),
    {
        Mat2::new(di, up, lo, di)
    }

    /// Returns the matrix transpose.
    pub fn transpose(self) -> (m: Self)
        ensures
            m == self.transposed(),
    {
        Mat2::new(self.m00, self.m10, self.m01, self.m11)
    }

    /// `from_entries(f)` has `f(i, j)` at every index `(i, j)`.
    pub proof fn lemma_from_entries(f: spec_fn(int, int) -> u32, i: int, j: int)
        requires
            0 <= i < 2,
            0 <= j < 2,
        ensures
            Mat2::from_entries(f).at(i, j) == f(i, j),
    {
    }

    /// Two matrices that agree at every index are equal.
    pub proof fn lemma_ext_equal(a: Self, b: Self)
        requires
            forall|i: int, j: int| 0 <= i < 2 && 0 <= j < 2 ==> a.at(i, j) == b.at(i, j),
        ensures
            a == b,
    {
        assert(a.at(0, 0) == b.at(0, 0));
        assert(a.at(0, 1) == b.at(0, 1));
        assert(a.at(1, 0) == b.at(1, 0));
        assert(a.at(1, 1) == b.at(1, 1));
    }

    /// The transpose has at `(i, j)` what the matrix has at `(j, i)`.
    pub proof fn lemma_transposed_at(m: Self, i: int, j: int)
        requires
            0 <= i < 2,
            0 <= j < 2,
        ensures
            m.transposed().at(i, j) == m.at(j, i),
    {
    }

    /// Transposing a banded matrix swaps the bands beside the diagonal.
    pub proof fn lemma_transpose_banded(lo: u32, di: u32, up: u32)
        ensures
            Mat2::banded(lo, di, up).transposed() == Mat2::banded(up, di, lo),
    {
    }

    /// Transposing twice gives the matrix back, bit for bit.
    pub proof fn lemma_transpose_involution(m: Self)
        ensures
            m.transposed().transposed() == m,
    {
    }

    /// Nested arrays turned into a matrix and back are the same arrays again.
    pub proof fn lemma_array_round_trip(a: [[u32; 2]; 2])
        ensures
            <[[u32; 2]; 2]>::from_spec(Mat2::from_spec(a)) == a,
            Mat2::of_array(a).array() == a,
    {
        let b = Mat2::of_array(a).array();
        assert forall|i: int| 0 <= i < 2 implies b[i] == a[i] by {
            assert(b[i] =~= a[i]);
        }
        assert(b =~= a);
    }

    /// A matrix turned into nested arrays and back is the matrix again.
    pub proof fn lemma_matrix_round_trip(m: Self)
        ensures
            Mat2::from_spec(<[[u32; 2]; 2]>::from_spec(m)) == m,
            Mat2::of_array(m.array()) == m,
    {
    }

    /// Growing to 3x3 and shrinking again gives the matrix back.
    pub proof fn lemma_grow_shrink(m: Self)
        ensures
            Mat2::from_spec(Mat3::from_spec(m)) == m,
    {
    }

    /// Widening a matrix and narrowing it again gives back every entry that is
    /// not a NaN bit for bit, and a NaN as a NaN: a matrix that equals itself
    /// comes back whole.
    pub proof fn lemma_widen_round_trip(m: Self, i: int, j: int)
        requires
            0 <= i < 2,
            0 <= j < 2,
        ensures
            m.same(m) ==> Mat2::from_spec(DMat2::from_spec(m)) == m,
            !is_nan32(m.at(i, j)) ==> Mat2::from_spec(DMat2::from_spec(m)).at(i, j) == m.at(i, j),
            is_nan32(m.at(i, j)) ==> is_nan32(Mat2::from_spec(DMat2::from_spec(m)).at(i, j)),
    {
        lemma_widen_narrow(m.m00);
        lemma_widen_narrow(m.m01);
        lemma_widen_narrow(m.m10);
        lemma_widen_narrow(m.m11);
    }
}

impl Default for Mat2 {
    /// The identity matrix.
    fn default() -> (m: Self)
        ensures
            m == Mat2::banded(ZERO, ONE, ZERO),
    {
        Mat2::identity()
    }
}

impl PartialEq for Mat2 {
    fn eq(&self, other: &Self) -> (r: bool) {
        eq32(self.m00, other.m00) && eq32(self.m01, other.m01)
            && eq32(self.m10, other.m10) && eq32(self.m11, other.m11)
    }
}

impl PartialEqSpecImpl for Mat2 {
    open spec fn obeys_eq_spec() -> bool {
        true
    }

    open spec fn eq_spec(&self, other: &Self) -> bool {
        self.same(*other)
    }
}

impl From<u32> for Mat2 {
    /// The matrix with `arg` on the diagonal and zero elsewhere.
    fn from(arg: u32) -> (r: Self) {
        Mat2::diagonal(arg)
    }
}

impl vstd::std_specs::convert::FromSpecImpl<u32> for Mat2 {
    open spec fn obeys_from_spec() -> bool {
        true
    }

    open spec fn from_spec(arg: u32) -> Self {
        Mat2::banded(ZERO, arg, ZERO)
    }
}

impl From<u64> for Mat2 {
    /// The diagonal matrix of a scalar of the other precision, rounded first.
    fn from(arg: u64) -> (r: Self) {
        Mat2::diagonal(narrow(arg))
    }
}

impl vstd::std_specs::convert::FromSpecImpl<u64> for Mat2 {
    open spec fn obeys_from_spec() -> bool {
        true
    }

    open spec fn from_spec(arg: u64) -> Self {
        Mat2::banded(ZERO, narrow_spec(arg), ZERO)
    }
}

impl From<DMat2> for Mat2 {
    /// Rounds every entry to single precision.
    fn from(arg: DMat2) -> (r: Self) {
        Mat2::new(narrow(arg.m00), narrow(arg.m01), narrow(arg.m10), narrow(arg.m11))
    }
}

impl vstd::std_specs::convert::FromSpecImpl<DMat2> for Mat2 {
    open spec fn obeys_from_spec() -> bool {
        true
    }

    open spec fn from_spec(arg: DMat2) -> Self {
        Mat2::from_entries(|i: int, j: int| narrow_spec(arg.at(i, j)))
    }
}

impl From<Mat3> for Mat2 {
    /// Keeps the entries with both indexes below 2.
    fn from(arg: Mat3) -> (r: Self) {
        Mat2::new(arg.m00, arg.m01, arg.m10, arg.m11)
    }
}

impl vstd::std_specs::convert::FromSpecImpl<Mat3> for Mat2 {
    open spec fn obeys_from_spec() -> bool {
        true
    }

    open spec fn from_spec(arg: Mat3) -> Self {
        Mat2::from_entries(|i: int, j: int| arg.at(i, j))
    }
}

impl From<DMat3> for Mat2 {
    /// Keeps the entries with both indexes below 2, each converted to this precision.
    fn from(arg: DMat3) -> (r: Self) {
        Mat2::from(Mat3::from(arg))
    }
}

impl vstd::std_specs::convert::FromSpecImpl<DMat3> for Mat2 {
    open spec fn obeys_from_spec() -> bool {
        true
    }

    open spec fn from_spec(arg: DMat3) -> Self {
        Mat2::from_entries(|i: int, j: int| narrow_spec(arg.at(i, j)))
    }
}

impl From<Mat4> for Mat2 {
    /// Keeps the entries with both indexes below 2.
    fn from(arg: Mat4) -> (r: Self) {
        Mat2::from(Mat3::from(arg))
    }
}

impl vstd::std_specs::convert::FromSpecImpl<Mat4> for Mat2 {
    open spec fn obeys_from_spec() -> bool {
        true
    }

    open spec fn from_spec(arg: Mat4) -> Self {
        Mat2::from_entries(|i: int, j: int| arg.at(i, j))
    }
}

impl From<DMat4> for Mat2 {
    /// Keeps the entries with both indexes below 2, each converted to this precision.
    fn from(arg: DMat4) -> (r: Self) {
        Mat2::from(Mat3::from(arg))
    }
}

impl vstd::std_specs::convert::FromSpecImpl<DMat4> for Mat2 {
    open spec fn obeys_from_spec() -> bool {
        true
    }

    open spec fn from_spec(arg: DMat4) -> Self {
        Mat2::from_entries(|i: int, j: int| narrow_spec(arg.at(i, j)))
    }
}

impl From<[[u32; 2]; 2]> for Mat2 {
    /// Reads the entries from nested arrays: `a[i][j]` becomes the entry at `(i, j)`.
    fn from(a: [[u32; 2]; 2]) -> (r: Self) {
        Mat2::new(a[0][0], a[0][1], a[1][0], a[1][1])
    }
}

impl vstd::std_specs::convert::FromSpecImpl<[[u32; 2]; 2]> for Mat2 {
    open spec fn obeys_from_spec() -> bool {
        true
    }

    open spec fn from_spec(a: [[u32; 2]; 2]) -> Self {
        Mat2::of_array(a)
    }
}

impl From<Mat2> for [[u32; 2]; 2] {
    /// Writes the entries to nested arrays: the entry at `(i, j)` becomes `[i][j]`.
    fn from(m: Mat2) -> (r: Self) {
        [[m.m00, m.m01], [m.m10, m.m11]]
    }
}

impl vstd::std_specs::convert::FromSpecImpl<Mat2> for [[u32; 2]; 2] {
    open spec fn obeys_from_spec() -> bool {
        true
    }

    open spec fn from_spec(m: Mat2) -> Self {
        m.array()
    }
}

/// Double-precision 2x2 matrix.
///
/// Field `mij` is the entry at index `(i, j)`: entry `j` of the inner array `i`
/// in the array form.
#[derive(Clone, Copy, Debug)]
pub struct DMat2 {
    pub m00: u64,
    pub m01: u64,
    pub m10: u64,
    pub m11: u64,
}

impl View for DMat2 {
    type V = Seq<Seq<u64>>;

    /// The entries, grouped by first index.
    open spec fn view(&self) -> Seq<Seq<u64>> {
        seq![
            seq![self.m00, self.m01],
            seq![self.m10, self.m11],
        ]
    }
}

impl DMat2 {
    /// The entry at index `(i, j)`.
    pub open spec fn at(self, i: int, j: int) -> u64
        recommends
            0 <= i < 2,
            0 <= j < 2,
    {
        self@[i][j]
    }

    /// The matrix whose entry at `(i, j)` is `f(i, j)`.
    pub open spec fn from_entries(f: spec_fn(int, int) -> u64) -> Self {
        DMat2 {
            m00: f(0, 0),
            m01: f(0, 1),
            m10: f(1, 0),
            m11: f(1, 1),
        }
    }

    /// The banded matrix with `di` on the diagonal, `up` at `(i, i + 1)`, `lo` at
    /// `(i + 1, i)` and zero elsewhere.
    pub open spec fn banded(lo: u64, di: u64, up: u64) -> Self {
        DMat2::from_entries(
            |i: int, j: int|
                if i == j {
                    di
                } else if j == i + 1 {
                    up
                } else if i == j + 1 {
                    lo
                } else {
                    DZERO
                },
        )
    }

    /// The transpose: the entry at `(i, j)` is this matrix's entry at `(j, i)`.
    pub open spec fn transposed(self) -> Self {
        DMat2::from_entries(|i: int, j: int| self.at(j, i))
    }

    /// The matrix whose entry at `(i, j)` is `a[i][j]`.
    pub open spec fn of_array(a: [[u64; 2]; 2]) -> Self {
        DMat2::from_entries(|i: int, j: int| a[i][j])
    }

    /// The entries as nested arrays: `array()[i][j]` is the entry at `(i, j)`.
    pub open spec fn array(self) -> [[u64; 2]; 2] {
        [[self.m00, self.m01], [self.m10, self.m11]]
    }

    /// IEEE equality of every pair of entries: what `==` computes.
    pub open spec fn same(self, other: Self) -> bool {
        &&& same64(self.m00, other.m00)
        &&& same64(self.m01, other.m01)
        &&& same64(self.m10, other.m10)
        &&& same64(self.m11, other.m11)
    }

    /// Full constructor. The arguments are the entries ordered by index: `(0, 0)`,
    /// `(0, 1)` and so on.
    pub fn new(m00: u64, m01: u64, m10: u64, m11: u64) -> (m: Self)
        ensures
            m == (DMat2 { m00, m01, m10, m11 }),
    {
        DMat2 { m00, m01, m10, m11 }
    }

    /// Identity constructor: one on the diagonal, zero elsewhere.
    pub fn identity() -> (m: Self)
        ensures
            m == DMat2::banded(DZERO, DONE, DZERO),
    {
        DMat2::diagonal(DONE)
    }

    /// Diagonal constructor: `di` on the diagonal, zero elsewhere.
    pub fn diagonal(di: u64) -> (m: Self)
        ensures
            m == DMat2::banded(DZERO, di, DZERO),
    {
        DMat2::tridiagonal(DZERO, di, DZERO)
    }

    /// Tri-diagonal constructor.
    pub fn tridiagonal(lo: u64, di: u64, up: u64) -> (m: Self)
        ensures
            m == DMat2::banded(lo, di, up),
    {
        DMat2::new(di, up, lo, di)
    }

    /// Returns the matrix transpose.
    pub fn transpose(self) -> (m: Self)
        ensures
            m == self.transposed(),
    {
        DMat2::new(self.m00, self.m10, self.m01, self.m11)
    }

    /// `from_entries(f)` has `f(i, j)` at every index `(i, j)`.
    pub proof fn lemma_from_entries(f: spec_fn(int, int) -> u64, i: int, j: int)
        requires
            0 <= i < 2,
            0 <= j < 2,
        ensures
            DMat2::from_entries(f).at(i, j) == f(i, j),
    {
    }

    /// Two matrices that agree at every index are equal.
    pub proof fn lemma_ext_equal(a: Self, b: Self)
        requires
            forall|i: int, j: int| 0 <= i < 2 && 0 <= j < 2 ==> a.at(i, j) == b.at(i, j),
        ensures
            a == b,
    {
        assert(a.at(0, 0) == b.at(0, 0));
        assert(a.at(0, 1) == b.at(0, 1));
        assert(a.at(1, 0) == b.at(1, 0));
        assert(a.at(1, 1) == b.at(1, 1));
    }

    /// The transpose has at `(i, j)` what the matrix has at `(j, i)`.
    pub proof fn lemma_transposed_at(m: Self, i: int, j: int)
        requires
            0 <= i < 2,
            0 <= j < 2,
        ensures
            m.transposed().at(i, j) == m.at(j, i),
    {
    }

    /// Transposing a banded matrix swaps the bands beside the diagonal.
    pub proof fn lemma_transpose_banded(lo: u64, di: u64, up: u64)
        ensures
            DMat2::banded(lo, di, up).transposed() == DMat2::banded(up, di, lo),
    {
    }

    /// Transposing twice gives the matrix back, bit for bit.
    pub proof fn lemma_transpose_involution(m: Self)
        ensures
            m.transposed().transposed() == m,
    {
    }

    /// Nested arrays turned into a matrix and back are the same arrays again.
    pub proof fn lemma_array_round_trip(a: [[u64; 2]; 2])
        ensures
            <[[u64; 2]; 2]>::from_spec(DMat2::from_spec(a)) == a,
            DMat2::of_array(a).array() == a,
    {
        let b = DMat2::of_array(a).array();
        assert forall|i: int| 0 <= i < 2 implies b[i] == a[i] by {
            assert(b[i] =~= a[i]);
        }
        assert(b =~= a);
    }

    /// A matrix turned into nested arrays and back is the matrix again.
    pub proof fn lemma_matrix_round_trip(m: Self)
        ensures
            DMat2::from_spec(<[[u64; 2]; 2]>::from_spec(m)) == m,
            DMat2::of_array(m.array()) == m,
    {
    }

    /// Growing to 3x3 and shrinking again gives the matrix back.
    pub proof fn lemma_grow_shrink(m: Self)
        ensures
            DMat2::from_spec(DMat3::from_spec(m)) == m,
    {
    }
}

impl Default for DMat2 {
    /// The identity matrix.
    fn default() -> (m: Self)
        ensures
            m == DMat2::banded(DZERO, DONE, DZERO),
    {
        DMat2::identity()
    }
}

impl PartialEq for DMat2 {
    fn eq(&self, other: &Self) -> (r: bool) {
        eq64(self.m00, other.m00) && eq64(self.m01, other.m01)
            && eq64(self.m10, other.m10) && eq64(self.m11, other.m11)
    }
}

impl PartialEqSpecImpl for DMat2 {
    open spec fn obeys_eq_spec() -> bool {
        true
    }

    open spec fn eq_spec(&self, other: &Self) -> bool {
        self.same(*other)
    }
}

impl From<u64> for DMat2 {
    /// The matrix with `arg` on the diagonal and zero elsewhere.
    fn from(arg: u64) -> (r: Self) {
        DMat2::diagonal(arg)
    }
}

impl vstd::std_specs::convert::FromSpecImpl<u64> for DMat2 {
    open spec fn obeys_from_spec() -> bool {
        true
    }

    open spec fn from_spec(arg: u64) -> Self {
        DMat2::banded(DZERO, arg, DZERO)
    }
}

impl From<u32> for DMat2 {
    /// The diagonal matrix of a scalar of the other precision, widened first.
    fn from(arg: u32) -> (r: Self) {
        DMat2::diagonal(widen(arg))
    }
}

impl vstd::std_specs::convert::FromSpecImpl<u32> for DMat2 {
    open spec fn obeys_from_spec() -> bool {
        true
    }

    open spec fn from_spec(arg: u32) -> Self {
        DMat2::banded(DZERO, widen_spec(arg), DZERO)
    }
}

impl From<Mat2> for DMat2 {
    /// Widens every entry to double precision.
    fn from(arg: Mat2) -> (r: Self) {
        DMat2::new(widen(arg.m00), widen(arg.m01), widen(arg.m10), widen(arg.m11))
    }
}

impl vstd::std_specs::convert::FromSpecImpl<Mat2> for DMat2 {
    open spec fn obeys_from_spec() -> bool {
        true
    }

    open spec fn from_spec(arg: Mat2) -> Self {
        DMat2::from_entries(|i: int, j: int| widen_spec(arg.at(i, j)))
    }
}

impl From<DMat3> for DMat2 {
    /// Keeps the entries with both indexes below 2.
    fn from(arg: DMat3) -> (r: Self) {
        DMat2::new(arg.m00, arg.m01, arg.m10, arg.m11)
    }
}

impl vstd::std_specs::convert::FromSpecImpl<DMat3> for DMat2 {
    open spec fn obeys_from_spec() -> bool {
        true
    }

    open spec fn from_spec(arg: DMat3) -> Self {
        DMat2::from_entries(|i: int, j: int| arg.at(i, j))
    }
}

impl From<Mat3> for DMat2 {
    /// Keeps the entries with both indexes below 2, each converted to this precision.
    fn from(arg: Mat3) -> (r: Self) {
        DMat2::from(DMat3::from(arg))
    }
}

impl vstd::std_specs::convert::FromSpecImpl<Mat3> for DMat2 {
    open spec fn obeys_from_spec() -> bool {
        true
    }

    open spec fn from_spec(arg: Mat3) -> Self {
        DMat2::from_entries(|i: int, j: int| widen_spec(arg.at(i, j)))
    }
}

impl From<DMat4> for DMat2 {
    /// Keeps the entries with both indexes below 2.
    fn from(arg: DMat4) -> (r: Self) {
        DMat2::from(DMat3::from(arg))
    }
}

impl vstd::std_specs::convert::FromSpecImpl<DMat4> for DMat2 {
    open spec fn obeys_from_spec() -> bool {
        true
    }

    open spec fn from_spec(arg: DMat4) -> Self {
        DMat2::from_entries(|i: int, j: int| arg.at(i, j))
    }
}

impl From<Mat4> for DMat2 {
    /// Keeps the entries with both indexes below 2, each converted to this precision.
    fn from(arg: Mat4) -> (r: Self) {
        DMat2::from(DMat3::from(arg))
    }
}

impl vstd::std_specs::convert::FromSpecImpl<Mat4> for DMat2 {
    open spec fn obeys_from_spec() -> bool {
        true
    }

    open spec fn from_spec(arg: Mat4) -> Self {
        DMat2::from_entries(|i: int, j: int| widen_spec(arg.at(i, j)))
    }
}

impl From<[[u64; 2]; 2]> for DMat2 {
    /// Reads the entries from nested arrays: `a[i][j]` becomes the entry at `(i, j)`.
    fn from(a: [[u64; 2]; 2]) -> (r: Self) {
        DMat2::new(a[0][0], a[0][1], a[1][0], a[1][1])
    }
}

impl vstd::std_specs::convert::FromSpecImpl<[[u64; 2]; 2]> for DMat2 {
    open spec fn obeys_from_spec() -> bool {
        true
    }

    open spec fn from_spec(a: [[u64; 2]; 2]) -> Self {
        DMat2::of_array(a)
    }
}

impl From<DMat2> for [[u64; 2]; 2] {
    /// Writes the entries to nested arrays: the entry at `(i, j)` becomes `[i][j]`.
    fn from(m: DMat2) -> (r: Self) {
        [[m.m00, m.m01], [m.m10, m.m11]]
    }
}

impl vstd::std_specs::convert::FromSpecImpl<DMat2> for [[u64; 2]; 2] {
    open spec fn obeys_from_spec() -> bool {
        true
    }

    open spec fn from_spec(m: DMat2) -> Self {
        m.array()
    }
}

/// Single-precision 3x3 matrix.
///
/// Field `mij` is the entry at index `(i, j)`: entry `j` of the inner array `i`
/// in the array form.
#[derive(Clone, Copy, Debug)]
pub struct Mat3 {
    pub m00: u32,
    pub m01: u32,
    pub m02: u32,
    pub m10: u32,
    pub m11: u32,
    pub m12: u32,
    pub m20: u32,
    pub m21: u32,
    pub m22: u32,
}

impl View for Mat3 {
    type V = Seq<Seq<u32>>;

    /// The entries, grouped by first index.
    open spec fn view(&self) -> Seq<Seq<u32>> {
        seq![
            seq![self.m00, self.m01, self.m02],
            seq![self.m10, self.m11, self.m12],
            seq![self.m20, self.m21, self.m22],
        ]
    }
}

impl Mat3 {
    /// The entry at index `(i, j)`.
    pub open spec fn at(self, i: int, j: int) -> u32
        recommends
            0 <= i < 3,
            0 <= j < 3,
    {
        self@[i][j]
    }

    /// The matrix whose entry at `(i, j)` is `f(i, j)`.
    pub open spec fn from_entries(f: spec_fn(int, int) -> u32) -> Self {
        Mat3 {
            m00: f(0, 0),
            m01: f(0, 1),
            m02: f(0, 2),
            m10: f(1, 0),
            m11: f(1, 1),
            m12: f(1, 2),
            m20: f(2, 0),
            m21: f(2, 1),
            m22: f(2, 2),
        }
    }

    /// The banded matrix with `di` on the diagonal, `up` at `(i, i + 1)`, `lo` at
    /// `(i + 1, i)` and zero elsewhere.
    pub open spec fn banded(lo: u32, di: u32, up: u32) -> Self {
        Mat3::from_entries(
            |i: int, j: int|
                if i == j {
                    di
                } else if j == i + 1 {
                    up
                } else if i == j + 1 {
                    lo
                } else {
                    ZERO
                },
        )
    }

    /// The transpose: the entry at `(i, j)` is this matrix's entry at `(j, i)`.
    pub open spec fn transposed(self) -> Self {
        Mat3::from_entries(|i: int, j: int| self.at(j, i))
    }

    /// The matrix whose entry at `(i, j)` is `a[i][j]`.
    pub open spec fn of_array(a: [[u32; 3]; 3]) -> Self {
        Mat3::from_entries(|i: int, j: int| a[i][j])
    }

    /// The entries as nested arrays: `array()[i][j]` is the entry at `(i, j)`.
    pub open spec fn array(self) -> [[u32; 3]; 3] {
        [
            [self.m00, self.m01, self.m02],
            [self.m10, self.m11, self.m12],
            [self.m20, self.m21, self.m22],
        ]
    }

    /// IEEE equality of every pair of entries: what `==` computes.
    pub open spec fn same(self, other: Self) -> bool {
        &&& same32(self.m00, other.m00)
        &&& same32(self.m01, other.m01)
        &&& same32(self.m02, other.m02)
        &&& same32(self.m10, other.m10)
        &&& same32(self.m11, other.m11)
        &&& same32(self.m12, other.m12)
        &&& same32(self.m20, other.m20)
        &&& same32(self.m21, other.m21)
        &&& same32(self.m22, other.m22)
    }

    /// Full constructor. The arguments are the entries ordered by index: `(0, 0)`,
    /// `(0, 1)` and so on.
    pub fn new(
        m00: u32,
        m01: u32,
        m02: u32,
        m10: u32,
        m11: u32,
        m12: u32,
        m20: u32,
        m21: u32,
        m22: u32,
    ) -> (m: Self)
        ensures
            m == (Mat3 {
                m00, m01, m02, m10, m11, m12, m20, m21, m22,
            }),
    {
        Mat3 {
            m00, m01, m02, m10, m11, m12, m20, m21, m22,
        }
    }

    /// Identity constructor: one on the diagonal, zero elsewhere.
    pub fn identity() -> (m: Self)
        ensures
            m == Mat3::banded(ZERO, ONE, ZERO),
    {
        Mat3::diagonal(ONE)
    }

    /// Diagonal constructor: `di` on the diagonal, zero elsewhere.
    pub fn diagonal(di: u32) -> (m: Self)
        ensures
            m == Mat3::banded(ZERO, di, ZERO),
    {
        Mat3::tridiagonal(ZERO, di, ZERO)
    }

    /// Tri-diagonal constructor.
    pub fn tridiagonal(lo: u32, di: u32, up: u32) -> (m: Self)
        ensures
            m == Mat3::banded(lo, di, up),
    {
        Mat3::new(di, up, ZERO, lo, di, up, ZERO, lo, di)
    }

    /// Returns the matrix transpose.
    pub fn transpose(self) -> (m: Self)
        ensures
            m == self.transposed(),
    {
        Mat3::new(
            self.m00, self.m10, self.m20, self.m01, self.m11, self.m21, self.m02, self.m12,
            self.m22,
        )
    }

    /// `from_entries(f)` has `f(i, j)` at every index `(i, j)`.
    pub proof fn lemma_from_entries(f: spec_fn(int, int) -> u32, i: int, j: int)
        requires
            0 <= i < 3,
            0 <= j < 3,
        ensures
            Mat3::from_entries(f).at(i, j) == f(i, j),
    {
    }

    /// Two matrices that agree at every index are equal.
    pub proof fn lemma_ext_equal(a: Self, b: Self)
        requires
            forall|i: int, j: int| 0 <= i < 3 && 0 <= j < 3 ==> a.at(i, j) == b.at(i, j),
        ensures
            a == b,
    {
        assert(a.at(0, 0) == b.at(0, 0));
        assert(a.at(0, 1) == b.at(0, 1));
        assert(a.at(0, 2) == b.at(0, 2));
        assert(a.at(1, 0) == b.at(1, 0));
        assert(a.at(1, 1) == b.at(1, 1));
        assert(a.at(1, 2) == b.at(1, 2));
        assert(a.at(2, 0) == b.at(2, 0));
        assert(a.at(2, 1) == b.at(2, 1));
        assert(a.at(2, 2) == b.at(2, 2));
    }

    /// The transpose has at `(i, j)` what the matrix has at `(j, i)`.
    pub proof fn lemma_transposed_at(m: Self, i: int, j: int)
        requires
            0 <= i < 3,
            0 <= j < 3,
        ensures
            m.transposed().at(i, j) == m.at(j, i),
    {
    }

    /// Transposing a banded matrix swaps the bands beside the diagonal.
    pub proof fn lemma_transpose_banded(lo: u32, di: u32, up: u32)
        ensures
            Mat3::banded(lo, di, up).transposed() == Mat3::banded(up, di, lo),
    {
    }

    /// Transposing twice gives the matrix back, bit for bit.
    pub proof fn lemma_transpose_involution(m: Self)
        ensures
            m.transposed().transposed() == m,
    {
    }

    /// Nested arrays turned into a matrix and back are the same arrays again.
    pub proof fn lemma_array_round_trip(a: [[u32; 3]; 3])
        ensures
            <[[u32; 3]; 3]>::from_spec(Mat3::from_spec(a)) == a,
            Mat3::of_array(a).array() == a,
    {
        let b = Mat3::of_array(a).array();
        assert forall|i: int| 0 <= i < 3 implies b[i] == a[i] by {
            assert(b[i] =~= a[i]);
        }
        assert(b =~= a);
    }

    /// A matrix turned into nested arrays and back is the matrix again.
    pub proof fn lemma_matrix_round_trip(m: Self)
        ensures
            Mat3::from_spec(<[[u32; 3]; 3]>::from_spec(m)) == m,
            Mat3::of_array(m.array()) == m,
    {
    }

    /// Growing to 4x4 and shrinking again gives the matrix back.
    pub proof fn lemma_grow_shrink(m: Self)
        ensures
            Mat3::from_spec(Mat4::from_spec(m)) == m,
    {
    }

    /// Widening a matrix and narrowing it again gives back every entry that is
    /// not a NaN bit for bit, and a NaN as a NaN: a matrix that equals itself
    /// comes back whole.
    pub proof fn lemma_widen_round_trip(m: Self, i: int, j: int)
        requires
            0 <= i < 3,
            0 <= j < 3,
        ensures
            m.same(m) ==> Mat3::from_spec(DMat3::from_spec(m)) == m,
            !is_nan32(m.at(i, j)) ==> Mat3::from_spec(DMat3::from_spec(m)).at(i, j) == m.at(i, j),
            is_nan32(m.at(i, j)) ==> is_nan32(Mat3::from_spec(DMat3::from_spec(m)).at(i, j)),
    {
        lemma_widen_narrow(m.m00);
        lemma_widen_narrow(m.m01);
        lemma_widen_narrow(m.m02);
        lemma_widen_narrow(m.m10);
        lemma_widen_narrow(m.m11);
        lemma_widen_narrow(m.m12);
        lemma_widen_narrow(m.m20);
        lemma_widen_narrow(m.m21);
        lemma_widen_narrow(m.m22);
    }
}

impl Default for Mat3 {
    /// The identity matrix.
    fn default() -> (m: Self)
        ensures
            m == Mat3::banded(ZERO, ONE, ZERO),
    {
        Mat3::identity()
    }
}

impl PartialEq for Mat3 {
    fn eq(&self, other: &Self) -> (r: bool) {
        eq32(self.m00, other.m00)
            && eq32(self.m01, other.m01)
            && eq32(self.m02, other.m02)
            && eq32(self.m10, other.m10)
            && eq32(self.m11, other.m11)
            && eq32(self.m12, other.m12)
            && eq32(self.m20, other.m20)
            && eq32(self.m21, other.m21)
            && eq32(self.m22, other.m22)
    }
}

impl PartialEqSpecImpl for Mat3 {
    open spec fn obeys_eq_spec() -> bool {
        true
    }

    open spec fn eq_spec(&self, other: &Self) -> bool {
        self.same(*other)
    }
}

impl From<u32> for Mat3 {
    /// The matrix with `arg` on the diagonal and zero elsewhere.
    fn from(arg: u32) -> (r: Self) {
        Mat3::diagonal(arg)
    }
}

impl vstd::std_specs::convert::FromSpecImpl<u32> for Mat3 {
    open spec fn obeys_from_spec() -> bool {
        true
    }

    open spec fn from_spec(arg: u32) -> Self {
        Mat3::banded(ZERO, arg, ZERO)
    }
}

impl From<u64> for Mat3 {
    /// The diagonal matrix of a scalar of the other precision, rounded first.
    fn from(arg: u64) -> (r: Self) {
        Mat3::diagonal(narrow(arg))
    }
}

impl vstd::std_specs::convert::FromSpecImpl<u64> for Mat3 {
    open spec fn obeys_from_spec() -> bool {
        true
    }

    open spec fn from_spec(arg: u64) -> Self {
        Mat3::banded(ZERO, narrow_spec(arg), ZERO)
    }
}

impl From<DMat3> for Mat3 {
    /// Rounds every entry to single precision.
    fn from(arg: DMat3) -> (r: Self) {
        Mat3::new(
            narrow(arg.m00), narrow(arg.m01), narrow(arg.m02), narrow(arg.m10), narrow(arg.m11),
            narrow(arg.m12), narrow(arg.m20), narrow(arg.m21), narrow(arg.m22),
        )
    }
}

impl vstd::std_specs::convert::FromSpecImpl<DMat3> for Mat3 {
    open spec fn obeys_from_spec() -> bool {
        true
    }

    open spec fn from_spec(arg: DMat3) -> Self {
        Mat3::from_entries(|i: int, j: int| narrow_spec(arg.at(i, j)))
    }
}

impl From<Mat2> for Mat3 {
    /// Keeps the entries and fills the rest from the identity.
    fn from(arg: Mat2) -> (r: Self) {
        Mat3::new(arg.m00, arg.m01, ZERO, arg.m10, arg.m11, ZERO, ZERO, ZERO, ONE)
    }
}

impl vstd::std_specs::convert::FromSpecImpl<Mat2> for Mat3 {
    open spec fn obeys_from_spec() -> bool {
        true
    }

    open spec fn from_spec(arg: Mat2) -> Self {
        Mat3::from_entries(
            |i: int, j: int|
                if i < 2 && j < 2 {
                    arg.at(i, j)
                } else if i == j {
                    ONE
                } else {
                    ZERO
                },
        )
    }
}

impl From<DMat2> for Mat3 {
    /// Keeps the entries, each converted to this precision, and fills the rest from the identity.
    fn from(arg: DMat2) -> (r: Self) {
        Mat3::from(Mat2::from(arg))
    }
}

impl vstd::std_specs::convert::FromSpecImpl<DMat2> for Mat3 {
    open spec fn obeys_from_spec() -> bool {
        true
    }

    open spec fn from_spec(arg: DMat2) -> Self {
        Mat3::from_entries(
            |i: int, j: int|
                if i < 2 && j < 2 {
                    narrow_spec(arg.at(i, j))
                } else if i == j {
                    ONE
                } else {
                    ZERO
                },
        )
    }
}

impl From<Mat4> for Mat3 {
    /// Keeps the entries with both indexes below 3.
    fn from(arg: Mat4) -> (r: Self) {
        Mat3::new(
            arg.m00, arg.m01, arg.m02, arg.m10, arg.m11, arg.m12, arg.m20, arg.m21, arg.m22,
        )
    }
}

impl vstd::std_specs::convert::FromSpecImpl<Mat4> for Mat3 {
    open spec fn obeys_from_spec() -> bool {
        true
    }

    open spec fn from_spec(arg: Mat4) -> Self {
        Mat3::from_entries(|i: int, j: int| arg.at(i, j))
    }
}

impl From<DMat4> for Mat3 {
    /// Keeps the entries with both indexes below 3, each converted to this precision.
    fn from(arg: DMat4) -> (r: Self) {
        Mat3::from(Mat4::from(arg))
    }
}

impl vstd::std_specs::convert::FromSpecImpl<DMat4> for Mat3 {
    open spec fn obeys_from_spec() -> bool {
        true
    }

    open spec fn from_spec(arg: DMat4) -> Self {
        Mat3::from_entries(|i: int, j: int| narrow_spec(arg.at(i, j)))
    }
}

impl From<[[u32; 3]; 3]> for Mat3 {
    /// Reads the entries from nested arrays: `a[i][j]` becomes the entry at `(i, j)`.
    fn from(a: [[u32; 3]; 3]) -> (r: Self) {
        Mat3::new(
            a[0][0], a[0][1], a[0][2], a[1][0], a[1][1], a[1][2], a[2][0], a[2][1], a[2][2],
        )
    }
}

impl vstd::std_specs::convert::FromSpecImpl<[[u32; 3]; 3]> for Mat3 {
    open spec fn obeys_from_spec() -> bool {
        true
    }

    open spec fn from_spec(a: [[u32; 3]; 3]) -> Self {
        Mat3::of_array(a)
    }
}

impl From<Mat3> for [[u32; 3]; 3] {
    /// Writes the entries to nested arrays: the entry at `(i, j)` becomes `[i][j]`.
    fn from(m: Mat3) -> (r: Self) {
        [
            [m.m00, m.m01, m.m02],
            [m.m10, m.m11, m.m12],
            [m.m20, m.m21, m.m22],
        ]
    }
}

impl vstd::std_specs::convert::FromSpecImpl<Mat3> for [[u32; 3]; 3] {
    open spec fn obeys_from_spec() -> bool {
        true
    }

    open spec fn from_spec(m: Mat3) -> Self {
        m.array()
    }
}

/// Double-precision 3x3 matrix.
///
/// Field `mij` is the entry at index `(i, j)`: entry `j` of the inner array `i`
/// in the array form.
#[derive(Clone, Copy, Debug)]
pub struct DMat3 {
    pub m00: u64,
    pub m01: u64,
    pub m02: u64,
    pub m10: u64,
    pub m11: u64,
    pub m12: u64,
    pub m20: u64,
    pub m21: u64,
    pub m22: u64,
}

impl View for DMat3 {
    type V = Seq<Seq<u64>>;

    /// The entries, grouped by first index.
    open spec fn view(&self) -> Seq<Seq<u64>> {
        seq![
            seq![self.m00, self.m01, self.m02],
            seq![self.m10, self.m11, self.m12],
            seq![self.m20, self.m21, self.m22],
        ]
    }
}

impl DMat3 {
    /// The entry at index `(i, j)`.
    pub open spec fn at(self, i: int, j: int) -> u64
        recommends
            0 <= i < 3,
            0 <= j < 3,
    {
        self@[i][j]
    }

    /// The matrix whose entry at `(i, j)` is `f(i, j)`.
    pub open spec fn from_entries(f: spec_fn(int, int) -> u64) -> Self {
        DMat3 {
            m00: f(0, 0),
            m01: f(0, 1),
            m02: f(0, 2),
            m10: f(1, 0),
            m11: f(1, 1),
            m12: f(1, 2),
            m20: f(2, 0),
            m21: f(2, 1),
            m22: f(2, 2),
        }
    }

    /// The banded matrix with `di` on the diagonal, `up` at `(i, i + 1)`, `lo` at
    /// `(i + 1, i)` and zero elsewhere.
    pub open spec fn banded(lo: u64, di: u64, up: u64) -> Self {
        DMat3::from_entries(
            |i: int, j: int|
                if i == j {
                    di
                } else if j == i + 1 {
                    up
                } else if i == j + 1 {
                    lo
                } else {
                    DZERO
                },
        )
    }

    /// The transpose: the entry at `(i, j)` is this matrix's entry at `(j, i)`.
    pub open spec fn transposed(self) -> Self {
        DMat3::from_entries(|i: int, j: int| self.at(j, i))
    }

    /// The matrix whose entry at `(i, j)` is `a[i][j]`.
    pub open spec fn of_array(a: [[u64; 3]; 3]) -> Self {
        DMat3::from_entries(|i: int, j: int| a[i][j])
    }

    /// The entries as nested arrays: `array()[i][j]` is the entry at `(i, j)`.
    pub open spec fn array(self) -> [[u64; 3]; 3] {
        [
            [self.m00, self.m01, self.m02],
            [self.m10, self.m11, self.m12],
            [self.m20, self.m21, self.m22],
        ]
    }

    /// IEEE equality of every pair of entries: what `==` computes.
    pub open spec fn same(self, other: Self) -> bool {
        &&& same64(self.m00, other.m00)
        &&& same64(self.m01, other.m01)
        &&& same64(self.m02, other.m02)
        &&& same64(self.m10, other.m10)
        &&& same64(self.m11, other.m11)
        &&& same64(self.m12, other.m12)
        &&& same64(self.m20, other.m20)
        &&& same64(self.m21, other.m21)
        &&& same64(self.m22, other.m22)
    }

    /// Full constructor. The arguments are the entries ordered by index: `(0, 0)`,
    /// `(0, 1)` and so on.
    pub fn new(
        m00: u64,
        m01: u64,
        m02: u64,
        m10: u64,
        m11: u64,
        m12: u64,
        m20: u64,
        m21: u64,
        m22: u64,
    ) -> (m: Self)
        ensures
            m == (DMat3 {
                m00, m01, m02, m10, m11, m12, m20, m21, m22,
            }),
    {
        DMat3 {
            m00, m01, m02, m10, m11, m12, m20, m21, m22,
        }
    }

    /// Identity constructor: one on the diagonal, zero elsewhere.
    pub fn identity() -> (m: Self)
        ensures
            m == DMat3::banded(DZERO, DONE, DZERO),
    {
        DMat3::diagonal(DONE)
    }

    /// Diagonal constructor: `di` on the diagonal, zero elsewhere.
    pub fn diagonal(di: u64) -> (m: Self)
        ensures
            m == DMat3::banded(DZERO, di, DZERO),
    {
        DMat3::tridiagonal(DZERO, di, DZERO)
    }

    /// Tri-diagonal constructor.
    pub fn tridiagonal(lo: u64, di: u64, up: u64) -> (m: Self)
        ensures
            m == DMat3::banded(lo, di, up),
    {
        DMat3::new(di, up, DZERO, lo, di, up, DZERO, lo, di)
    }

    /// Returns the matrix transpose.
    pub fn transpose(self) -> (m: Self)
        ensures
            m == self.transposed(),
    {
        DMat3::new(
            self.m00, self.m10, self.m20, self.m01, self.m11, self.m21, self.m02, self.m12,
            self.m22,
        )
    }

    /// `from_entries(f)` has `f(i, j)` at every index `(i, j)`.
    pub proof fn lemma_from_entries(f: spec_fn(int, int) -> u64, i: int, j: int)
        requires
            0 <= i < 3,
            0 <= j < 3,
        ensures
            DMat3::from_entries(f).at(i, j) == f(i, j),
    {
    }

    /// Two matrices that agree at every index are equal.
    pub proof fn lemma_ext_equal(a: Self, b: Self)
        requires
            forall|i: int, j: int| 0 <= i < 3 && 0 <= j < 3 ==> a.at(i, j) == b.at(i, j),
        ensures
            a == b,
    {
        assert(a.at(0, 0) == b.at(0, 0));
        assert(a.at(0, 1) == b.at(0, 1));
        assert(a.at(0, 2) == b.at(0, 2));
        assert(a.at(1, 0) == b.at(1, 0));
        assert(a.at(1, 1) == b.at(1, 1));
        assert(a.at(1, 2) == b.at(1, 2));
        assert(a.at(2, 0) == b.at(2, 0));
        assert(a.at(2, 1) == b.at(2, 1));
        assert(a.at(2, 2) == b.at(2, 2));
    }

    /// The transpose has at `(i, j)` what the matrix has at `(j, i)`.
    pub proof fn lemma_transposed_at(m: Self, i: int, j: int)
        requires
            0 <= i < 3,
            0 <= j < 3,
        ensures
            m.transposed().at(i, j) == m.at(j, i),
    {
    }

    /// Transposing a banded matrix swaps the bands beside the diagonal.
    pub proof fn lemma_transpose_banded(lo: u64, di: u64, up: u64)
        ensures
            DMat3::banded(lo, di, up).transposed() == DMat3::banded(up, di, lo),
    {
    }

    /// Transposing twice gives the matrix back, bit for bit.
    pub proof fn lemma_transpose_involution(m: Self)
        ensures
            m.transposed().transposed() == m,
    {
    }

    /// Nested arrays turned into a matrix and back are the same arrays again.
    pub proof fn lemma_array_round_trip(a: [[u64; 3]; 3])
        ensures
            <[[u64; 3]; 3]>::from_spec(DMat3::from_spec(a)) == a,
            DMat3::of_array(a).array() == a,
    {
        let b = DMat3::of_array(a).array();
        assert forall|i: int| 0 <= i < 3 implies b[i] == a[i] by {
            assert(b[i] =~= a[i]);
        }
        assert(b =~= a);
    }

    /// A matrix turned into nested arrays and back is the matrix again.
    pub proof fn lemma_matrix_round_trip(m: Self)
        ensures
            DMat3::from_spec(<[[u64; 3]; 3]>::from_spec(m)) == m,
            DMat3::of_array(m.array()) == m,
    {
    }

    /// Growing to 4x4 and shrinking again gives the matrix back.
    pub proof fn lemma_grow_shrink(m: Self)
        ensures
            DMat3::from_spec(DMat4::from_spec(m)) == m,
    {
    }
}

impl Default for DMat3 {
    /// The identity matrix.
    fn default() -> (m: Self)
        ensures
            m == DMat3::banded(DZERO, DONE, DZERO),
    {
        DMat3::identity()
    }
}

impl PartialEq for DMat3 {
    fn eq(&self, other: &Self) -> (r: bool) {
        eq64(self.m00, other.m00)
            && eq64(self.m01, other.m01)
            && eq64(self.m02, other.m02)
            && eq64(self.m10, other.m10)
            && eq64(self.m11, other.m11)
            && eq64(self.m12, other.m12)
            && eq64(self.m20, other.m20)
            && eq64(self.m21, other.m21)
            && eq64(self.m22, other.m22)
    }
}

impl PartialEqSpecImpl for DMat3 {
    open spec fn obeys_eq_spec() -> bool {
        true
    }

    open spec fn eq_spec(&self, other: &Self) -> bool {
        self.same(*other)
    }
}

impl From<u64> for DMat3 {
    /// The matrix with `arg` on the diagonal and zero elsewhere.
    fn from(arg: u64) -> (r: Self) {
        DMat3::diagonal(arg)
    }
}

impl vstd::std_specs::convert::FromSpecImpl<u64> for DMat3 {
    open spec fn obeys_from_spec() -> bool {
        true
    }

    open spec fn from_spec(arg: u64) -> Self {
        DMat3::banded(DZERO, arg, DZERO)
    }
}

impl From<u32> for DMat3 {
    /// The diagonal matrix of a scalar of the other precision, widened first.
    fn from(arg: u32) -> (r: Self) {
        DMat3::diagonal(widen(arg))
    }
}

impl vstd::std_specs::convert::FromSpecImpl<u32> for DMat3 {
    open spec fn obeys_from_spec() -> bool {
        true
    }

    open spec fn from_spec(arg: u32) -> Self {
        DMat3::banded(DZERO, widen_spec(arg), DZERO)
    }
}

impl From<Mat3> for DMat3 {
    /// Widens every entry to double precision.
    fn from(arg: Mat3) -> (r: Self) {
        DMat3::new(
            widen(arg.m00), widen(arg.m01), widen(arg.m02), widen(arg.m10), widen(arg.m11),
            widen(arg.m12), widen(arg.m20), widen(arg.m21), widen(arg.m22),
        )
    }
}

impl vstd::std_specs::convert::FromSpecImpl<Mat3> for DMat3 {
    open spec fn obeys_from_spec() -> bool {
        true
    }

    open spec fn from_spec(arg: Mat3) -> Self {
        DMat3::from_entries(|i: int, j: int| widen_spec(arg.at(i, j)))
    }
}

impl From<DMat2> for DMat3 {
    /// Keeps the entries and fills the rest from the identity.
    fn from(arg: DMat2) -> (r: Self) {
        DMat3::new(arg.m00, arg.m01, DZERO, arg.m10, arg.m11, DZERO, DZERO, DZERO, DONE)
    }
}

impl vstd::std_specs::convert::FromSpecImpl<DMat2> for DMat3 {
    open spec fn obeys_from_spec() -> bool {
        true
    }

    open spec fn from_spec(arg: DMat2) -> Self {
        DMat3::from_entries(
            |i: int, j: int|
                if i < 2 && j < 2 {
                    arg.at(i, j)
                } else if i == j {
                    DONE
                } else {
                    DZERO
                },
        )
    }
}

impl From<Mat2> for DMat3 {
    /// Keeps the entries, each converted to this precision, and fills the rest from the identity.
    fn from(arg: Mat2) -> (r: Self) {
        DMat3::from(DMat2::from(arg))
    }
}

impl vstd::std_specs::convert::FromSpecImpl<Mat2> for DMat3 {
    open spec fn obeys_from_spec() -> bool {
        true
    }

    open spec fn from_spec(arg: Mat2) -> Self {
        DMat3::from_entries(
            |i: int, j: int|
                if i < 2 && j < 2 {
                    widen_spec(arg.at(i, j))
                } else if i == j {
                    DONE
                } else {
                    DZERO
                },
        )
    }
}

impl From<DMat4> for DMat3 {
    /// Keeps the entries with both indexes below 3.
    fn from(arg: DMat4) -> (r: Self) {
        DMat3::new(
            arg.m00, arg.m01, arg.m02, arg.m10, arg.m11, arg.m12, arg.m20, arg.m21, arg.m22,
        )
    }
}

impl vstd::std_specs::convert::FromSpecImpl<DMat4> for DMat3 {
    open spec fn obeys_from_spec() -> bool {
        true
    }

    open spec fn from_spec(arg: DMat4) -> Self {
        DMat3::from_entries(|i: int, j: int| arg.at(i, j))
    }
}

impl From<Mat4> for DMat3 {
    /// Keeps the entries with both indexes below 3, each converted to this precision.
    fn from(arg: Mat4) -> (r: Self) {
        DMat3::from(DMat4::from(arg))
    }
}

impl vstd::std_specs::convert::FromSpecImpl<Mat4> for DMat3 {
    open spec fn obeys_from_spec() -> bool {
        true
    }

    open spec fn from_spec(arg: Mat4) -> Self {
        DMat3::from_entries(|i: int, j: int| widen_spec(arg.at(i, j)))
    }
}

impl From<[[u64; 3]; 3]> for DMat3 {
    /// Reads the entries from nested arrays: `a[i][j]` becomes the entry at `(i, j)`.
    fn from(a: [[u64; 3]; 3]) -> (r: Self) {
        DMat3::new(
            a[0][0], a[0][1], a[0][2], a[1][0], a[1][1], a[1][2], a[2][0], a[2][1], a[2][2],
        )
    }
}

impl vstd::std_specs::convert::FromSpecImpl<[[u64; 3]; 3]> for DMat3 {
    open spec fn obeys_from_spec() -> bool {
        true
    }

    open spec fn from_spec(a: [[u64; 3]; 3]) -> Self {
        DMat3::of_array(a)
    }
}

impl From<DMat3> for [[u64; 3]; 3] {
    /// Writes the entries to nested arrays: the entry at `(i, j)` becomes `[i][j]`.
    fn from(m: DMat3) -> (r: Self) {
        [
            [m.m00, m.m01, m.m02],
            [m.m10, m.m11, m.m12],
            [m.m20, m.m21, m.m22],
        ]
    }
}

impl vstd::std_specs::convert::FromSpecImpl<DMat3> for [[u64; 3]; 3] {
    open spec fn obeys_from_spec() -> bool {
        true
    }

    open spec fn from_spec(m: DMat3) -> Self {
        m.array()
    }
}

/// Single-precision 4x4 matrix.
///
/// Field `mij` is the entry at index `(i, j)`: entry `j` of the inner array `i`
/// in the array form.
#[derive(Clone, Copy, Debug)]
pub struct Mat4 {
    pub m00: u32,
    pub m01: u32,
    pub m02: u32,
    pub m03: u32,
    pub m10: u32,
    pub m11: u32,
    pub m12: u32,
    pub m13: u32,
    pub m20: u32,
    pub m21: u32,
    pub m22: u32,
    pub m23: u32,
    pub m30: u32,
    pub m31: u32,
    pub m32: u32,
    pub m33: u32,
}

impl View for Mat4 {
    type V = Seq<Seq<u32>>;

    /// The entries, grouped by first index.
    open spec fn view(&self) -> Seq<Seq<u32>> {
        seq![
            seq![self.m00, self.m01, self.m02, self.m03],
            seq![self.m10, self.m11, self.m12, self.m13],
            seq![self.m20, self.m21, self.m22, self.m23],
            seq![self.m30, self.m31, self.m32, self.m33],
        ]
    }
}

impl Mat4 {
    /// The entry at index `(i, j)`.
    pub open spec fn at(self, i: int, j: int) -> u32
        recommends
            0 <= i < 4,
            0 <= j < 4,
    {
        self@[i][j]
    }

    /// The matrix whose entry at `(i, j)` is `f(i, j)`.
    pub open spec fn from_entries(f: spec_fn(int, int) -> u32) -> Self {
        Mat4 {
            m00: f(0, 0),
            m01: f(0, 1),
            m02: f(0, 2),
            m03: f(0, 3),
            m10: f(1, 0),
            m11: f(1, 1),
            m12: f(1, 2),
            m13: f(1, 3),
            m20: f(2, 0),
            m21: f(2, 1),
            m22: f(2, 2),
            m23: f(2, 3),
            m30: f(3, 0),
            m31: f(3, 1),
            m32: f(3, 2),
            m33: f(3, 3),
        }
    }

    /// The banded matrix with `di` on the diagonal, `up` at `(i, i + 1)`, `lo` at
    /// `(i + 1, i)` and zero elsewhere.
    pub open spec fn banded(lo: u32, di: u32, up: u32) -> Self {
        Mat4::from_entries(
            |i: int, j: int|
                if i == j {
                    di
                } else if j == i + 1 {
                    up
                } else if i == j + 1 {
                    lo
                } else {
                    ZERO
                },
        )
    }

    /// The transpose: the entry at `(i, j)` is this matrix's entry at `(j, i)`.
    pub open spec fn transposed(self) -> Self {
        Mat4::from_entries(|i: int, j: int| self.at(j, i))
    }

    /// The matrix whose entry at `(i, j)` is `a[i][j]`.
    pub open spec fn of_array(a: [[u32; 4]; 4]) -> Self {
        Mat4::from_entries(|i: int, j: int| a[i][j])
    }

    /// The entries as nested arrays: `array()[i][j]` is the entry at `(i, j)`.
    pub open spec fn array(self) -> [[u32; 4]; 4] {
        [
            [self.m00, self.m01, self.m02, self.m03],
            [self.m10, self.m11, self.m12, self.m13],
            [self.m20, self.m21, self.m22, self.m23],
            [self.m30, self.m31, self.m32, self.m33],
        ]
    }

    /// IEEE equality of every pair of entries: what `==` computes.
    pub open spec fn same(self, other: Self) -> bool {
        &&& same32(self.m00, other.m00)
        &&& same32(self.m01, other.m01)
        &&& same32(self.m02, other.m02)
        &&& same32(self.m03, other.m03)
        &&& same32(self.m10, other.m10)
        &&& same32(self.m11, other.m11)
        &&& same32(self.m12, other.m12)
        &&& same32(self.m13, other.m13)
        &&& same32(self.m20, other.m20)
        &&& same32(self.m21, other.m21)
        &&& same32(self.m22, other.m22)
        &&& same32(self.m23, other.m23)
        &&& same32(self.m30, other.m30)
        &&& same32(self.m31, other.m31)
        &&& same32(self.m32, other.m32)
        &&& same32(self.m33, other.m33)
    }

    /// Full constructor. The arguments are the entries ordered by index: `(0, 0)`,
    /// `(0, 1)` and so on.
    pub fn new(
        m00: u32,
        m01: u32,
        m02: u32,
        m03: u32,
        m10: u32,
        m11: u32,
        m12: u32,
        m13: u32,
        m20: u32,
        m21: u32,
        m22: u32,
        m23: u32,
        m30: u32,
        m31: u32,
        m32: u32,
        m33: u32,
    ) -> (m: Self)
        ensures
            m == (Mat4 {
                m00, m01, m02, m03, m10, m11, m12, m13, m20, m21, m22, m23, m30, m31, m32, m33,
            }),
    {
        Mat4 {
            m00, m01, m02, m03, m10, m11, m12, m13, m20, m21, m22, m23, m30, m31, m32, m33,
        }
    }

    /// Identity constructor: one on the diagonal, zero elsewhere.
    pub fn identity() -> (m: Self)
        ensures
            m == Mat4::banded(ZERO, ONE, ZERO),
    {
        Mat4::diagonal(ONE)
    }

    /// Diagonal constructor: `di` on the diagonal, zero elsewhere.
    pub fn diagonal(di: u32) -> (m: Self)
        ensures
            m == Mat4::banded(ZERO, di, ZERO),
    {
        Mat4::tridiagonal(ZERO, di, ZERO)
    }

    /// Tri-diagonal constructor.
    pub fn tridiagonal(lo: u32, di: u32, up: u32) -> (m: Self)
        ensures
            m == Mat4::banded(lo, di, up),
    {
        Mat4::new(di, up, ZERO, ZERO, lo, di, up, ZERO, ZERO, lo, di, up, ZERO, ZERO, lo, di)
    }

    /// Returns the matrix transpose.
    pub fn transpose(self) -> (m: Self)
        ensures
            m == self.transposed(),
    {
        Mat4::new(
            self.m00, self.m10, self.m20, self.m30, self.m01, self.m11, self.m21, self.m31,
            self.m02, self.m12, self.m22, self.m32, self.m03, self.m13, self.m23, self.m33,
        )
    }

    /// `from_entries(f)` has `f(i, j)` at every index `(i, j)`.
    pub proof fn lemma_from_entries(f: spec_fn(int, int) -> u32, i: int, j: int)
        requires
            0 <= i < 4,
            0 <= j < 4,
        ensures
            Mat4::from_entries(f).at(i, j) == f(i, j),
    {
    }

    /// Two matrices that agree at every index are equal.
    pub proof fn lemma_ext_equal(a: Self, b: Self)
        requires
            forall|i: int, j: int| 0 <= i < 4 && 0 <= j < 4 ==> a.at(i, j) == b.at(i, j),
        ensures
            a == b,
    {
        assert(a.at(0, 0) == b.at(0, 0));
        assert(a.at(0, 1) == b.at(0, 1));
        assert(a.at(0, 2) == b.at(0, 2));
        assert(a.at(0, 3) == b.at(0, 3));
        assert(a.at(1, 0) == b.at(1, 0));
        assert(a.at(1, 1) == b.at(1, 1));
        assert(a.at(1, 2) == b.at(1, 2));
        assert(a.at(1, 3) == b.at(1, 3));
        assert(a.at(2, 0) == b.at(2, 0));
        assert(a.at(2, 1) == b.at(2, 1));
        assert(a.at(2, 2) == b.at(2, 2));
        assert(a.at(2, 3) == b.at(2, 3));
        assert(a.at(3, 0) == b.at(3, 0));
        assert(a.at(3, 1) == b.at(3, 1));
        assert(a.at(3, 2) == b.at(3, 2));
        assert(a.at(3, 3) == b.at(3, 3));
    }

    /// The transpose has at `(i, j)` what the matrix has at `(j, i)`.
    pub proof fn lemma_transposed_at(m: Self, i: int, j: int)
        requires
            0 <= i < 4,
            0 <= j < 4,
        ensures
            m.transposed().at(i, j) == m.at(j, i),
    {
    }

    /// Transposing a banded matrix swaps the bands beside the diagonal.
    pub proof fn lemma_transpose_banded(lo: u32, di: u32, up: u32)
        ensures
            Mat4::banded(lo, di, up).transposed() == Mat4::banded(up, di, lo),
    {
    }

    /// Transposing twice gives the matrix back, bit for bit.
    pub proof fn lemma_transpose_involution(m: Self)
        ensures
            m.transposed().transposed() == m,
    {
    }

    /// Nested arrays turned into a matrix and back are the same arrays again.
    pub proof fn lemma_array_round_trip(a: [[u32; 4]; 4])
        ensures
            <[[u32; 4]; 4]>::from_spec(Mat4::from_spec(a)) == a,
            Mat4::of_array(a).array() == a,
    {
        let b = Mat4::of_array(a).array();
        assert forall|i: int| 0 <= i < 4 implies b[i] == a[i] by {
            assert(b[i] =~= a[i]);
        }
        assert(b =~= a);
    }

    /// A matrix turned into nested arrays and back is the matrix again.
    pub proof fn lemma_matrix_round_trip(m: Self)
        ensures
            Mat4::from_spec(<[[u32; 4]; 4]>::from_spec(m)) == m,
            Mat4::of_array(m.array()) == m,
    {
    }

    /// Widening a matrix and narrowing it again gives back every entry that is
    /// not a NaN bit for bit, and a NaN as a NaN: a matrix that equals itself
    /// comes back whole.
    pub proof fn lemma_widen_round_trip(m: Self, i: int, j: int)
        requires
            0 <= i < 4,
            0 <= j < 4,
        ensures
            m.same(m) ==> Mat4::from_spec(DMat4::from_spec(m)) == m,
            !is_nan32(m.at(i, j)) ==> Mat4::from_spec(DMat4::from_spec(m)).at(i, j) == m.at(i, j),
            is_nan32(m.at(i, j)) ==> is_nan32(Mat4::from_spec(DMat4::from_spec(m)).at(i, j)),
    {
        lemma_widen_narrow(m.m00);
        lemma_widen_narrow(m.m01);
        lemma_widen_narrow(m.m02);
        lemma_widen_narrow(m.m03);
        lemma_widen_narrow(m.m10);
        lemma_widen_narrow(m.m11);
        lemma_widen_narrow(m.m12);
        lemma_widen_narrow(m.m13);
        lemma_widen_narrow(m.m20);
        lemma_widen_narrow(m.m21);
        lemma_widen_narrow(m.m22);
        lemma_widen_narrow(m.m23);
        lemma_widen_narrow(m.m30);
        lemma_widen_narrow(m.m31);
        lemma_widen_narrow(m.m32);
        lemma_widen_narrow(m.m33);
    }
}

impl Default for Mat4 {
    /// The identity matrix.
    fn default() -> (m: Self)
        ensures
            m == Mat4::banded(ZERO, ONE, ZERO),
    {
        Mat4::identity()
    }
}

impl PartialEq for Mat4 {
    fn eq(&self, other: &Self) -> (r: bool) {
        eq32(self.m00, other.m00)
            && eq32(self.m01, other.m01)
            && eq32(self.m02, other.m02)
            && eq32(self.m03, other.m03)
            && eq32(self.m10, other.m10)
            && eq32(self.m11, other.m11)
            && eq32(self.m12, other.m12)
            && eq32(self.m13, other.m13)
            && eq32(self.m20, other.m20)
            && eq32(self.m21, other.m21)
            && eq32(self.m22, other.m22)
            && eq32(self.m23, other.m23)
            && eq32(self.m30, other.m30)
            && eq32(self.m31, other.m31)
            && eq32(self.m32, other.m32)
            && eq32(self.m33, other.m33)
    }
}

impl PartialEqSpecImpl for Mat4 {
    open spec fn obeys_eq_spec() -> bool {
        true
    }

    open spec fn eq_spec(&self, other: &Self) -> bool {
        self.same(*other)
    }
}

impl From<u32> for Mat4 {
    /// The matrix with `arg` on the diagonal and zero elsewhere.
    fn from(arg: u32) -> (r: Self) {
        Mat4::diagonal(arg)
    }
}

impl vstd::std_specs::convert::FromSpecImpl<u32> for Mat4 {
    open spec fn obeys_from_spec() -> bool {
        true
    }

    open spec fn from_spec(arg: u32) -> Self {
        Mat4::banded(ZERO, arg, ZERO)
    }
}

impl From<u64> for Mat4 {
    /// The diagonal matrix of a scalar of the other precision, rounded first.
    fn from(arg: u64) -> (r: Self) {
        Mat4::diagonal(narrow(arg))
    }
}

impl vstd::std_specs::convert::FromSpecImpl<u64> for Mat4 {
    open spec fn obeys_from_spec() -> bool {
        true
    }

    open spec fn from_spec(arg: u64) -> Self {
        Mat4::banded(ZERO, narrow_spec(arg), ZERO)
    }
}

impl From<DMat4> for Mat4 {
    /// Rounds every entry to single precision.
    fn from(arg: DMat4) -> (r: Self) {
        Mat4::new(
            narrow(arg.m00), narrow(arg.m01), narrow(arg.m02), narrow(arg.m03), narrow(arg.m10),
            narrow(arg.m11), narrow(arg.m12), narrow(arg.m13), narrow(arg.m20), narrow(arg.m21),
            narrow(arg.m22), narrow(arg.m23), narrow(arg.m30), narrow(arg.m31), narrow(arg.m32),
            narrow(arg.m33),
        )
    }
}

impl vstd::std_specs::convert::FromSpecImpl<DMat4> for Mat4 {
    open spec fn obeys_from_spec() -> bool {
        true
    }

    open spec fn from_spec(arg: DMat4) -> Self {
        Mat4::from_entries(|i: int, j: int| narrow_spec(arg.at(i, j)))
    }
}

impl From<Mat2> for Mat4 {
    /// Keeps the entries and fills the rest from the identity.
    fn from(arg: Mat2) -> (r: Self) {
        Mat4::from(Mat3::from(arg))
    }
}

impl vstd::std_specs::convert::FromSpecImpl<Mat2> for Mat4 {
    open spec fn obeys_from_spec() -> bool {
        true
    }

    open spec fn from_spec(arg: Mat2) -> Self {
        Mat4::from_entries(
            |i: int, j: int|
                if i < 2 && j < 2 {
                    arg.at(i, j)
                } else if i == j {
                    ONE
                } else {
                    ZERO
                },
        )
    }
}

impl From<DMat2> for Mat4 {
    /// Keeps the entries, each converted to this precision, and fills the rest from the identity.
    fn from(arg: DMat2) -> (r: Self) {
        Mat4::from(Mat2::from(arg))
    }
}

impl vstd::std_specs::convert::FromSpecImpl<DMat2> for Mat4 {
    open spec fn obeys_from_spec() -> bool {
        true
    }

    open spec fn from_spec(arg: DMat2) -> Self {
        Mat4::from_entries(
            |i: int, j: int|
                if i < 2 && j < 2 {
                    narrow_spec(arg.at(i, j))
                } else if i == j {
                    ONE
                } else {
                    ZERO
                },
        )
    }
}

impl From<Mat3> for Mat4 {
    /// Keeps the entries and fills the rest from the identity.
    fn from(arg: Mat3) -> (r: Self) {
        Mat4::new(
            arg.m00, arg.m01, arg.m02, ZERO, arg.m10, arg.m11, arg.m12, ZERO, arg.m20, arg.m21,
            arg.m22, ZERO, ZERO, ZERO, ZERO, ONE,
        )
    }
}

impl vstd::std_specs::convert::FromSpecImpl<Mat3> for Mat4 {
    open spec fn obeys_from_spec() -> bool {
        true
    }

    open spec fn from_spec(arg: Mat3) -> Self {
        Mat4::from_entries(
            |i: int, j: int|
                if i < 3 && j < 3 {
                    arg.at(i, j)
                } else if i == j {
                    ONE
                } else {
                    ZERO
                },
        )
    }
}

impl From<DMat3> for Mat4 {
    /// Keeps the entries, each converted to this precision, and fills the rest from the identity.
    fn from(arg: DMat3) -> (r: Self) {
        Mat4::from(Mat3::from(arg))
    }
}

impl vstd::std_specs::convert::FromSpecImpl<DMat3> for Mat4 {
    open spec fn obeys_from_spec() -> bool {
        true
    }

    open spec fn from_spec(arg: DMat3) -> Self {
        Mat4::from_entries(
            |i: int, j: int|
                if i < 3 && j < 3 {
                    narrow_spec(arg.at(i, j))
                } else if i == j {
                    ONE
                } else {
                    ZERO
                },
        )
    }
}

impl From<[[u32; 4]; 4]> for Mat4 {
    /// Reads the entries from nested arrays: `a[i][j]` becomes the entry at `(i, j)`.
    fn from(a: [[u32; 4]; 4]) -> (r: Self) {
        Mat4::new(
            a[0][0], a[0][1], a[0][2], a[0][3], a[1][0], a[1][1], a[1][2], a[1][3], a[2][0],
            a[2][1], a[2][2], a[2][3], a[3][0], a[3][1], a[3][2], a[3][3],
        )
    }
}

impl vstd::std_specs::convert::FromSpecImpl<[[u32; 4]; 4]> for Mat4 {
    open spec fn obeys_from_spec() -> bool {
        true
    }

    open spec fn from_spec(a: [[u32; 4]; 4]) -> Self {
        Mat4::of_array(a)
    }
}

impl From<Mat4> for [[u32; 4]; 4] {
    /// Writes the entries to nested arrays: the entry at `(i, j)` becomes `[i][j]`.
    fn from(m: Mat4) -> (r: Self) {
        [
            [m.m00, m.m01, m.m02, m.m03],
            [m.m10, m.m11, m.m12, m.m13],
            [m.m20, m.m21, m.m22, m.m23],
            [m.m30, m.m31, m.m32, m.m33],
        ]
    }
}

impl vstd::std_specs::convert::FromSpecImpl<Mat4> for [[u32; 4]; 4] {
    open spec fn obeys_from_spec() -> bool {
        true
    }

    open spec fn from_spec(m: Mat4) -> Self {
        m.array()
    }
}

/// Double-precision 4x4 matrix.
///
/// Field `mij` is the entry at index `(i, j)`: entry `j` of the inner array `i`
/// in the array form.
#[derive(Clone, Copy, Debug)]
pub struct DMat4 {
    pub m00: u64,
    pub m01: u64,
    pub m02: u64,
    pub m03: u64,
    pub m10: u64,
    pub m11: u64,
    pub m12: u64,
    pub m13: u64,
    pub m20: u64,
    pub m21: u64,
    pub m22: u64,
    pub m23: u64,
    pub m30: u64,
    pub m31: u64,
    pub m32: u64,
    pub m33: u64,
}

impl View for DMat4 {
    type V = Seq<Seq<u64>>;

    /// The entries, grouped by first index.
    open spec fn view(&self) -> Seq<Seq<u64>> {
        seq![
            seq![self.m00, self.m01, self.m02, self.m03],
            seq![self.m10, self.m11, self.m12, self.m13],
            seq![self.m20, self.m21, self.m22, self.m23],
            seq![self.m30, self.m31, self.m32, self.m33],
        ]
    }
}

impl DMat4 {
    /// The entry at index `(i, j)`.
    pub open spec fn at(self, i: int, j: int) -> u64
        recommends
            0 <= i < 4,
            0 <= j < 4,
    {
        self@[i][j]
    }

    /// The matrix whose entry at `(i, j)` is `f(i, j)`.
    pub open spec fn from_entries(f: spec_fn(int, int) -> u64) -> Self {
        DMat4 {
            m00: f(0, 0),
            m01: f(0, 1),
            m02: f(0, 2),
            m03: f(0, 3),
            m10: f(1, 0),
            m11: f(1, 1),
            m12: f(1, 2),
            m13: f(1, 3),
            m20: f(2, 0),
            m21: f(2, 1),
            m22: f(2, 2),
            m23: f(2, 3),
            m30: f(3, 0),
            m31: f(3, 1),
            m32: f(3, 2),
            m33: f(3, 3),
        }
    }

    /// The banded matrix with `di` on the diagonal, `up` at `(i, i + 1)`, `lo` at
    /// `(i + 1, i)` and zero elsewhere.
    pub open spec fn banded(lo: u64, di: u64, up: u64) -> Self {
        DMat4::from_entries(
            |i: int, j: int|
                if i == j {
                    di
                } else if j == i + 1 {
                    up
                } else if i == j + 1 {
                    lo
                } else {
                    DZERO
                },
        )
    }

    /// The transpose: the entry at `(i, j)` is this matrix's entry at `(j, i)`.
    pub open spec fn transposed(self) -> Self {
        DMat4::from_entries(|i: int, j: int| self.at(j, i))
    }

    /// The matrix whose entry at `(i, j)` is `a[i][j]`.
    pub open spec fn of_array(a: [[u64; 4]; 4]) -> Self {
        DMat4::from_entries(|i: int, j: int| a[i][j])
    }

    /// The entries as nested arrays: `array()[i][j]` is the entry at `(i, j)`.
    pub open spec fn array(self) -> [[u64; 4]; 4] {
        [
            [self.m00, self.m01, self.m02, self.m03],
            [self.m10, self.m11, self.m12, self.m13],
            [self.m20, self.m21, self.m22, self.m23],
            [self.m30, self.m31, self.m32, self.m33],
        ]
    }

    /// IEEE equality of every pair of entries: what `==` computes.
    pub open spec fn same(self, other: Self) -> bool {
        &&& same64(self.m00, other.m00)
        &&& same64(self.m01, other.m01)
        &&& same64(self.m02, other.m02)
        &&& same64(self.m03, other.m03)
        &&& same64(self.m10, other.m10)
        &&& same64(self.m11, other.m11)
        &&& same64(self.m12, other.m12)
        &&& same64(self.m13, other.m13)
        &&& same64(self.m20, other.m20)
        &&& same64(self.m21, other.m21)
        &&& same64(self.m22, other.m22)
        &&& same64(self.m23, other.m23)
        &&& same64(self.m30, other.m30)
        &&& same64(self.m31, other.m31)
        &&& same64(self.m32, other.m32)
        &&& same64(self.m33, other.m33)
    }

    /// Full constructor. The arguments are the entries ordered by index: `(0, 0)`,
    /// `(0, 1)` and so on.
    pub fn new(
        m00: u64,
        m01: u64,
        m02: u64,
        m03: u64,
        m10: u64,
        m11: u64,
        m12: u64,
        m13: u64,
        m20: u64,
        m21: u64,
        m22: u64,
        m23: u64,
        m30: u64,
        m31: u64,
        m32: u64,
        m33: u64,
    ) -> (m: Self)
        ensures
            m == (DMat4 {
                m00, m01, m02, m03, m10, m11, m12, m13, m20, m21, m22, m23, m30, m31, m32, m33,
            }),
    {
        DMat4 {
            m00, m01, m02, m03, m10, m11, m12, m13, m20, m21, m22, m23, m30, m31, m32, m33,
        }
    }

    /// Identity constructor: one on the diagonal, zero elsewhere.
    pub fn identity() -> (m: Self)
        ensures
            m == DMat4::banded(DZERO, DONE, DZERO),
    {
        DMat4::diagonal(DONE)
    }

    /// Diagonal constructor: `di` on the diagonal, zero elsewhere.
    pub fn diagonal(di: u64) -> (m: Self)
        ensures
            m == DMat4::banded(DZERO, di, DZERO),
    {
        DMat4::tridiagonal(DZERO, di, DZERO)
    }

    /// Tri-diagonal constructor.
    pub fn tridiagonal(lo: u64, di: u64, up: u64) -> (m: Self)
        ensures
            m == DMat4::banded(lo, di, up),
    {
        DMat4::new(
            di, up, DZERO, DZERO, lo, di, up, DZERO, DZERO, lo, di, up, DZERO, DZERO, lo, di,
        )
    }

    /// Returns the matrix transpose.
    pub fn transpose(self) -> (m: Self)
        ensures
            m == self.transposed(),
    {
        DMat4::new(
            self.m00, self.m10, self.m20, self.m30, self.m01, self.m11, self.m21, self.m31,
            self.m02, self.m12, self.m22, self.m32, self.m03, self.m13, self.m23, self.m33,
        )
    }

    /// `from_entries(f)` has `f(i, j)` at every index `(i, j)`.
    pub proof fn lemma_from_entries(f: spec_fn(int, int) -> u64, i: int, j: int)
        requires
            0 <= i < 4,
            0 <= j < 4,
        ensures
            DMat4::from_entries(f).at(i, j) == f(i, j),
    {
    }

    /// Two matrices that agree at every index are equal.
    pub proof fn lemma_ext_equal(a: Self, b: Self)
        requires
            forall|i: int, j: int| 0 <= i < 4 && 0 <= j < 4 ==> a.at(i, j) == b.at(i, j),
        ensures
            a == b,
    {
        assert(a.at(0, 0) == b.at(0, 0));
        assert(a.at(0, 1) == b.at(0, 1));
        assert(a.at(0, 2) == b.at(0, 2));
        assert(a.at(0, 3) == b.at(0, 3));
        assert(a.at(1, 0) == b.at(1, 0));
        assert(a.at(1, 1) == b.at(1, 1));
        assert(a.at(1, 2) == b.at(1, 2));
        assert(a.at(1, 3) == b.at(1, 3));
        assert(a.at(2, 0) == b.at(2, 0));
        assert(a.at(2, 1) == b.at(2, 1));
        assert(a.at(2, 2) == b.at(2, 2));
        assert(a.at(2, 3) == b.at(2, 3));
        assert(a.at(3, 0) == b.at(3, 0));
        assert(a.at(3, 1) == b.at(3, 1));
        assert(a.at(3, 2) == b.at(3, 2));
        assert(a.at(3, 3) == b.at(3, 3));
    }

    /// The transpose has at `(i, j)` what the matrix has at `(j, i)`.
    pub proof fn lemma_transposed_at(m: Self, i: int, j: int)
        requires
            0 <= i < 4,
            0 <= j < 4,
        ensures
            m.transposed().at(i, j) == m.at(j, i),
    {
    }

    /// Transposing a banded matrix swaps the bands beside the diagonal.
    pub proof fn lemma_transpose_banded(lo: u64, di: u64, up: u64)
        ensures
            DMat4::banded(lo, di, up).transposed() == DMat4::banded(up, di, lo),
    {
    }

    /// Transposing twice gives the matrix back, bit for bit.
    pub proof fn lemma_transpose_involution(m: Self)
        ensures
            m.transposed().transposed() == m,
    {
    }

    /// Nested arrays turned into a matrix and back are the same arrays again.
    pub proof fn lemma_array_round_trip(a: [[u64; 4]; 4])
        ensures
            <[[u64; 4]; 4]>::from_spec(DMat4::from_spec(a)) == a,
            DMat4::of_array(a).array() == a,
    {
        let b = DMat4::of_array(a).array();
        assert forall|i: int| 0 <= i < 4 implies b[i] == a[i] by {
            assert(b[i] =~= a[i]);
        }
        assert(b =~= a);
    }

    /// A matrix turned into nested arrays and back is the matrix again.
    pub proof fn lemma_matrix_round_trip(m: Self)
        ensures
            DMat4::from_spec(<[[u64; 4]; 4]>::from_spec(m)) == m,
            DMat4::of_array(m.array()) == m,
    {
    }
}

impl Default for DMat4 {
    /// The identity matrix.
    fn default() -> (m: Self)
        ensures
            m == DMat4::banded(DZERO, DONE, DZERO),
    {
        DMat4::identity()
    }
}

impl PartialEq for DMat4 {
    fn eq(&self, other: &Self) -> (r: bool) {
        eq64(self.m00, other.m00)
            && eq64(self.m01, other.m01)
            && eq64(self.m02, other.m02)
            && eq64(self.m03, other.m03)
            && eq64(self.m10, other.m10)
            && eq64(self.m11, other.m11)
            && eq64(self.m12, other.m12)
            && eq64(self.m13, other.m13)
            && eq64(self.m20, other.m20)
            && eq64(self.m21, other.m21)
            && eq64(self.m22, other.m22)
            && eq64(self.m23, other.m23)
            && eq64(self.m30, other.m30)
            && eq64(self.m31, other.m31)
            && eq64(self.m32, other.m32)
            && eq64(self.m33, other.m33)
    }
}

impl PartialEqSpecImpl for DMat4 {
    open spec fn obeys_eq_spec() -> bool {
        true
    }

    open spec fn eq_spec(&self, other: &Self) -> bool {
        self.same(*other)
    }
}

impl From<u64> for DMat4 {
    /// The matrix with `arg` on the diagonal and zero elsewhere.
    fn from(arg: u64) -> (r: Self) {
        DMat4::diagonal(arg)
    }
}

impl vstd::std_specs::convert::FromSpecImpl<u64> for DMat4 {
    open spec fn obeys_from_spec() -> bool {
        true
    }

    open spec fn from_spec(arg: u64) -> Self {
        DMat4::banded(DZERO, arg, DZERO)
    }
}

impl From<u32> for DMat4 {
    /// The diagonal matrix of a scalar of the other precision, widened first.
    fn from(arg: u32) -> (r: Self) {
        DMat4::diagonal(widen(arg))
    }
}

impl vstd::std_specs::convert::FromSpecImpl<u32> for DMat4 {
    open spec fn obeys_from_spec() -> bool {
        true
    }

    open spec fn from_spec(arg: u32) -> Self {
        DMat4::banded(DZERO, widen_spec(arg), DZERO)
    }
}

impl From<Mat4> for DMat4 {
    /// Widens every entry to double precision.
    fn from(arg: Mat4) -> (r: Self) {
        DMat4::new(
            widen(arg.m00), widen(arg.m01), widen(arg.m02), widen(arg.m03), widen(arg.m10),
            widen(arg.m11), widen(arg.m12), widen(arg.m13), widen(arg.m20), widen(arg.m21),
            widen(arg.m22), widen(arg.m23), widen(arg.m30), widen(arg.m31), widen(arg.m32),
            widen(arg.m33),
        )
    }
}

impl vstd::std_specs::convert::FromSpecImpl<Mat4> for DMat4 {
    open spec fn obeys_from_spec() -> bool {
        true
    }

    open spec fn from_spec(arg: Mat4) -> Self {
        DMat4::from_entries(|i: int, j: int| widen_spec(arg.at(i, j)))
    }
}

impl From<DMat2> for DMat4 {
    /// Keeps the entries and fills the rest from the identity.
    fn from(arg: DMat2) -> (r: Self) {
        DMat4::from(DMat3::from(arg))
    }
}

impl vstd::std_specs::convert::FromSpecImpl<DMat2> for DMat4 {
    open spec fn obeys_from_spec() -> bool {
        true
    }

    open spec fn from_spec(arg: DMat2) -> Self {
        DMat4::from_entries(
            |i: int, j: int|
                if i < 2 && j < 2 {
                    arg.at(i, j)
                } else if i == j {
                    DONE
                } else {
                    DZERO
                },
        )
    }
}

impl From<Mat2> for DMat4 {
    /// Keeps the entries, each converted to this precision, and fills the rest from the identity.
    fn from(arg: Mat2) -> (r: Self) {
        DMat4::from(DMat3::from(arg))
    }
}

impl vstd::std_specs::convert::FromSpecImpl<Mat2> for DMat4 {
    open spec fn obeys_from_spec() -> bool {
        true
    }

    open spec fn from_spec(arg: Mat2) -> Self {
        DMat4::from_entries(
            |i: int, j: int|
                if i < 2 && j < 2 {
                    widen_spec(arg.at(i, j))
                } else if i == j {
                    DONE
                } else {
                    DZERO
                },
        )
    }
}

impl From<DMat3> for DMat4 {
    /// Keeps the entries and fills the rest from the identity.
    fn from(arg: DMat3) -> (r: Self) {
        DMat4::new(
            arg.m00, arg.m01, arg.m02, DZERO, arg.m10, arg.m11, arg.m12, DZERO, arg.m20,
            arg.m21, arg.m22, DZERO, DZERO, DZERO, DZERO, DONE,
        )
    }
}

impl vstd::std_specs::convert::FromSpecImpl<DMat3> for DMat4 {
    open spec fn obeys_from_spec() -> bool {
        true
    }

    open spec fn from_spec(arg: DMat3) -> Self {
        DMat4::from_entries(
            |i: int, j: int|
                if i < 3 && j < 3 {
                    arg.at(i, j)
                } else if i == j {
                    DONE
                } else {
                    DZERO
                },
        )
    }
}

impl From<Mat3> for DMat4 {
    /// Keeps the entries, each converted to this precision, and fills the rest from the identity.
    fn from(arg: Mat3) -> (r: Self) {
        DMat4::from(DMat3::from(arg))
    }
}

impl vstd::std_specs::convert::FromSpecImpl<Mat3> for DMat4 {
    open spec fn obeys_from_spec() -> bool {
        true
    }

    open spec fn from_spec(arg: Mat3) -> Self {
        DMat4::from_entries(
            |i: int, j: int|
                if i < 3 && j < 3 {
                    widen_spec(arg.at(i, j))
                } else if i == j {
                    DONE
                } else {
                    DZERO
                },
        )
    }
}

impl From<[[u64; 4]; 4]> for DMat4 {
    /// Reads the entries from nested arrays: `a[i][j]` becomes the entry at `(i, j)`.
    fn from(a: [[u64; 4]; 4]) -> (r: Self) {
        DMat4::new(
            a[0][0], a[0][1], a[0][2], a[0][3], a[1][0], a[1][1], a[1][2], a[1][3], a[2][0],
            a[2][1], a[2][2], a[2][3], a[3][0], a[3][1], a[3][2], a[3][3],
        )
    }
}

impl vstd::std_specs::convert::FromSpecImpl<[[u64; 4]; 4]> for DMat4 {
    open spec fn obeys_from_spec() -> bool {
        true
    }

    open spec fn from_spec(a: [[u64; 4]; 4]) -> Self {
        DMat4::of_array(a)
    }
}

impl From<DMat4> for [[u64; 4]; 4] {
    /// Writes the entries to nested arrays: the entry at `(i, j)` becomes `[i][j]`.
    fn from(m: DMat4) -> (r: Self) {
        [
            [m.m00, m.m01, m.m02, m.m03],
            [m.m10, m.m11, m.m12, m.m13],
            [m.m20, m.m21, m.m22, m.m23],
            [m.m30, m.m31, m.m32, m.m33],
        ]
    }
}

impl vstd::std_specs::convert::FromSpecImpl<DMat4> for [[u64; 4]; 4] {
    open spec fn obeys_from_spec() -> bool {
        true
    }

    open spec fn from_spec(m: DMat4) -> Self {
        m.array()
    }
}

} // verus!
