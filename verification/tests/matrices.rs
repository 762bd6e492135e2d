use cgmath::{Matrix, SquareMatrix};
use euler::{DMat2, DMat3, DMat4, Mat2, Mat3, Mat4};

fn b(v: f32) -> u32 {
    v.to_bits()
}

fn d(v: f64) -> u64 {
    v.to_bits()
}

fn bits2(a: [[f32; 2]; 2]) -> [[u32; 2]; 2] {
    a.map(|row| row.map(f32::to_bits))
}

fn bits3(a: [[f32; 3]; 3]) -> [[u32; 3]; 3] {
    a.map(|row| row.map(f32::to_bits))
}

fn bits4(a: [[f32; 4]; 4]) -> [[u32; 4]; 4] {
    a.map(|row| row.map(f32::to_bits))
}

fn dbits2(a: [[f64; 2]; 2]) -> [[u64; 2]; 2] {
    a.map(|row| row.map(f64::to_bits))
}

fn dbits3(a: [[f64; 3]; 3]) -> [[u64; 3]; 3] {
    a.map(|row| row.map(f64::to_bits))
}

fn dbits4(a: [[f64; 4]; 4]) -> [[u64; 4]; 4] {
    a.map(|row| row.map(f64::to_bits))
}

fn sample2() -> Mat2 {
    Mat2::from(bits2([[1.2, 3.4], [5.6, 7.8]]))
}

fn sample3() -> Mat3 {
    Mat3::from(bits3([[0.1, 0.2, 0.3], [0.4, 0.5, 0.6], [0.7, 0.8, 0.9]]))
}

fn sample4() -> Mat4 {
    Mat4::from(bits4([
        [0.1, 0.2, 0.3, 0.4],
        [0.5, 0.6, 0.7, 0.8],
        [0.9, 1.0, 1.1, 1.2],
        [1.3, 1.4, 1.5, 1.6],
    ]))
}

fn dsample4() -> DMat4 {
    DMat4::from(dbits4([
        [0.1, 0.2, 0.3, 0.4],
        [0.5, 0.6, 0.7, 0.8],
        [0.9, 1.0, 1.1, 1.2],
        [1.3, 1.4, 1.5, 1.6],
    ]))
}

#[test]
fn identity_is_one_on_the_diagonal() {
    let m: [[u32; 2]; 2] = Mat2::identity().into();
    assert_eq!(m, bits2([[1.0, 0.0], [0.0, 1.0]]));
    let m: [[u32; 3]; 3] = Mat3::identity().into();
    assert_eq!(m, bits3([[1.0, 0.0, 0.0], [0.0, 1.0, 0.0], [0.0, 0.0, 1.0]]));
    let m: [[u32; 4]; 4] = Mat4::identity().into();
    assert_eq!(
        m,
        bits4([
            [1.0, 0.0, 0.0, 0.0],
            [0.0, 1.0, 0.0, 0.0],
            [0.0, 0.0, 1.0, 0.0],
            [0.0, 0.0, 0.0, 1.0],
        ])
    );
    let m: [[u64; 2]; 2] = DMat2::identity().into();
    assert_eq!(m, dbits2([[1.0, 0.0], [0.0, 1.0]]));
    let m: [[u64; 3]; 3] = DMat3::identity().into();
    assert_eq!(m, dbits3([[1.0, 0.0, 0.0], [0.0, 1.0, 0.0], [0.0, 0.0, 1.0]]));
    let m: [[u64; 4]; 4] = DMat4::identity().into();
    assert_eq!(
        m,
        dbits4([
            [1.0, 0.0, 0.0, 0.0],
            [0.0, 1.0, 0.0, 0.0],
            [0.0, 0.0, 1.0, 0.0],
            [0.0, 0.0, 0.0, 1.0],
        ])
    );
}

#[test]
fn default_is_the_identity() {
    let m: [[u32; 2]; 2] = Mat2::default().into();
    let i: [[u32; 2]; 2] = Mat2::identity().into();
    assert_eq!(m, i);
    let m: [[u32; 3]; 3] = Mat3::default().into();
    let i: [[u32; 3]; 3] = Mat3::identity().into();
    assert_eq!(m, i);
    let m: [[u32; 4]; 4] = Mat4::default().into();
    let i: [[u32; 4]; 4] = Mat4::identity().into();
    assert_eq!(m, i);
    let m: [[u64; 2]; 2] = DMat2::default().into();
    let i: [[u64; 2]; 2] = DMat2::identity().into();
    assert_eq!(m, i);
    let m: [[u64; 3]; 3] = DMat3::default().into();
    let i: [[u64; 3]; 3] = DMat3::identity().into();
    assert_eq!(m, i);
    let m: [[u64; 4]; 4] = DMat4::default().into();
    let i: [[u64; 4]; 4] = DMat4::identity().into();
    assert_eq!(m, i);
}

#[test]
fn the_identity_is_the_identity_of_cgmath() {
    let m: [[u32; 2]; 2] = Mat2::identity().into();
    let c: [[f32; 2]; 2] = cgmath::Matrix2::<f32>::identity().into();
    assert_eq!(m, bits2(c));
    let m: [[u32; 3]; 3] = Mat3::identity().into();
    let c: [[f32; 3]; 3] = cgmath::Matrix3::<f32>::identity().into();
    assert_eq!(m, bits3(c));
    let m: [[u32; 4]; 4] = Mat4::identity().into();
    let c: [[f32; 4]; 4] = cgmath::Matrix4::<f32>::identity().into();
    assert_eq!(m, bits4(c));
    let m: [[u64; 4]; 4] = DMat4::identity().into();
    let c: [[f64; 4]; 4] = cgmath::Matrix4::<f64>::identity().into();
    assert_eq!(m, dbits4(c));
}

#[test]
fn new_takes_the_entries_in_index_order() {
    let m = Mat2::new(b(1.2), b(3.4), b(5.6), b(7.8));
    assert_eq!((m.m00, m.m01, m.m10, m.m11), (b(1.2), b(3.4), b(5.6), b(7.8)));
    let a: [[u32; 2]; 2] = m.into();
    assert_eq!(a, bits2([[1.2, 3.4], [5.6, 7.8]]));
    let m = Mat3::new(
        b(0.1),
        b(0.2),
        b(0.3),
        b(0.4),
        b(0.5),
        b(0.6),
        b(0.7),
        b(0.8),
        b(0.9),
    );
    let a: [[u32; 3]; 3] = m.into();
    assert_eq!(a, bits3([[0.1, 0.2, 0.3], [0.4, 0.5, 0.6], [0.7, 0.8, 0.9]]));
    let m = Mat4::new(
        b(0.1),
        b(0.2),
        b(0.3),
        b(0.4),
        b(0.5),
        b(0.6),
        b(0.7),
        b(0.8),
        b(0.9),
        b(1.0),
        b(1.1),
        b(1.2),
        b(1.3),
        b(1.4),
        b(1.5),
        b(1.6),
    );
    let a: [[u32; 4]; 4] = m.into();
    let s: [[u32; 4]; 4] = sample4().into();
    assert_eq!(a, s);
    assert_eq!((m.m03, m.m30, m.m12, m.m21), (b(0.4), b(1.3), b(0.7), b(1.0)));
    let m = DMat2::new(d(1.2), d(3.4), d(5.6), d(7.8));
    let a: [[u64; 2]; 2] = m.into();
    assert_eq!(a, dbits2([[1.2, 3.4], [5.6, 7.8]]));
    let m = DMat3::new(
        d(0.1),
        d(0.2),
        d(0.3),
        d(0.4),
        d(0.5),
        d(0.6),
        d(0.7),
        d(0.8),
        d(0.9),
    );
    let a: [[u64; 3]; 3] = m.into();
    assert_eq!(a, dbits3([[0.1, 0.2, 0.3], [0.4, 0.5, 0.6], [0.7, 0.8, 0.9]]));
    let m = DMat4::new(
        d(0.1),
        d(0.2),
        d(0.3),
        d(0.4),
        d(0.5),
        d(0.6),
        d(0.7),
        d(0.8),
        d(0.9),
        d(1.0),
        d(1.1),
        d(1.2),
        d(1.3),
        d(1.4),
        d(1.5),
        d(1.6),
    );
    let a: [[u64; 4]; 4] = m.into();
    let s: [[u64; 4]; 4] = dsample4().into();
    assert_eq!(a, s);
}

#[test]
fn diagonal_puts_the_scalar_on_the_diagonal() {
    let m: [[u32; 2]; 2] = Mat2::diagonal(b(2.5)).into();
    assert_eq!(m, bits2([[2.5, 0.0], [0.0, 2.5]]));
    let m: [[u32; 3]; 3] = Mat3::diagonal(b(2.5)).into();
    assert_eq!(m, bits3([[2.5, 0.0, 0.0], [0.0, 2.5, 0.0], [0.0, 0.0, 2.5]]));
    let m: [[u32; 4]; 4] = Mat4::diagonal(b(2.5)).into();
    assert_eq!(
        m,
        bits4([
            [2.5, 0.0, 0.0, 0.0],
            [0.0, 2.5, 0.0, 0.0],
            [0.0, 0.0, 2.5, 0.0],
            [0.0, 0.0, 0.0, 2.5],
        ])
    );
    let m: [[u32; 2]; 2] = Mat2::from(b(2.5)).into();
    assert_eq!(m, bits2([[2.5, 0.0], [0.0, 2.5]]));
    let m: [[u32; 3]; 3] = Mat3::from(b(2.5)).into();
    assert_eq!(m, bits3([[2.5, 0.0, 0.0], [0.0, 2.5, 0.0], [0.0, 0.0, 2.5]]));
    let m: [[u32; 4]; 4] = Mat4::from(b(2.5)).into();
    let e: [[u32; 4]; 4] = Mat4::diagonal(b(2.5)).into();
    assert_eq!(m, e);
    let m: [[u64; 2]; 2] = DMat2::diagonal(d(2.5)).into();
    assert_eq!(m, dbits2([[2.5, 0.0], [0.0, 2.5]]));
    let m: [[u64; 3]; 3] = DMat3::from(d(2.5)).into();
    assert_eq!(m, dbits3([[2.5, 0.0, 0.0], [0.0, 2.5, 0.0], [0.0, 0.0, 2.5]]));
    let m: [[u64; 4]; 4] = DMat4::from(d(2.5)).into();
    let e: [[u64; 4]; 4] = DMat4::diagonal(d(2.5)).into();
    assert_eq!(m, e);
}

#[test]
fn a_scalar_of_the_other_precision_is_converted_for_the_diagonal() {
    let m: [[u32; 2]; 2] = Mat2::from(d(0.1)).into();
    assert_eq!(m, bits2([[0.1f64 as f32, 0.0], [0.0, 0.1f64 as f32]]));
    let m: [[u32; 3]; 3] = Mat3::from(d(0.1)).into();
    let e: [[u32; 3]; 3] = Mat3::diagonal(b(0.1f64 as f32)).into();
    assert_eq!(m, e);
    let m: [[u32; 4]; 4] = Mat4::from(d(0.1)).into();
    let e: [[u32; 4]; 4] = Mat4::diagonal(b(0.1f64 as f32)).into();
    assert_eq!(m, e);
    let m: [[u64; 2]; 2] = DMat2::from(b(0.1)).into();
    assert_eq!(m, dbits2([[0.1f32 as f64, 0.0], [0.0, 0.1f32 as f64]]));
    let m: [[u64; 3]; 3] = DMat3::from(b(0.1)).into();
    let e: [[u64; 3]; 3] = DMat3::diagonal(d(0.1f32 as f64)).into();
    assert_eq!(m, e);
    let m: [[u64; 4]; 4] = DMat4::from(b(0.1)).into();
    let e: [[u64; 4]; 4] = DMat4::diagonal(d(0.1f32 as f64)).into();
    assert_eq!(m, e);
}

#[test]
fn tridiagonal_fills_the_three_bands() {
    let (lo, di, up) = (-1.0f32, 2.0f32, 3.0f32);
    let m: [[u32; 2]; 2] = Mat2::tridiagonal(b(lo), b(di), b(up)).into();
    assert_eq!(m, bits2([[di, up], [lo, di]]));
    let m: [[u32; 3]; 3] = Mat3::tridiagonal(b(lo), b(di), b(up)).into();
    assert_eq!(m, bits3([[di, up, 0.0], [lo, di, up], [0.0, lo, di]]));
    let m: [[u32; 4]; 4] = Mat4::tridiagonal(b(lo), b(di), b(up)).into();
    assert_eq!(
        m,
        bits4([
            [di, up, 0.0, 0.0],
            [lo, di, up, 0.0],
            [0.0, lo, di, up],
            [0.0, 0.0, lo, di],
        ])
    );
    let (lo, di, up) = (-1.0f64, 2.0f64, 3.0f64);
    let m: [[u64; 2]; 2] = DMat2::tridiagonal(d(lo), d(di), d(up)).into();
    assert_eq!(m, dbits2([[di, up], [lo, di]]));
    let m: [[u64; 3]; 3] = DMat3::tridiagonal(d(lo), d(di), d(up)).into();
    assert_eq!(m, dbits3([[di, up, 0.0], [lo, di, up], [0.0, lo, di]]));
    let m: [[u64; 4]; 4] = DMat4::tridiagonal(d(lo), d(di), d(up)).into();
    assert_eq!(
        m,
        dbits4([
            [di, up, 0.0, 0.0],
            [lo, di, up, 0.0],
            [0.0, lo, di, up],
            [0.0, 0.0, lo, di],
        ])
    );
}

#[test]
fn transpose_swaps_the_indexes() {
    let t: [[u32; 2]; 2] = sample2().transpose().into();
    assert_eq!(t, bits2([[1.2, 5.6], [3.4, 7.8]]));
    let t: [[u32; 3]; 3] = sample3().transpose().into();
    assert_eq!(t, bits3([[0.1, 0.4, 0.7], [0.2, 0.5, 0.8], [0.3, 0.6, 0.9]]));
    let t: [[u32; 4]; 4] = sample4().transpose().into();
    assert_eq!(
        t,
        bits4([
            [0.1, 0.5, 0.9, 1.3],
            [0.2, 0.6, 1.0, 1.4],
            [0.3, 0.7, 1.1, 1.5],
            [0.4, 0.8, 1.2, 1.6],
        ])
    );
    let t: [[u64; 4]; 4] = dsample4().transpose().into();
    assert_eq!(
        t,
        dbits4([
            [0.1, 0.5, 0.9, 1.3],
            [0.2, 0.6, 1.0, 1.4],
            [0.3, 0.7, 1.1, 1.5],
            [0.4, 0.8, 1.2, 1.6],
        ])
    );
    let m = DMat2::new(d(1.0), d(2.0), d(3.0), d(4.0)).transpose();
    assert_eq!((m.m00, m.m01, m.m10, m.m11), (d(1.0), d(3.0), d(2.0), d(4.0)));
    let m: [[u64; 3]; 3] = DMat3::from(dbits3([[1.0, 2.0, 3.0], [4.0, 5.0, 6.0], [7.0, 8.0, 9.0]]))
        .transpose()
        .into();
    assert_eq!(m, dbits3([[1.0, 4.0, 7.0], [2.0, 5.0, 8.0], [3.0, 6.0, 9.0]]));
}

#[test]
fn transpose_is_the_transpose_of_cgmath() {
    let a2 = [[1.2f32, 3.4], [5.6, 7.8]];
    let c: [[f32; 2]; 2] = cgmath::Matrix2::from(a2).transpose().into();
    let t: [[u32; 2]; 2] = Mat2::from(bits2(a2)).transpose().into();
    assert_eq!(t, bits2(c));
    let a3 = [[0.1f32, 0.2, 0.3], [0.4, 0.5, 0.6], [0.7, 0.8, 0.9]];
    let c: [[f32; 3]; 3] = cgmath::Matrix3::from(a3).transpose().into();
    let t: [[u32; 3]; 3] = Mat3::from(bits3(a3)).transpose().into();
    assert_eq!(t, bits3(c));
    let a4 = [
        [0.1f32, 0.2, 0.3, 0.4],
        [0.5, 0.6, 0.7, 0.8],
        [0.9, 1.0, 1.1, 1.2],
        [1.3, 1.4, 1.5, 1.6],
    ];
    let c: [[f32; 4]; 4] = cgmath::Matrix4::from(a4).transpose().into();
    let t: [[u32; 4]; 4] = Mat4::from(bits4(a4)).transpose().into();
    assert_eq!(t, bits4(c));
    let a4 = a4.map(|row| row.map(|x| x as f64));
    let c: [[f64; 4]; 4] = cgmath::Matrix4::from(a4).transpose().into();
    let t: [[u64; 4]; 4] = DMat4::from(dbits4(a4)).transpose().into();
    assert_eq!(t, dbits4(c));
}

#[test]
fn transposing_twice_gives_the_matrix_back() {
    // With a NaN and a negative zero among the entries: the bits come back.
    let a2 = [[0x7fc0_0001u32, 0x8000_0000], [b(5.6), b(7.8)]];
    let t: [[u32; 2]; 2] = Mat2::from(a2).transpose().transpose().into();
    assert_eq!(t, a2);
    let a3: [[u32; 3]; 3] = sample3().into();
    let t: [[u32; 3]; 3] = sample3().transpose().transpose().into();
    assert_eq!(t, a3);
    let a4: [[u32; 4]; 4] = sample4().into();
    let t: [[u32; 4]; 4] = sample4().transpose().transpose().into();
    assert_eq!(t, a4);
    let a4: [[u64; 4]; 4] = dsample4().into();
    let t: [[u64; 4]; 4] = dsample4().transpose().transpose().into();
    assert_eq!(t, a4);
    let a2 = dbits2([[1.0, 2.0], [3.0, 4.0]]);
    let t: [[u64; 2]; 2] = DMat2::from(a2).transpose().transpose().into();
    assert_eq!(t, a2);
    let a3 = dbits3([[1.0, 2.0, 3.0], [4.0, 5.0, 6.0], [7.0, 8.0, 9.0]]);
    let t: [[u64; 3]; 3] = DMat3::from(a3).transpose().transpose().into();
    assert_eq!(t, a3);
}

#[test]
fn nested_arrays_round_trip_exactly() {
    let a2 = [[0x7fc0_0001u32, 0x8000_0000], [1, 0xff80_0000]];
    let r: [[u32; 2]; 2] = Mat2::from(a2).into();
    assert_eq!(r, a2);
    let a3 = bits3([[0.1, 0.2, 0.3], [0.4, 0.5, 0.6], [0.7, 0.8, 0.9]]);
    let r: [[u32; 3]; 3] = Mat3::from(a3).into();
    assert_eq!(r, a3);
    let a4: [[u32; 4]; 4] = sample4().into();
    let r: [[u32; 4]; 4] = Mat4::from(a4).into();
    assert_eq!(r, a4);
    let a2 = dbits2([[1.2, 3.4], [5.6, 7.8]]);
    let r: [[u64; 2]; 2] = DMat2::from(a2).into();
    assert_eq!(r, a2);
    let a3 = dbits3([[0.1, 0.2, 0.3], [0.4, 0.5, 0.6], [0.7, 0.8, 0.9]]);
    let r: [[u64; 3]; 3] = DMat3::from(a3).into();
    assert_eq!(r, a3);
    let a4: [[u64; 4]; 4] = dsample4().into();
    let r: [[u64; 4]; 4] = DMat4::from(a4).into();
    assert_eq!(r, a4);
}

#[test]
fn the_array_form_is_the_array_form_of_cgmath() {
    // cgmath reads the outer index as the column; so does the field name.
    let a = [[1.0f32, 2.0], [3.0, 4.0]];
    let c = cgmath::Matrix2::from(a);
    let m = Mat2::from(bits2(a));
    assert_eq!(m.m00, b(c.x.x));
    assert_eq!(m.m01, b(c.x.y));
    assert_eq!(m.m10, b(c.y.x));
    assert_eq!(m.m11, b(c.y.y));
}

#[test]
fn growing_pads_with_the_identity() {
    let m: [[u32; 3]; 3] = Mat3::from(sample2()).into();
    assert_eq!(m, bits3([[1.2, 3.4, 0.0], [5.6, 7.8, 0.0], [0.0, 0.0, 1.0]]));
    let m: [[u32; 4]; 4] = Mat4::from(sample2()).into();
    assert_eq!(
        m,
        bits4([
            [1.2, 3.4, 0.0, 0.0],
            [5.6, 7.8, 0.0, 0.0],
            [0.0, 0.0, 1.0, 0.0],
            [0.0, 0.0, 0.0, 1.0],
        ])
    );
    let m: [[u32; 4]; 4] = Mat4::from(sample3()).into();
    assert_eq!(
        m,
        bits4([
            [0.1, 0.2, 0.3, 0.0],
            [0.4, 0.5, 0.6, 0.0],
            [0.7, 0.8, 0.9, 0.0],
            [0.0, 0.0, 0.0, 1.0],
        ])
    );
    let s2 = DMat2::from(dbits2([[1.2, 3.4], [5.6, 7.8]]));
    let m: [[u64; 3]; 3] = DMat3::from(s2).into();
    assert_eq!(m, dbits3([[1.2, 3.4, 0.0], [5.6, 7.8, 0.0], [0.0, 0.0, 1.0]]));
    let m: [[u64; 4]; 4] = DMat4::from(s2).into();
    assert_eq!(
        m,
        dbits4([
            [1.2, 3.4, 0.0, 0.0],
            [5.6, 7.8, 0.0, 0.0],
            [0.0, 0.0, 1.0, 0.0],
            [0.0, 0.0, 0.0, 1.0],
        ])
    );
    let s3 = DMat3::from(dbits3([[0.1, 0.2, 0.3], [0.4, 0.5, 0.6], [0.7, 0.8, 0.9]]));
    let m: [[u64; 4]; 4] = DMat4::from(s3).into();
    assert_eq!(
        m,
        dbits4([
            [0.1, 0.2, 0.3, 0.0],
            [0.4, 0.5, 0.6, 0.0],
            [0.7, 0.8, 0.9, 0.0],
            [0.0, 0.0, 0.0, 1.0],
        ])
    );
}

#[test]
fn shrinking_keeps_the_leading_block() {
    let m: [[u32; 3]; 3] = Mat3::from(sample4()).into();
    assert_eq!(m, bits3([[0.1, 0.2, 0.3], [0.5, 0.6, 0.7], [0.9, 1.0, 1.1]]));
    let m: [[u32; 2]; 2] = Mat2::from(sample4()).into();
    assert_eq!(m, bits2([[0.1, 0.2], [0.5, 0.6]]));
    let m: [[u32; 2]; 2] = Mat2::from(sample3()).into();
    assert_eq!(m, bits2([[0.1, 0.2], [0.4, 0.5]]));
    let m: [[u64; 3]; 3] = DMat3::from(dsample4()).into();
    assert_eq!(m, dbits3([[0.1, 0.2, 0.3], [0.5, 0.6, 0.7], [0.9, 1.0, 1.1]]));
    let m: [[u64; 2]; 2] = DMat2::from(dsample4()).into();
    assert_eq!(m, dbits2([[0.1, 0.2], [0.5, 0.6]]));
    let m: [[u64; 2]; 2] = DMat2::from(DMat3::from(dsample4())).into();
    assert_eq!(m, dbits2([[0.1, 0.2], [0.5, 0.6]]));
}

#[test]
fn growing_then_shrinking_gives_the_matrix_back() {
    let a2: [[u32; 2]; 2] = sample2().into();
    let r: [[u32; 2]; 2] = Mat2::from(Mat3::from(sample2())).into();
    assert_eq!(r, a2);
    let r: [[u32; 2]; 2] = Mat2::from(Mat4::from(sample2())).into();
    assert_eq!(r, a2);
    let a3: [[u32; 3]; 3] = sample3().into();
    let r: [[u32; 3]; 3] = Mat3::from(Mat4::from(sample3())).into();
    assert_eq!(r, a3);
}

#[test]
fn widening_a_matrix_and_narrowing_it_again_is_exact() {
    let wide = DMat4::from(sample4());
    let a: [[u64; 4]; 4] = wide.into();
    let s: [[u32; 4]; 4] = sample4().into();
    assert_eq!(a, s.map(|row| row.map(|x| (f32::from_bits(x) as f64).to_bits())));
    let back: [[u32; 4]; 4] = Mat4::from(wide).into();
    assert_eq!(back, s);
    let s: [[u32; 3]; 3] = sample3().into();
    let back: [[u32; 3]; 3] = Mat3::from(DMat3::from(sample3())).into();
    assert_eq!(back, s);
    let s: [[u32; 2]; 2] = sample2().into();
    let back: [[u32; 2]; 2] = Mat2::from(DMat2::from(sample2())).into();
    assert_eq!(back, s);
}

#[test]
fn narrowing_a_matrix_rounds_every_entry() {
    let a: [[u64; 4]; 4] = dsample4().into();
    let n: [[u32; 4]; 4] = Mat4::from(dsample4()).into();
    assert_eq!(n, a.map(|row| row.map(|x| (f64::from_bits(x) as f32).to_bits())));
    let m = DMat2::new(d(1.0e300), d(-1.0e300), d(1.0e-300), d(f64::NAN));
    let n = Mat2::from(m);
    assert_eq!(n.m00, b(f32::INFINITY));
    assert_eq!(n.m01, b(f32::NEG_INFINITY));
    assert_eq!(n.m10, b(0.0));
    assert!(f32::from_bits(n.m11).is_nan());
}

#[test]
fn precision_and_size_convert_together() {
    let d2 = DMat2::from(dbits2([[0.1, 0.2], [0.3, 0.4]]));
    let n = |x: f64| x as f32;
    let m: [[u32; 3]; 3] = Mat3::from(d2).into();
    assert_eq!(m, bits3([[n(0.1), n(0.2), 0.0], [n(0.3), n(0.4), 0.0], [0.0, 0.0, 1.0]]));
    let m: [[u32; 4]; 4] = Mat4::from(d2).into();
    assert_eq!(
        m,
        bits4([
            [n(0.1), n(0.2), 0.0, 0.0],
            [n(0.3), n(0.4), 0.0, 0.0],
            [0.0, 0.0, 1.0, 0.0],
            [0.0, 0.0, 0.0, 1.0],
        ])
    );
    let m: [[u32; 2]; 2] = Mat2::from(dsample4()).into();
    assert_eq!(m, bits2([[n(0.1), n(0.2)], [n(0.5), n(0.6)]]));
    let m: [[u32; 3]; 3] = Mat3::from(dsample4()).into();
    assert_eq!(
        m,
        bits3([[n(0.1), n(0.2), n(0.3)], [n(0.5), n(0.6), n(0.7)], [n(0.9), n(1.0), n(1.1)]])
    );
    let d3 = DMat3::from(dsample4());
    let m: [[u32; 2]; 2] = Mat2::from(d3).into();
    assert_eq!(m, bits2([[n(0.1), n(0.2)], [n(0.5), n(0.6)]]));
    let m: [[u32; 4]; 4] = Mat4::from(d3).into();
    assert_eq!(
        m,
        bits4([
            [n(0.1), n(0.2), n(0.3), 0.0],
            [n(0.5), n(0.6), n(0.7), 0.0],
            [n(0.9), n(1.0), n(1.1), 0.0],
            [0.0, 0.0, 0.0, 1.0],
        ])
    );
    let w = |x: f32| x as f64;
    let m: [[u64; 3]; 3] = DMat3::from(sample2()).into();
    assert_eq!(m, dbits3([[w(1.2), w(3.4), 0.0], [w(5.6), w(7.8), 0.0], [0.0, 0.0, 1.0]]));
    let m: [[u64; 4]; 4] = DMat4::from(sample2()).into();
    assert_eq!(
        m,
        dbits4([
            [w(1.2), w(3.4), 0.0, 0.0],
            [w(5.6), w(7.8), 0.0, 0.0],
            [0.0, 0.0, 1.0, 0.0],
            [0.0, 0.0, 0.0, 1.0],
        ])
    );
    let m: [[u64; 4]; 4] = DMat4::from(sample3()).into();
    assert_eq!(
        m,
        dbits4([
            [w(0.1), w(0.2), w(0.3), 0.0],
            [w(0.4), w(0.5), w(0.6), 0.0],
            [w(0.7), w(0.8), w(0.9), 0.0],
            [0.0, 0.0, 0.0, 1.0],
        ])
    );
    let m: [[u64; 2]; 2] = DMat2::from(sample3()).into();
    assert_eq!(m, dbits2([[w(0.1), w(0.2)], [w(0.4), w(0.5)]]));
    let m: [[u64; 2]; 2] = DMat2::from(sample4()).into();
    assert_eq!(m, dbits2([[w(0.1), w(0.2)], [w(0.5), w(0.6)]]));
    let m: [[u64; 3]; 3] = DMat3::from(sample4()).into();
    assert_eq!(
        m,
        dbits3([[w(0.1), w(0.2), w(0.3)], [w(0.5), w(0.6), w(0.7)], [w(0.9), w(1.0), w(1.1)]])
    );
}

#[test]
fn matrices_compare_as_numbers() {
    assert!(sample2() == sample2());
    assert!(sample2() != sample2().transpose());
    assert!(sample3() == sample3());
    assert!(sample3() != sample3().transpose());
    assert!(sample4() == sample4());
    assert!(sample4() != sample4().transpose());
    assert!(dsample4() == dsample4());
    assert!(dsample4() != dsample4().transpose());
    assert!(Mat2::diagonal(b(0.0)) == Mat2::diagonal(b(-0.0)));
    assert!(Mat2::diagonal(b(f32::NAN)) != Mat2::diagonal(b(f32::NAN)));
    assert!(Mat3::diagonal(b(f32::NAN)) != Mat3::diagonal(b(f32::NAN)));
    assert!(Mat4::diagonal(b(f32::NAN)) != Mat4::diagonal(b(f32::NAN)));
    assert!(DMat2::diagonal(d(0.0)) == DMat2::diagonal(d(-0.0)));
    assert!(DMat2::diagonal(d(f64::NAN)) != DMat2::diagonal(d(f64::NAN)));
    assert!(DMat3::identity() == DMat3::default());
    assert!(DMat3::identity() != DMat3::diagonal(d(2.0)));
    // Every entry takes part in the comparison.
    let base: [[u32; 4]; 4] = sample4().into();
    for i in 0..4 {
        for j in 0..4 {
            let mut other = base;
            other[i][j] = b(9.0);
            assert!(Mat4::from(other) != sample4());
        }
    }
    let base: [[u32; 3]; 3] = sample3().into();
    for i in 0..3 {
        for j in 0..3 {
            let mut other = base;
            other[i][j] = b(9.0);
            assert!(Mat3::from(other) != sample3());
        }
    }
}
