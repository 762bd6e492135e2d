use euler::{DQuat, Quat};

fn b(v: f32) -> u32 {
    v.to_bits()
}

fn d(v: f64) -> u64 {
    v.to_bits()
}

#[test]
fn the_identity_quaternion_has_scalar_part_one() {
    let q: [u32; 4] = Quat::identity().into();
    assert_eq!(q, [b(0.0), b(0.0), b(0.0), b(1.0)]);
    let q: [u64; 4] = DQuat::identity().into();
    assert_eq!(q, [d(0.0), d(0.0), d(0.0), d(1.0)]);
    let q: [u32; 4] = Quat::default().into();
    assert_eq!(q, [b(0.0), b(0.0), b(0.0), b(1.0)]);
    let q: [u64; 4] = DQuat::default().into();
    assert_eq!(q, [d(0.0), d(0.0), d(0.0), d(1.0)]);
}

#[test]
fn quaternion_parts_are_kept_in_order() {
    let q = Quat::new(b(1.0), b(2.0), b(3.0), b(4.0));
    assert_eq!((q.x, q.y, q.z, q.s), (b(1.0), b(2.0), b(3.0), b(4.0)));
    let a: [u32; 4] = q.into();
    assert_eq!(a, [b(1.0), b(2.0), b(3.0), b(4.0)]);
    let q = DQuat::new(d(1.0), d(2.0), d(3.0), d(4.0));
    assert_eq!((q.x, q.y, q.z, q.s), (d(1.0), d(2.0), d(3.0), d(4.0)));
    let a: [u64; 4] = q.into();
    assert_eq!(a, [d(1.0), d(2.0), d(3.0), d(4.0)]);
}

#[test]
fn quaternion_arrays_round_trip_exactly() {
    let a = [0x7fc0_0001u32, 0x8000_0000, 1, b(0.5)];
    let r: [u32; 4] = Quat::from(a).into();
    assert_eq!(r, a);
    let q = Quat::from(a);
    assert_eq!((q.x, q.y, q.z, q.s), (a[0], a[1], a[2], a[3]));
    let a = [0x7ff8_0000_0000_0001u64, 0x8000_0000_0000_0000, 1, d(0.5)];
    let r: [u64; 4] = DQuat::from(a).into();
    assert_eq!(r, a);
    let q = DQuat::from(a);
    assert_eq!((q.x, q.y, q.z, q.s), (a[0], a[1], a[2], a[3]));
}

#[test]
fn the_scalar_part_is_last_where_cgmath_puts_it_first() {
    let q = Quat::new(b(1.0), b(2.0), b(3.0), b(4.0));
    let c = cgmath::Quaternion::new(
        f32::from_bits(q.s),
        f32::from_bits(q.x),
        f32::from_bits(q.y),
        f32::from_bits(q.z),
    );
    assert_eq!((c.s, c.v.x, c.v.y, c.v.z), (4.0, 1.0, 2.0, 3.0));
}

#[test]
fn quaternions_compare_as_numbers() {
    assert!(Quat::identity() == Quat::default());
    assert!(Quat::identity() != Quat::new(b(0.0), b(0.0), b(0.0), b(-1.0)));
    assert!(Quat::identity() == Quat::new(b(-0.0), b(0.0), b(-0.0), b(1.0)));
    let nan = Quat::new(b(f32::NAN), b(0.0), b(0.0), b(1.0));
    assert!(nan != nan);
    assert!(DQuat::identity() == DQuat::default());
    assert!(DQuat::identity() != DQuat::new(d(0.0), d(1.0), d(0.0), d(1.0)));
    let nan = DQuat::new(d(0.0), d(0.0), d(0.0), d(f64::NAN));
    assert!(nan != nan);
    let base = [b(1.0), b(2.0), b(3.0), b(4.0)];
    for i in 0..4 {
        let mut other = base;
        other[i] = b(9.0);
        assert!(Quat::from(other) != Quat::from(base));
    }
}
