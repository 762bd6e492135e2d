use euler::{DVec2, DVec3, DVec4, Vec2, Vec3, Vec4};

fn b(v: f32) -> u32 {
    v.to_bits()
}

fn d(v: f64) -> u64 {
    v.to_bits()
}

#[test]
fn new_keeps_the_components_in_order() {
    let v = Vec2::new(b(1.0), b(2.0));
    assert_eq!((v.x, v.y), (b(1.0), b(2.0)));
    let v = Vec3::new(b(1.0), b(2.0), b(3.0));
    assert_eq!((v.x, v.y, v.z), (b(1.0), b(2.0), b(3.0)));
    let v = Vec4::new(b(1.0), b(2.0), b(3.0), b(4.0));
    assert_eq!((v.x, v.y, v.z, v.w), (b(1.0), b(2.0), b(3.0), b(4.0)));
    let v = DVec2::new(d(1.0), d(2.0));
    assert_eq!((v.x, v.y), (d(1.0), d(2.0)));
    let v = DVec3::new(d(1.0), d(2.0), d(3.0));
    assert_eq!((v.x, v.y, v.z), (d(1.0), d(2.0), d(3.0)));
    let v = DVec4::new(d(1.0), d(2.0), d(3.0), d(4.0));
    assert_eq!((v.x, v.y, v.z, v.w), (d(1.0), d(2.0), d(3.0), d(4.0)));
}

#[test]
fn zero_and_default_are_all_zero() {
    let z: [u32; 2] = Vec2::zero().into();
    assert_eq!(z, [b(0.0); 2]);
    let z: [u32; 3] = Vec3::zero().into();
    assert_eq!(z, [b(0.0); 3]);
    let z: [u32; 4] = Vec4::zero().into();
    assert_eq!(z, [b(0.0); 4]);
    let z: [u64; 2] = DVec2::zero().into();
    assert_eq!(z, [d(0.0); 2]);
    let z: [u64; 3] = DVec3::zero().into();
    assert_eq!(z, [d(0.0); 3]);
    let z: [u64; 4] = DVec4::zero().into();
    assert_eq!(z, [d(0.0); 4]);
    let z: [u32; 2] = Vec2::default().into();
    assert_eq!(z, [0; 2]);
    let z: [u32; 3] = Vec3::default().into();
    assert_eq!(z, [0; 3]);
    let z: [u32; 4] = Vec4::default().into();
    assert_eq!(z, [0; 4]);
    let z: [u64; 2] = DVec2::default().into();
    assert_eq!(z, [0; 2]);
    let z: [u64; 3] = DVec3::default().into();
    assert_eq!(z, [0; 3]);
    let z: [u64; 4] = DVec4::default().into();
    assert_eq!(z, [0; 4]);
}

#[test]
fn a_scalar_is_broadcast_to_every_component() {
    let v: [u32; 2] = Vec2::from(b(1.0)).into();
    assert_eq!(v, [b(1.0); 2]);
    let v: [u32; 3] = Vec3::from(b(1.0)).into();
    assert_eq!(v, [b(1.0); 3]);
    let v: [u32; 4] = Vec4::from(b(1.0)).into();
    assert_eq!(v, [b(1.0); 4]);
    let v: [u64; 2] = DVec2::from(d(1.0)).into();
    assert_eq!(v, [d(1.0); 2]);
    let v: [u64; 3] = DVec3::from(d(1.0)).into();
    assert_eq!(v, [d(1.0); 3]);
    let v: [u64; 4] = DVec4::from(d(1.0)).into();
    assert_eq!(v, [d(1.0); 4]);
}

#[test]
fn a_scalar_of_the_other_precision_is_converted_then_broadcast() {
    let v: [u32; 2] = Vec2::from(d(0.1)).into();
    assert_eq!(v, [b(0.1f64 as f32); 2]);
    let v: [u32; 3] = Vec3::from(d(0.1)).into();
    assert_eq!(v, [b(0.1f64 as f32); 3]);
    let v: [u32; 4] = Vec4::from(d(0.1)).into();
    assert_eq!(v, [b(0.1f64 as f32); 4]);
    let v: [u64; 2] = DVec2::from(b(0.1)).into();
    assert_eq!(v, [d(0.1f32 as f64); 2]);
    let v: [u64; 3] = DVec3::from(b(0.1)).into();
    assert_eq!(v, [d(0.1f32 as f64); 3]);
    let v: [u64; 4] = DVec4::from(b(0.1)).into();
    assert_eq!(v, [d(0.1f32 as f64); 4]);
}

#[test]
fn swizzles_drop_the_trailing_components() {
    let v = Vec4::new(b(1.0), b(2.0), b(3.0), b(4.0));
    let xy: [u32; 2] = v.xy().into();
    assert_eq!(xy, [b(1.0), b(2.0)]);
    let xyz: [u32; 3] = v.xyz().into();
    assert_eq!(xyz, [b(1.0), b(2.0), b(3.0)]);
    let xy: [u32; 2] = v.xyz().xy().into();
    assert_eq!(xy, [b(1.0), b(2.0)]);
    let xz: [u32; 2] = v.xyz().xz().into();
    assert_eq!(xz, [b(1.0), b(3.0)]);
    let v = DVec4::new(d(1.0), d(2.0), d(3.0), d(4.0));
    let xy: [u64; 2] = v.xy().into();
    assert_eq!(xy, [d(1.0), d(2.0)]);
    let xyz: [u64; 3] = v.xyz().into();
    assert_eq!(xyz, [d(1.0), d(2.0), d(3.0)]);
    let xy: [u64; 2] = v.xyz().xy().into();
    assert_eq!(xy, [d(1.0), d(2.0)]);
    let xz: [u64; 2] = v.xyz().xz().into();
    assert_eq!(xz, [d(1.0), d(3.0)]);
}

#[test]
fn a_vector_is_extended_by_trailing_components() {
    let xy = Vec2::new(b(1.0), b(2.0));
    let v: [u32; 3] = Vec3::from((xy, b(3.0))).into();
    assert_eq!(v, [b(1.0), b(2.0), b(3.0)]);
    let v: [u32; 4] = Vec4::from((xy, b(3.0), b(4.0))).into();
    assert_eq!(v, [b(1.0), b(2.0), b(3.0), b(4.0)]);
    let v: [u32; 4] = Vec4::from((Vec3::from((xy, b(3.0))), b(4.0))).into();
    assert_eq!(v, [b(1.0), b(2.0), b(3.0), b(4.0)]);
    let xy = DVec2::new(d(1.0), d(2.0));
    let v: [u64; 3] = DVec3::from((xy, d(3.0))).into();
    assert_eq!(v, [d(1.0), d(2.0), d(3.0)]);
    let v: [u64; 4] = DVec4::from((xy, d(3.0), d(4.0))).into();
    assert_eq!(v, [d(1.0), d(2.0), d(3.0), d(4.0)]);
    let v: [u64; 4] = DVec4::from((DVec3::from((xy, d(3.0))), d(4.0))).into();
    assert_eq!(v, [d(1.0), d(2.0), d(3.0), d(4.0)]);
}

#[test]
fn extending_then_dropping_gives_the_vector_back() {
    let xy = Vec2::new(b(-1.5), b(2.25));
    let back: [u32; 2] = Vec3::from((xy, b(9.0))).xy().into();
    assert_eq!(back, [b(-1.5), b(2.25)]);
    let xyz = Vec3::new(b(-1.5), b(2.25), b(7.0));
    let back: [u32; 3] = Vec4::from((xyz, b(9.0))).xyz().into();
    assert_eq!(back, [b(-1.5), b(2.25), b(7.0)]);
}

#[test]
fn arrays_round_trip_exactly() {
    // Patterns of every class: a NaN with a payload and a negative zero too.
    let a2 = [0x7fc0_1234u32, 0x8000_0000];
    let a3 = [0x7fc0_1234u32, 0x8000_0000, 0x0000_0001];
    let a4 = [0x7fc0_1234u32, 0x8000_0000, 0x0000_0001, 0xff80_0000];
    let r: [u32; 2] = Vec2::from(a2).into();
    assert_eq!(r, a2);
    let r: [u32; 3] = Vec3::from(a3).into();
    assert_eq!(r, a3);
    let r: [u32; 4] = Vec4::from(a4).into();
    assert_eq!(r, a4);
    let d2 = [0x7ff8_0000_0000_1234u64, 0x8000_0000_0000_0000];
    let d3 = [0x7ff8_0000_0000_1234u64, 0x8000_0000_0000_0000, 1];
    let d4 = [0x7ff8_0000_0000_1234u64, 0x8000_0000_0000_0000, 1, 0xfff0_0000_0000_0000];
    let r: [u64; 2] = DVec2::from(d2).into();
    assert_eq!(r, d2);
    let r: [u64; 3] = DVec3::from(d3).into();
    assert_eq!(r, d3);
    let r: [u64; 4] = DVec4::from(d4).into();
    assert_eq!(r, d4);
}

#[test]
fn array_entries_become_components_in_order() {
    let v = Vec4::from([b(1.0), b(2.0), b(3.0), b(4.0)]);
    assert_eq!((v.x, v.y, v.z, v.w), (b(1.0), b(2.0), b(3.0), b(4.0)));
    let v = Vec3::from([b(1.0), b(2.0), b(3.0)]);
    assert_eq!((v.x, v.y, v.z), (b(1.0), b(2.0), b(3.0)));
    let v = Vec2::from([b(1.0), b(2.0)]);
    assert_eq!((v.x, v.y), (b(1.0), b(2.0)));
    let v = DVec4::from([d(1.0), d(2.0), d(3.0), d(4.0)]);
    assert_eq!((v.x, v.y, v.z, v.w), (d(1.0), d(2.0), d(3.0), d(4.0)));
}

#[test]
fn widening_a_vector_and_narrowing_it_again_is_exact() {
    let values = [
        0.1f32,
        -3.75,
        f32::MAX,
        f32::MIN_POSITIVE,
        1.0e-40,
        -0.0,
        f32::INFINITY,
        f32::EPSILON,
    ];
    for w in values.windows(4) {
        let v = Vec4::new(b(w[0]), b(w[1]), b(w[2]), b(w[3]));
        let wide = DVec4::from(v);
        assert_eq!(
            [wide.x, wide.y, wide.z, wide.w],
            [d(w[0] as f64), d(w[1] as f64), d(w[2] as f64), d(w[3] as f64)]
        );
        let back: [u32; 4] = Vec4::from(wide).into();
        assert_eq!(back, [b(w[0]), b(w[1]), b(w[2]), b(w[3])]);
        let back: [u32; 3] = Vec3::from(DVec3::from(v.xyz())).into();
        assert_eq!(back, [b(w[0]), b(w[1]), b(w[2])]);
        let back: [u32; 2] = Vec2::from(DVec2::from(v.xy())).into();
        assert_eq!(back, [b(w[0]), b(w[1])]);
    }
}

#[test]
fn narrowing_a_vector_rounds_and_never_fails() {
    let v = DVec4::new(d(0.1), d(1.0e300), d(-1.0e-300), d(f64::NAN));
    let n = Vec4::from(v);
    assert_eq!(n.x, b(0.1f64 as f32));
    assert_eq!(n.y, b(f32::INFINITY));
    assert_eq!(n.z, b(-0.0));
    assert!(f32::from_bits(n.w).is_nan());
    let n = Vec3::from(DVec3::new(d(0.1), d(0.2), d(0.3)));
    assert_eq!([n.x, n.y, n.z], [b(0.1f64 as f32), b(0.2f64 as f32), b(0.3f64 as f32)]);
    let n = Vec2::from(DVec2::new(d(0.1), d(0.2)));
    assert_eq!([n.x, n.y], [b(0.1f64 as f32), b(0.2f64 as f32)]);
}

#[test]
fn vectors_compare_as_numbers() {
    assert!(Vec2::new(b(1.0), b(2.0)) == Vec2::new(b(1.0), b(2.0)));
    assert!(Vec2::new(b(1.0), b(2.0)) != Vec2::new(b(1.0), b(2.5)));
    assert!(Vec2::new(b(0.0), b(2.0)) == Vec2::new(b(-0.0), b(2.0)));
    assert!(Vec2::new(b(f32::NAN), b(2.0)) != Vec2::new(b(f32::NAN), b(2.0)));
    assert!(Vec3::new(b(1.0), b(2.0), b(3.0)) == Vec3::new(b(1.0), b(2.0), b(3.0)));
    assert!(Vec3::new(b(1.0), b(2.0), b(3.0)) != Vec3::new(b(1.0), b(2.0), b(-3.0)));
    assert!(Vec3::new(b(1.0), b(2.0), b(f32::NAN)) != Vec3::new(b(1.0), b(2.0), b(f32::NAN)));
    assert!(Vec4::new(b(1.0), b(2.0), b(3.0), b(4.0)) == Vec4::new(b(1.0), b(2.0), b(3.0), b(4.0)));
    assert!(Vec4::new(b(1.0), b(2.0), b(3.0), b(4.0)) != Vec4::new(b(1.0), b(2.0), b(3.0), b(0.0)));
    assert!(DVec2::new(d(1.0), d(2.0)) == DVec2::new(d(1.0), d(2.0)));
    assert!(DVec2::new(d(0.0), d(2.0)) == DVec2::new(d(-0.0), d(2.0)));
    assert!(DVec2::new(d(f64::NAN), d(2.0)) != DVec2::new(d(f64::NAN), d(2.0)));
    assert!(DVec3::new(d(1.0), d(2.0), d(3.0)) != DVec3::new(d(1.0), d(2.5), d(3.0)));
    let v = DVec4::new(d(1.0), d(2.0), d(3.0), d(4.0));
    assert!(v == DVec4::new(d(1.0), d(2.0), d(3.0), d(4.0)));
    assert!(v != DVec4::new(d(1.5), d(2.0), d(3.0), d(4.0)));
}
