use mafs::{Dmat4, Dvec2, Dvec4, Fmat4, Fvec2, Fvec4, Lane, Mat4, Vec2, Vec4};

#[test]
fn defaults_are_all_zero_bytes() {
    assert_eq!(Dvec4::default().as_array(), &[0u64; 4]);
    assert_eq!(Fvec4::default().as_array(), &[0u32; 4]);
    assert_eq!(Dvec2::default().as_array(), &[0u64; 2]);
    assert_eq!(Fvec2::default().as_array(), &[0u32; 2]);
    assert_eq!(Dmat4::default().column(3).as_array(), &[0u64; 4]);
    assert_eq!(Fmat4::default().column(0).as_array(), &[0u32; 4]);
}

#[test]
fn lane_constants() {
    assert_eq!(f64::from_bits(<u64 as Lane>::one()), 1.0);
    assert_eq!(f32::from_bits(<u32 as Lane>::one()), 1.0);
    assert_eq!(<u64 as Lane>::zero(), 0.0f64.to_bits());
    assert_eq!(<u32 as Lane>::zero(), 0.0f32.to_bits());
}

#[test]
fn lane_nan_detection() {
    assert!(Lane::nan(&f64::NAN.to_bits()));
    assert!(Lane::nan(&(-f64::NAN).to_bits()));
    assert!(!Lane::nan(&f64::INFINITY.to_bits()));
    assert!(!Lane::nan(&f64::NEG_INFINITY.to_bits()));
    assert!(Lane::nan(&f32::NAN.to_bits()));
    assert!(!Lane::nan(&f32::MAX.to_bits()));
}

#[test]
fn lane_order_follows_values() {
    let vals = [
        f64::NEG_INFINITY,
        -1.0e300,
        -2.0,
        -1.0e-310,
        0.0,
        1.0e-310,
        0.5,
        3.0,
        f64::MAX,
        f64::INFINITY,
    ];
    for i in 0..vals.len() {
        for j in 0..vals.len() {
            let a = vals[i].to_bits();
            let b = vals[j].to_bits();
            assert_eq!(a.key_lt(&b), vals[i] < vals[j]);
            assert_eq!(a.key_eq(&b), vals[i] == vals[j]);
        }
    }
    let z = 0.0f64.to_bits();
    let nz = (-0.0f64).to_bits();
    assert!(z.key_eq(&nz));
    assert!(!nz.key_lt(&z));
    let f = [-3.5f32, -0.0, 0.0, 1.0e-40, 2.0, f32::INFINITY];
    for x in f {
        for y in f {
            assert_eq!(x.to_bits().key_lt(&y.to_bits()), x < y);
            assert_eq!(x.to_bits().key_eq(&y.to_bits()), x == y);
        }
    }
}

#[test]
fn lane_negation_is_zero_minus() {
    for x in [1.0f64, -2.5, 0.0, -0.0, f64::INFINITY, -1.0e-310] {
        assert_eq!(Lane::neg(&x.to_bits()), (0.0 - x).to_bits());
    }
    for x in [1.0f32, -2.5, 0.0, -0.0, f32::NEG_INFINITY] {
        assert_eq!(Lane::neg(&x.to_bits()), (0.0 - x).to_bits());
    }
    let signalling: u64 = 0x7FF0_0000_0000_0001;
    let q = Lane::neg(&signalling);
    assert!(f64::from_bits(q).is_nan());
    assert_eq!(q, 0x7FF8_0000_0000_0001);
    let quiet: u32 = 0xFFC0_0000;
    assert_eq!(Lane::neg(&quiet), quiet);
}
