use mafs::{Dmat4, Dvec4, Fmat4, Fvec4, Mat4, Vec4};

fn d4(x: f64, y: f64, z: f64, w: f64) -> Dvec4 {
    Dvec4::new(x.to_bits(), y.to_bits(), z.to_bits(), w.to_bits())
}

fn f4(x: f32, y: f32, z: f32, w: f32) -> Fvec4 {
    Fvec4::new(x.to_bits(), y.to_bits(), z.to_bits(), w.to_bits())
}

fn row(a: f64, b: f64, c: f64, d: f64) -> [u64; 4] {
    [a.to_bits(), b.to_bits(), c.to_bits(), d.to_bits()]
}

fn floats(m: &Dmat4) -> [[f64; 4]; 4] {
    let mut out = [[0.0; 4]; 4];
    for j in 0..4 {
        for i in 0..4 {
            out[j][i] = f64::from_bits(m.column(j).lane(i));
        }
    }
    out
}

fn m1() -> Dmat4 {
    Dmat4::from_columns(
        d4(1.0, 2.0, 3.0, 4.0),
        d4(5.0, 6.0, 7.0, 8.0),
        d4(9.0, 10.0, 11.0, 12.0),
        d4(13.0, 14.0, 15.0, 16.0),
    )
}

#[test]
fn transpose_swaps_rows_and_columns() {
    let t = m1().transpose();
    assert_eq!(
        t,
        Dmat4::from_columns(
            d4(1.0, 5.0, 9.0, 13.0),
            d4(2.0, 6.0, 10.0, 14.0),
            d4(3.0, 7.0, 11.0, 15.0),
            d4(4.0, 8.0, 12.0, 16.0),
        )
    );
    assert_eq!(t.transpose(), m1());
}

#[test]
fn fmat4_transpose() {
    let m = Fmat4::from_columns(
        f4(1.0, 2.0, 3.0, 4.0),
        f4(5.0, 6.0, 7.0, 8.0),
        f4(9.0, 10.0, 11.0, 12.0),
        f4(13.0, 14.0, 15.0, 16.0),
    );
    let t = m.transpose();
    assert_eq!(t.column(1), f4(2.0, 6.0, 10.0, 14.0));
    assert_eq!(t.transpose(), m);
}

#[test]
fn from_rows_stores_columns() {
    let m = Dmat4::from_rows(
        row(1.0, 5.0, 9.0, 13.0),
        row(2.0, 6.0, 10.0, 14.0),
        row(3.0, 7.0, 11.0, 15.0),
        row(4.0, 8.0, 12.0, 16.0),
    );
    assert_eq!(m, m1());
    assert_eq!(floats(&m)[2], [9.0, 10.0, 11.0, 12.0]);
}

#[test]
fn identity_and_splat() {
    let i = Dmat4::identity();
    assert_eq!(
        floats(&i),
        [
            [1.0, 0.0, 0.0, 0.0],
            [0.0, 1.0, 0.0, 0.0],
            [0.0, 0.0, 1.0, 0.0],
            [0.0, 0.0, 0.0, 1.0],
        ]
    );
    let s = Dmat4::splat(2.5f64.to_bits());
    assert_eq!(floats(&s), [[2.5; 4]; 4]);
    let f = Fmat4::identity();
    assert_eq!(f32::from_bits(f.column(2).lane(2)), 1.0);
    assert_eq!(f32::from_bits(f.column(2).lane(1)), 0.0);
}

#[test]
fn columns_read_and_write() {
    let mut m = m1();
    assert_eq!(m.as_array()[1], d4(5.0, 6.0, 7.0, 8.0));
    m.set_column(0, d4(-1.0, -2.0, -3.0, -4.0));
    assert_eq!(floats(&m)[0], [-1.0, -2.0, -3.0, -4.0]);
    assert_eq!(floats(&m)[1], [5.0, 6.0, 7.0, 8.0]);
}

#[test]
fn matrix_equality_follows_lanes() {
    assert!(m1() == m1());
    let mut m = m1();
    m.set_column(3, d4(13.0, 14.0, 15.0, 16.5));
    assert!(m != m1());
    let z = Dmat4::splat(0.0f64.to_bits());
    assert!(z == Dmat4::splat((-0.0f64).to_bits()));
    let n = Dmat4::splat(f64::NAN.to_bits());
    assert!(n != n);
}

#[test]
fn matrix_negate() {
    let n = m1().negate();
    assert_eq!(floats(&n)[3], [-13.0, -14.0, -15.0, -16.0]);
    assert_eq!(n.negate(), m1());
}

#[test]
fn rotation_inverse_of_rigid_transform() {
    let m = Dmat4::from_columns(
        d4(0.0, 1.0, 0.0, 0.0),
        d4(-1.0, 0.0, 0.0, 0.0),
        d4(0.0, 0.0, 1.0, 0.0),
        d4(3.0, 4.0, 5.0, 1.0),
    );
    let r = m.rotation_inverse();
    assert_eq!(
        floats(&r),
        [
            [0.0, -1.0, 0.0, 0.0],
            [1.0, 0.0, 0.0, 0.0],
            [0.0, 0.0, 1.0, 0.0],
            [0.0, 0.0, 0.0, 1.0],
        ]
    );
    let t = r.with_translation(d4(-4.0, 3.0, -5.0, 0.0));
    assert_eq!(floats(&t)[3], [-4.0, 3.0, -5.0, 1.0]);
    assert_eq!(floats(&t)[0], [0.0, -1.0, 0.0, 0.0]);
}

#[test]
fn rotation_only_inverse_step_is_transpose() {
    let c = 1.0f64.cos();
    let s = 1.0f64.sin();
    let m = Dmat4::from_columns(
        d4(1.0, 0.0, 0.0, 0.0),
        d4(0.0, c, -s, 0.0),
        d4(0.0, s, c, 0.0),
        d4(0.0, 0.0, 0.0, 1.0),
    );
    assert_eq!(m.rotation_inverse(), m.transpose());
}
