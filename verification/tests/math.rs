use particles::mat2x3::mul_point;
use particles::mat2x3::mul_vec;
use particles::mat2x3::transforms;
use particles::mat2x3::Mat2X3;
use particles::mat2x3::Mat2X3I32;
use particles::mat4::Mat4;
use particles::vec2::TVec2;
use particles::vec2::Vec2I32;
use particles::vec3::TVec3;
use particles::vec4::TVec4;
use particles::vec4::Vec4I32;

#[test]
fn test_conversions() {
    let s = [0, 1, 2, 3];
    let v = Vec4I32::from(s);

    assert_eq!(v[0], s[0]);
    assert_eq!(v[1], s[1]);
    assert_eq!(v[2], s[2]);
    assert_eq!(v[3], s[3]);
}

#[test]
fn test_index_ops() {
    let m = Mat4::from_iter(0..16);

    assert_eq!(m[0], Vec4I32::new(0, 1, 2, 3));
    assert_eq!(m[1], Vec4I32::new(4, 5, 6, 7));
    assert_eq!(m[2], Vec4I32::new(8, 9, 10, 11));
    assert_eq!(m[3], Vec4I32::new(12, 13, 14, 15));

    let mut m = Mat4::from_iter(0..16);
    let doubled = m[0] * 2;
    m.set_row(0, doubled);
    assert_eq!(m[0], Vec4I32::from([0, 2, 4, 6]));
}

#[test]
fn mat4_test_multiplication() {
    let m0 = Mat4::from_iter(1..=16);
    let m1 = Mat4::from_iter(17..=17 + 15);

    let res = m0 * m1;
    assert_eq!(
        res,
        Mat4::from([
            250, 260, 270, 280, 618, 644, 670, 696, 986, 1028, 1070, 1112, 1354, 1412, 1470, 1528
        ])
    );
}

#[test]
fn test_transpose() {
    let m = Mat4::from_iter(0..16);
    let m1 = m.transpose();

    assert_eq!(
        m1,
        Mat4::from([0, 4, 8, 12, 1, 5, 9, 13, 2, 6, 10, 14, 3, 7, 11, 15])
    );
}

fn approx_eq(a: f32, b: f32) -> bool {
    (a - b).abs() <= std::f32::EPSILON
}

#[test]
fn test_slice_fns() {
    let m = Mat2X3::new(1f32, 2f32, 3f32, 4f32, 5f32, 6f32);
    let sm = m.to_array();

    assert!(approx_eq(sm[0], m.row(0)[0]));
    assert!(approx_eq(sm[1], m.row(0)[1]));
    assert!(approx_eq(sm[2], m.row(0)[2]));

    assert!(approx_eq(sm[3], m.row(1)[0]));
    assert!(approx_eq(sm[4], m.row(1)[1]));
    assert!(approx_eq(sm[5], m.row(1)[2]));

    let mut m = m;
    m.a00 = 10f32;
    m.a11 = 20f32;

    assert_eq!(m.a00, 10f32);
    assert_eq!(m.a11, 20f32);
    assert_eq!(m.row(0)[0], 10f32);
    assert_eq!(m.row(1)[1], 20f32);
}

#[test]
fn test_ctors() {
    let m = Mat2X3::<i32>::from_iter(0..=5);

    assert_eq!(&m.to_array(), &[0, 1, 2, 3, 4, 5]);

    let m = Mat2X3I32::from([0, 1, 2, 3, 4, 5]);
    assert_eq!(&m.to_array(), &[0, 1, 2, 3, 4, 5]);
}

#[test]
fn test_mul_scalar() {
    let m = Mat2X3::<i32>::from_iter(0..=5);
    let m1 = m * 2;

    assert_eq!(&m1.to_array(), &[0, 2, 4, 6, 8, 10]);
}

#[test]
fn test_div_scalar() {
    let m = Mat2X3::from_iter((0..=5).map(|i| i * 2));
    let m1 = m / 2;

    assert_eq!(&m1.to_array(), &[0, 1, 2, 3, 4, 5]);
}

#[test]
fn mat2x3_test_multiplication() {
    let m0 = Mat2X3::from([1, 2, 3, 4, 5, 6]);
    let m1 = Mat2X3::from([7, 8, 9, 10, 11, 12]);
    let res = m0 * m1;

    assert_eq!(res, Mat2X3::from([27, 30, 36, 78, 87, 102]));
}

#[test]
fn short_sources_are_padded_with_zero() {
    assert_eq!(Vec4I32::from_slice(&[7, 8]), Vec4I32::new(7, 8, 0, 0));
    assert_eq!(Vec4I32::from_iter(1..3), Vec4I32::new(1, 2, 0, 0));
    assert_eq!(Vec2I32::from_slice(&[]), Vec2I32::new(0, 0));
    assert_eq!(Mat2X3I32::from_iter(1..=3), Mat2X3::new(1, 2, 3, 0, 0, 0));
    assert_eq!(Mat4::<i32>::from_slice(&[5])[0], Vec4I32::new(5, 0, 0, 0));
}

#[test]
fn long_sources_are_cut() {
    assert_eq!(Vec2I32::from_iter(1..100), Vec2I32::new(1, 2));
    assert_eq!(TVec3::<i32>::from_slice(&[1, 2, 3, 4, 5]), TVec3::new(1, 2, 3));
}

#[test]
fn vector_arithmetic() {
    let a = Vec2I32::new(3, 4);
    let b = Vec2I32::new(-1, 2);
    assert_eq!(a + b, Vec2I32::new(2, 6));
    assert_eq!(a - b, Vec2I32::new(4, 2));
    assert_eq!(a * 3, Vec2I32::new(9, 12));
    assert_eq!(a * b, Vec2I32::new(-3, 8));
    assert_eq!(a / 2, Vec2I32::new(1, 2));
    assert_eq!(a / b, Vec2I32::new(-3, 2));
    assert_eq!(-a, Vec2I32::new(-3, -4));
    assert_eq!(a.square_len(), 25);
    assert_eq!(TVec3::new(1, 2, 3).length_squared(), 14);
    assert_eq!(Vec4I32::new(1, 2, 3, 4).square_len(), 30);
    assert_eq!(particles::vec2::dot(a, b), 5);
    assert_eq!(particles::vec2::perp(a, b), -10);
    assert_eq!(particles::vec2::perp_vec(a), Vec2I32::new(-4, 3));
    assert!(particles::vec2::are_orthogonal(a, Vec2I32::new(4, -3)));
    assert!(!particles::vec2::are_orthogonal(a, b));
    assert!(particles::vec2::is_unit_length(Vec2I32::new(0, -1)));
    assert!(!particles::vec2::is_unit_length(a));
}

#[test]
fn vec4_arithmetic() {
    let a = Vec4I32::new(1, 2, 3, 4);
    let b = Vec4I32::same(2);
    assert_eq!(a + b, Vec4I32::new(3, 4, 5, 6));
    assert_eq!(a - b, Vec4I32::new(-1, 0, 1, 2));
    assert_eq!(a * b, Vec4I32::new(2, 4, 6, 8));
    assert_eq!(a * 5, Vec4I32::new(5, 10, 15, 20));
    assert_eq!(-a, Vec4I32::new(-1, -2, -3, -4));
    assert_eq!(a.into_tuple(), (1, 2, 3, 4));
    assert_eq!(TVec4::from_vec3(&TVec3::new(7, 8, 9), 1), Vec4I32::new(7, 8, 9, 1));
    assert_eq!(Vec4I32::default(), particles::vec4::consts::null());
    assert_eq!(a.to_array(), [1, 2, 3, 4]);
}

#[test]
fn named_vectors() {
    assert_eq!(particles::vec2::consts::null::<i32>(), TVec2::new(0, 0));
    assert_eq!(particles::vec2::consts::unit_x::<i32>(), TVec2::new(1, 0));
    assert_eq!(particles::vec2::consts::unit_y::<i32>(), TVec2::new(0, 1));
    assert_eq!(particles::vec3::consts::null::<u8>(), TVec3::new(0, 0, 0));
    assert_eq!(particles::vec3::consts::unit_x::<u8>(), TVec3::new(1, 0, 0));
    assert_eq!(particles::vec3::consts::unit_y::<u8>(), TVec3::new(0, 1, 0));
    assert_eq!(particles::vec3::consts::unit_z::<u8>(), TVec3::new(0, 0, 1));
}

#[test]
fn affine_transforms() {
    let t = transforms::translate(10, 20);
    let s = transforms::scale(2, 3);
    assert_eq!(mul_point(&t, TVec2::new(1, 1)), TVec2::new(11, 21));
    assert_eq!(mul_vec(&t, TVec2::new(1, 1)), TVec2::new(1, 1));
    assert_eq!(mul_point(&(t * s), TVec2::new(1, 1)), TVec2::new(12, 23));
    assert_eq!(mul_point(&(s * t), TVec2::new(1, 1)), TVec2::new(22, 63));
    assert_eq!(transforms::uniform_scale(4), transforms::scale(4, 4));
    assert_eq!(mul_point(&transforms::shear_x(2), TVec2::new(1, 1)), TVec2::new(3, 1));
    assert_eq!(mul_point(&transforms::shear_y(2), TVec2::new(1, 1)), TVec2::new(1, 3));
    assert_eq!(mul_point(&transforms::shear_xy(2, 5), TVec2::new(1, 1)), TVec2::new(3, 6));
    let id = particles::mat2x3::consts::identity::<i32>();
    assert_eq!(id * t, t);
    assert_eq!(t + particles::mat2x3::consts::null(), t);
    assert_eq!(t - t, particles::mat2x3::consts::null());
    assert_eq!(t.row(1), TVec3::new(0, 1, 20));
}

#[test]
fn mat4_names_and_conversion() {
    let id = particles::mat4::consts::identity::<i32>();
    let m = Mat4::from_iter(1..=16);
    assert_eq!(id * m, m);
    assert_eq!(m * id, m);
    assert_eq!(particles::mat4::consts::null::<i32>().to_array(), [0; 16]);
    assert_eq!(m.transpose().transpose(), m);
    assert_eq!(m.get_column(1), Vec4I32::new(2, 6, 10, 14));
    let t = Mat4::from(transforms::translate(5, 6));
    assert_eq!(
        t.to_array(),
        [1, 0, 0, 5, 0, 1, 0, 6, 0, 0, 1, 0, 0, 0, 0, 1]
    );
}
