use algebra::{Complex, Quaternion, Vec2, Vec3, Mat2x2, Mat3x3, Mat4x4, MultiVec2, Euler, Fixed};

#[test]
fn complex_norm_sqr_of_three_four_is_twenty_five() {
    let c = Complex { r: 3i64, i: 4i64 };
    assert_eq!(c.norm_sqr(), 25);
}

#[test]
fn complex_times_conjugate_is_real_norm() {
    let c = Complex { r: 3i64, i: 4i64 };
    let p = c.mul(c.conj());
    assert_eq!(p.i, 0);
    assert_eq!(p.r, c.norm_sqr());
    let d = Complex { r: -123456789i64, i: 987654321i64 };
    let q = d.mul(d.conj());
    assert_eq!(q.i, 0);
    assert_eq!(q.r, d.norm_sqr());
}

#[test]
fn complex_product_formula() {
    let p = Complex { r: 1i64, i: 2i64 }.mul(Complex { r: 3i64, i: 4i64 });
    assert_eq!(p, Complex { r: -5, i: 10 });
}

#[test]
fn complex_sum_difference_and_scalars() {
    let a = Complex { r: 1i64, i: 2i64 };
    let b = Complex { r: 3i64, i: -1i64 };
    assert_eq!(a.add(b), Complex { r: 4, i: 1 });
    assert_eq!(a.sub(b), Complex { r: -2, i: 3 });
    assert_eq!(a.add_s(10), Complex { r: 11, i: 2 });
    assert_eq!(a.mul_s(3), Complex { r: 3, i: 6 });
    assert_eq!(a.neg(), Complex { r: -1, i: -2 });
}

#[test]
fn complex_division_by_an_exact_factor() {
    let b = Complex { r: 1i64, i: 2i64 };
    let a = b.mul_s(5);
    assert_eq!(a.div(b), Complex { r: 5, i: 0 });
}

#[test]
fn complex_over_fixed_point_scalars() {
    type Fx = Fixed<i64, 16>;
    let c = Complex { r: Fx::from_int(3), i: Fx::from_int(4) };
    assert_eq!(c.norm_sqr(), Fx::from_int(25));
}

#[test]
fn mat2_determinant_of_one_two_three_four() {
    let m = Mat2x2::from_array([1i64, 2, 3, 4]);
    assert_eq!(m.determinant(), -2);
}

#[test]
fn mat2_unimodular_inverse_is_exact() {
    let m = Mat2x2::from_array([2i64, 1, 1, 1]);
    assert_eq!(m.determinant(), 1);
    let inv = m.inverse();
    assert_eq!(inv, Mat2x2::from_array([1, -1, -1, 2]));
    let identity = Mat2x2::from_array([1i64, 0, 0, 1]);
    assert_eq!(m.mul(inv), identity);
}

#[test]
fn mat2_inverse_of_a_shear_is_not_its_transpose() {
    let m = Mat2x2::from_array([1i64, 1, 0, 1]);
    assert_eq!(m.determinant(), 1);
    let inv = m.inverse();
    assert_eq!(inv, Mat2x2::from_array([1, -1, 0, 1]));
    let identity = Mat2x2::from_array([1i64, 0, 0, 1]);
    assert_eq!(m.mul(inv), identity);
    assert_eq!(inv.mul(m), identity);
    let n = Mat2x2::from_array([3i64, 5, 1, 2]);
    assert_eq!(n.determinant(), 1);
    assert_eq!(n.inverse(), Mat2x2::from_array([2, -5, -1, 3]));
    assert_eq!(n.mul(n.inverse()), identity);
}

#[test]
fn mat2_singular_inverse_returns_the_matrix_unchanged() {
    let m = Mat2x2::from_array([1i64, 2, 2, 4]);
    assert_eq!(m.determinant(), 0);
    assert_eq!(m.inverse(), m);
}

#[test]
fn mat2_vector_product() {
    let m = Mat2x2::from_array([1i64, 2, 3, 4]);
    let v = m.mul_v(Vec2 { x: 5i64, y: 6i64 });
    assert_eq!(v, Vec2 { x: 17, y: 39 });
}

#[test]
fn mat2_transpose_add_neg() {
    let m = Mat2x2::from_array([1i64, 2, 3, 4]);
    assert_eq!(m.transpose(), Mat2x2::from_array([1, 3, 2, 4]));
    assert_eq!(m.add(m), Mat2x2::from_array([2, 4, 6, 8]));
    assert_eq!(m.neg(), Mat2x2::from_array([-1, -2, -3, -4]));
    assert_eq!(m.mul_s(2), Mat2x2::from_array([2, 4, 6, 8]));
}

#[test]
fn mat3_determinant() {
    let m = Mat3x3::from_array([1i64, 2, 3, 4, 5, 6, 7, 8, 10]);
    assert_eq!(m.determinant(), -3);
}

#[test]
fn mat3_unimodular_inverse_is_exact() {
    let m = Mat3x3::from_array([1i64, 1, 0, 0, 1, 1, 0, 0, 1]);
    assert_eq!(m.determinant(), 1);
    let inv = m.inverse();
    assert_eq!(inv, Mat3x3::from_array([1, -1, 1, 0, 1, -1, 0, 0, 1]));
    let identity = Mat3x3::from_array([1i64, 0, 0, 0, 1, 0, 0, 0, 1]);
    assert_eq!(m.mul(inv), identity);
}

#[test]
fn mat3_singular_inverse_returns_the_matrix_unchanged() {
    let m = Mat3x3::from_array([1i64, 2, 3, 1, 2, 3, 4, 5, 6]);
    assert_eq!(m.determinant(), 0);
    assert_eq!(m.inverse(), m);
}

#[test]
fn mat4_determinant_of_a_diagonal() {
    let m = Mat4x4::from_array([1i64, 0, 0, 0, 0, 2, 0, 0, 0, 0, 3, 0, 0, 0, 0, 4]);
    assert_eq!(m.determinant(), 24);
}

#[test]
fn mat4_unimodular_inverse_is_exact() {
    let m = Mat4x4::from_array([1i64, 1, 0, 0, 0, 1, 0, 0, 0, 0, 1, 0, 0, 0, 0, 1]);
    assert_eq!(m.determinant(), 1);
    let inv = m.inverse();
    let expected = Mat4x4::from_array([1i64, -1, 0, 0, 0, 1, 0, 0, 0, 0, 1, 0, 0, 0, 0, 1]);
    assert_eq!(inv, expected);
    let identity = Mat4x4::from_array([1i64, 0, 0, 0, 0, 1, 0, 0, 0, 0, 1, 0, 0, 0, 0, 1]);
    assert_eq!(m.mul(inv), identity);
}

#[test]
fn mat4_scalar_forms() {
    let m = Mat4x4::from_array([2i64, 4, 6, 8, 10, 12, 14, 16, 18, 20, 22, 24, 26, 28, 30, 32]);
    let h = Mat4x4::from_array([1i64, 2, 3, 4, 5, 6, 7, 8, 9, 10, 11, 12, 13, 14, 15, 16]);
    assert_eq!(m.div_s(2), h);
    assert_eq!(h.mul_s(2), m);
}

#[test]
fn mat4_singular_inverse_returns_the_matrix_unchanged() {
    let m = Mat4x4::from_array([0i64; 16]);
    assert_eq!(m.determinant(), 0);
    assert_eq!(m.inverse(), m);
}

#[test]
fn quaternion_identity_rotation_leaves_vectors_unchanged() {
    let q = Quaternion { r: 1i64, i: 0, j: 0, k: 0 };
    let v = Vec3 { x: 17i64, y: -4, z: 9 };
    assert_eq!(q.mul_v(v), v);
}

#[test]
fn quaternion_half_turn_about_the_first_axis() {
    let q = Quaternion { r: 0i64, i: 1, j: 0, k: 0 };
    let v = Vec3 { x: 1i64, y: 2, z: 3 };
    assert_eq!(q.mul_v(v), Vec3 { x: 1, y: -2, z: -3 });
}

#[test]
fn quaternion_hamilton_table() {
    let qi = Quaternion { r: 0i64, i: 1, j: 0, k: 0 };
    let qj = Quaternion { r: 0i64, i: 0, j: 1, k: 0 };
    let qk = Quaternion { r: 0i64, i: 0, j: 0, k: 1 };
    assert_eq!(qi.mul(qj), qk);
    assert_eq!(qj.mul(qi), qk.neg());
    assert_eq!(qi.mul(qi), Quaternion { r: -1, i: 0, j: 0, k: 0 });
}

#[test]
fn quaternion_conj_and_norm_sqr() {
    let q = Quaternion { r: 1i64, i: 2, j: 3, k: 4 };
    assert_eq!(q.conj(), Quaternion { r: 1, i: -2, j: -3, k: -4 });
    assert_eq!(q.norm_sqr(), 30);
}

#[test]
fn quaternion_divided_by_itself_is_the_identity() {
    let q = Quaternion { r: 1i64, i: 1, j: 1, k: 1 };
    assert_eq!(q.div(q), Quaternion { r: 1, i: 0, j: 0, k: 0 });
}

#[test]
fn quaternion_mixed_forms() {
    let q = Quaternion { r: 1i64, i: 2, j: 3, k: 4 };
    assert_eq!(q.add_s(5), Quaternion { r: 6, i: 2, j: 3, k: 4 });
    let c = Complex { r: 1i64, i: 1 };
    assert_eq!(q.add_c(c), Quaternion { r: 2, i: 3, j: 3, k: 4 });
    assert!(Quaternion { r: 7i64, i: 0, j: 0, k: 0 }.eq_s(7));
    assert!(!q.eq_s(1));
    assert!(Quaternion { r: 1i64, i: 1, j: 0, k: 0 }.eq_c(c));
}

#[test]
fn multivector_basis_products() {
    let e1 = MultiVec2 { r: 0i64, x: 1, y: 0, xy: 0 };
    let e2 = MultiVec2 { r: 0i64, x: 0, y: 1, xy: 0 };
    let e12 = MultiVec2 { r: 0i64, x: 0, y: 0, xy: 1 };
    let one = MultiVec2 { r: 1i64, x: 0, y: 0, xy: 0 };
    // each basis vector squares to one, the pair anticommutes, and the
    // bivector squares to minus one
    assert_eq!(e1.mul(e1), one);
    assert_eq!(e2.mul(e2), one);
    assert_eq!(e1.mul(e2), e12);
    assert_eq!(e2.mul(e1), e12.neg());
    assert_eq!(e12.mul(e12), one.neg());
}

#[test]
fn multivector_sums() {
    let a = MultiVec2 { r: 1i64, x: 2, y: 3, xy: 4 };
    let b = MultiVec2 { r: 5i64, x: 6, y: 7, xy: 8 };
    assert_eq!(a.add(b), MultiVec2 { r: 6, x: 8, y: 10, xy: 12 });
    assert_eq!(b.sub(a), MultiVec2 { r: 4, x: 4, y: 4, xy: 4 });
}

#[test]
fn euler_componentwise() {
    let a = Euler { y: 1i64, p: 2, r: 3 };
    let b = Euler { y: 10i64, p: 20, r: 30 };
    assert_eq!(a.add(b), Euler { y: 11, p: 22, r: 33 });
    assert_eq!(b.sub(a), Euler { y: 9, p: 18, r: 27 });
    assert_eq!(a.mul_s(2), Euler { y: 2, p: 4, r: 6 });
    assert_eq!(a.neg(), Euler { y: -1, p: -2, r: -3 });
}

#[test]
fn vector_componentwise() {
    let a = Vec3 { x: 1i64, y: 2, z: 3 };
    let b = Vec3 { x: 4i64, y: 5, z: 6 };
    assert_eq!(a.add(b), Vec3 { x: 5, y: 7, z: 9 });
    assert_eq!(b.sub(a), Vec3 { x: 3, y: 3, z: 3 });
    assert_eq!(a.mul_s(2), Vec3 { x: 2, y: 4, z: 6 });
    assert_eq!(a.neg(), Vec3 { x: -1, y: -2, z: -3 });
}

#[test]
fn complex_inverse_of_a_unit() {
    let i_unit = Complex { r: 0i64, i: 1i64 };
    assert_eq!(i_unit.inv(), Complex { r: 0, i: -1 });
    let one = Complex { r: 1i64, i: 0i64 };
    assert_eq!(one.inv(), one);
}

#[test]
fn quaternion_inverse_of_a_unit() {
    let qi = Quaternion { r: 0i64, i: 1, j: 0, k: 0 };
    assert_eq!(qi.inverse(), Quaternion { r: 0, i: -1, j: 0, k: 0 });
    assert_eq!(qi.mul(qi.inverse()), Quaternion { r: 1, i: 0, j: 0, k: 0 });
}

#[test]
fn quaternion_times_complex() {
    let q = Quaternion { r: 1i64, i: 2, j: 3, k: 4 };
    let c = Complex { r: 5i64, i: 6 };
    assert_eq!(q.mul_c(c), Quaternion { r: -7, i: 16, j: 39, k: 2 });
}

#[test]
fn mat3_and_mat4_vector_products() {
    let m3 = Mat3x3::from_array([1i64, 0, 0, 0, 2, 0, 0, 0, 3]);
    let v3 = m3.mul_v(Vec3 { x: 1i64, y: 1, z: 1 });
    assert_eq!(v3, Vec3 { x: 1, y: 2, z: 3 });
    let m4 = Mat4x4::from_array([1i64, 0, 0, 0, 0, 1, 0, 0, 0, 0, 1, 0, 5, 6, 7, 1]);
    let v4 = m4.mul_v(algebra::Vec4 { x: 1i64, y: 2, z: 3, w: 1 });
    assert_eq!(v4, algebra::Vec4 { x: 1, y: 2, z: 3, w: 39 });
}

#[test]
fn vec2_componentwise() {
    let a = Vec2 { x: 1i64, y: 2i64 };
    let b = Vec2 { x: 3i64, y: 5i64 };
    assert_eq!(a.add(b), Vec2 { x: 4, y: 7 });
    assert_eq!(b.sub(a), Vec2 { x: 2, y: 3 });
    assert_eq!(a.mul_s(3), Vec2 { x: 3, y: 6 });
    assert_eq!(a.neg(), Vec2 { x: -1, y: -2 });
}

#[test]
fn quaternion_times_conjugate_is_real_norm() {
    let q = Quaternion { r: 1i64, i: 2, j: 3, k: 4 };
    assert_eq!(q.mul(q.conj()), Quaternion { r: 30, i: 0, j: 0, k: 0 });
    let big = Quaternion { r: i64::MAX, i: -3, j: 1 << 40, k: 7 };
    let p = big.mul(big.conj());
    assert_eq!(p.i, 0);
    assert_eq!(p.j, 0);
    assert_eq!(p.k, 0);
    assert_eq!(p.r, big.norm_sqr());
}

#[test]
fn multivector3_basis_products() {
    fn unit(which: usize) -> algebra::MultiVec3<i64> {
        let mut m = algebra::MultiVec3 { r: 0i64, x: 0, y: 0, z: 0, xy: 0, xz: 0, yz: 0, xyz: 0 };
        match which {
            0 => m.r = 1,
            1 => m.x = 1,
            2 => m.y = 1,
            3 => m.z = 1,
            4 => m.xy = 1,
            5 => m.xz = 1,
            6 => m.yz = 1,
            _ => m.xyz = 1,
        }
        m
    }
    let one = unit(0);
    // vectors square to one, bivectors and the trivector to minus one
    assert_eq!(unit(1).mul(unit(1)), one);
    assert_eq!(unit(3).mul(unit(3)), one);
    assert_eq!(unit(4).mul(unit(4)), one.neg());
    assert_eq!(unit(7).mul(unit(7)), one.neg());
    // the product table composes planes the way rotors demand
    assert_eq!(unit(1).mul(unit(2)), unit(4));
    assert_eq!(unit(2).mul(unit(1)), unit(4).neg());
    assert_eq!(unit(4).mul(unit(6)), unit(5));
    assert_eq!(unit(1).mul(unit(2)).mul(unit(3)), unit(7));
}

#[test]
fn multivector3_mixed_product() {
    let a = algebra::MultiVec3 { r: 1i64, x: 2, y: 0, z: 0, xy: 0, xz: 0, yz: 0, xyz: 0 };
    let b = algebra::MultiVec3 { r: 3i64, x: 0, y: 1, z: 0, xy: 0, xz: 0, yz: 0, xyz: 0 };
    let p = a.mul(b);
    assert_eq!(p, algebra::MultiVec3 { r: 3, x: 6, y: 1, z: 0, xy: 2, xz: 0, yz: 0, xyz: 0 });
}

#[test]
fn multivector4_basis_products() {
    fn zero() -> algebra::MultiVec4<i64> {
        algebra::MultiVec4 {
            r: 0i64, x: 0, y: 0, z: 0, w: 0,
            xy: 0, xz: 0, xw: 0, yz: 0, yw: 0, zw: 0,
            xyz: 0, xzw: 0, xyw: 0, yzw: 0, xyzw: 0,
        }
    }
    let mut one = zero();
    one.r = 1;
    let mut ex = zero();
    ex.x = 1;
    let mut ew = zero();
    ew.w = 1;
    let mut exw = zero();
    exw.xw = 1;
    let mut exy = zero();
    exy.xy = 1;
    let mut ezw = zero();
    ezw.zw = 1;
    let mut exyzw = zero();
    exyzw.xyzw = 1;
    assert_eq!(ex.mul(ex), one);
    assert_eq!(ex.mul(ew), exw);
    assert_eq!(ew.mul(ex), exw.neg());
    // disjoint planes multiply to the pseudoscalar, which squares to one
    assert_eq!(exy.mul(ezw), exyzw);
    assert_eq!(exyzw.mul(exyzw), one);
}
