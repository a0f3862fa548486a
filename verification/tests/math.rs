use pq_core::math::ntt::{modpow, mul_rem, ntt, rem_i64};

#[test]
fn test_modpow_basic() {
    assert_eq!(modpow(2, 10, 1000), 24);
    assert_eq!(modpow(3, 0, 7), 1);
    assert_eq!(modpow(5, 3, 13), 8);
}

#[test]
fn test_ntt_power_of_two() {
    let mut poly = vec![1, 2, 3, 4];
    ntt(&mut poly, 17, 3329);
    assert_eq!(poly.len(), 4);
}

#[test]
fn modpow_of_negative_base_keeps_the_sign() {
    assert_eq!(modpow(-2, 3, 5), -3);
    assert_eq!(modpow(-2, 2, 5), 4);
    assert_eq!(modpow(-2147483648, 3, 2147483647), -1);
}

#[test]
fn modpow_with_large_operands_does_not_overflow() {
    assert_eq!(modpow(2147483647, 3, 2147483646), 1);
    assert_eq!(modpow(46341, 2, 2147483647), 4634);
    assert_eq!(modpow(7, u32::MAX, 13), 5);
    assert_eq!(modpow(0, 0, 2), 1);
    assert_eq!(modpow(0, 5, 2), 0);
}

#[test]
fn remainders_round_toward_zero() {
    assert_eq!(rem_i64(7, 5), 2);
    assert_eq!(rem_i64(-7, 5), -2);
    assert_eq!(rem_i64(0, 5), 0);
    assert_eq!(rem_i64(-10, 5), 0);
    assert_eq!(rem_i64(i64::MAX, 2), 1);
    assert_eq!(mul_rem(-3, 4, 5), -2);
    assert_eq!(mul_rem(i32::MIN, i32::MIN, 7), ((i32::MIN as i64 * i32::MIN as i64) % 7) as i32);
}

#[test]
fn ntt_known_values() {
    let mut poly = vec![1, 2, 3, 4];
    ntt(&mut poly, 17, 3329);
    assert_eq!(poly, vec![10, 3293, 3327, 32]);
    let mut poly = vec![1, 2, 3, 4, 5, 6, 7, 8];
    ntt(&mut poly, 4, 17);
    assert_eq!(poly, vec![2, 0, 0, 7, 13, 0, 9, 11]);
}

#[test]
fn ntt_on_a_slice_of_a_longer_buffer() {
    let mut buffer = [9, 1, 2, 3, 4, 9];
    ntt(&mut buffer[1..5], 17, 3329);
    assert_eq!(buffer, [9, 10, 3293, 3327, 32, 9]);
}

#[test]
fn ntt_edge_cases() {
    let mut one = vec![5];
    ntt(&mut one, 3, 7);
    assert_eq!(one, vec![5]);
    let mut two = vec![1, 1];
    ntt(&mut two, 1, 5);
    assert_eq!(two, vec![2, 0]);
    let mut negative = vec![-7, 3];
    ntt(&mut negative, 2, 5);
    assert_eq!(negative, vec![-4, 0]);
    let mut extreme = vec![2147483647, -2147483648];
    ntt(&mut extreme, 2147483647, 2147483647);
    assert_eq!(extreme, vec![2147483646, 1]);
}
