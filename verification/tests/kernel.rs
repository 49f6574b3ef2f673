use vector_kernel::kernel::{FaultAction, CAPACITY};
use vector_kernel::BufferPool;

fn fill_a(pool: &mut BufferPool, values: &[f64]) {
    let mut i: usize = 0;
    while i < values.len() {
        pool.store_a(i, values[i].to_bits());
        i += 1;
    }
}

fn fill_b(pool: &mut BufferPool, values: &[f64]) {
    let mut i: usize = 0;
    while i < values.len() {
        pool.store_b(i, values[i].to_bits());
        i += 1;
    }
}

fn pool_of_four() -> BufferPool {
    let mut pool = BufferPool::with_capacity(4);
    fill_a(&mut pool, &[1.0, 2.0, 3.0, 4.0]);
    fill_b(&mut pool, &[10.0, 20.0, 30.0, 40.0]);
    pool
}

#[test]
fn sum_of_four() {
    let pool = pool_of_four();
    assert_eq!(pool.sum(4), 10.0f64.to_bits());
}

#[test]
fn dot_of_four() {
    let pool = pool_of_four();
    assert_eq!(pool.dot(4), 300.0f64.to_bits());
}

#[test]
fn mul_of_four() {
    let mut pool = pool_of_four();
    pool.mul(4);
    let expected = [10.0f64, 40.0, 90.0, 160.0];
    for i in 0..4 {
        assert_eq!(pool.load_result(i), expected[i].to_bits());
    }
}

#[test]
fn scale_of_four() {
    let mut pool = pool_of_four();
    pool.scale(2.0f64.to_bits(), 4);
    let expected = [2.0f64, 4.0, 6.0, 8.0];
    for i in 0..4 {
        assert_eq!(pool.load_a(i), expected[i].to_bits());
    }
}

#[test]
fn sum_simd_of_four() {
    let pool = pool_of_four();
    assert_eq!(f64::from_bits(pool.sum_simd(4)), 10.0);
}

#[test]
fn sum_is_left_to_right() {
    let mut pool = BufferPool::with_capacity(3);
    fill_a(&mut pool, &[1.0e16, 1.0, 1.0]);
    // (1e16 + 1) rounds back to 1e16, and so does the next step; any other
    // association would give 1e16 + 2 instead.
    assert_eq!(pool.sum(3), 1.0e16f64.to_bits());
}

#[test]
fn dot_is_left_to_right() {
    let mut pool = BufferPool::with_capacity(3);
    fill_a(&mut pool, &[1.0e16, 1.0, 1.0]);
    fill_b(&mut pool, &[1.0, 1.0, 1.0]);
    assert_eq!(pool.dot(3), 1.0e16f64.to_bits());
}

#[test]
fn mul_leaves_tail_stale() {
    let mut pool = BufferPool::with_capacity(6);
    fill_a(&mut pool, &[1.0, 2.0, 3.0, 4.0, 5.0, 6.0]);
    fill_b(&mut pool, &[2.0, 2.0, 2.0, 2.0, 2.0, 2.0]);
    pool.mul(6);
    // Overwrite the operands, then recompute only a prefix: the tail of
    // RESULT must keep the products of the earlier call.
    fill_a(&mut pool, &[7.0, 7.0, 7.0, 7.0, 7.0, 7.0]);
    pool.mul(2);
    assert_eq!(pool.load_result(0), 14.0f64.to_bits());
    assert_eq!(pool.load_result(1), 14.0f64.to_bits());
    let stale = [6.0f64, 8.0, 10.0, 12.0];
    for i in 0..4 {
        assert_eq!(pool.load_result(2 + i), stale[i].to_bits());
    }
}

#[test]
fn scale_leaves_tail_unchanged() {
    let mut pool = BufferPool::with_capacity(6);
    fill_a(&mut pool, &[1.0, 2.0, 3.0, 4.0, 5.0, 6.0]);
    pool.scale(3.0f64.to_bits(), 2);
    let expected = [3.0f64, 6.0, 3.0, 4.0, 5.0, 6.0];
    for i in 0..6 {
        assert_eq!(pool.load_a(i), expected[i].to_bits());
    }
    // B and RESULT are untouched by scale.
    for i in 0..6 {
        assert_eq!(pool.load_b(i), 0u64);
        assert_eq!(pool.load_result(i), 0u64);
    }
}

#[test]
fn zero_length_returns_zero_scalars() {
    let pool = pool_of_four();
    assert_eq!(f64::from_bits(pool.sum(0)), 0.0);
    assert_eq!(f64::from_bits(pool.dot(0)), 0.0);
    assert_eq!(f64::from_bits(pool.sum_simd(0)), 0.0);
}

#[test]
fn zero_length_leaves_buffers_unchanged() {
    let mut pool = pool_of_four();
    pool.mul(0);
    pool.scale(5.0f64.to_bits(), 0);
    let a = [1.0f64, 2.0, 3.0, 4.0];
    let b = [10.0f64, 20.0, 30.0, 40.0];
    for i in 0..4 {
        assert_eq!(pool.load_a(i), a[i].to_bits());
        assert_eq!(pool.load_b(i), b[i].to_bits());
        assert_eq!(pool.load_result(i), 0u64);
    }
}

#[test]
fn length_beyond_capacity_is_clamped() {
    let mut clamped = pool_of_four();
    let mut exact = pool_of_four();
    assert_eq!(clamped.sum(1000), exact.sum(4));
    assert_eq!(clamped.dot(1000), exact.dot(4));
    assert_eq!(clamped.sum_simd(1000), exact.sum_simd(4));
    clamped.mul(1000);
    exact.mul(4);
    for i in 0..4 {
        assert_eq!(clamped.load_result(i), exact.load_result(i));
    }
    clamped.scale(2.0f64.to_bits(), 1000);
    exact.scale(2.0f64.to_bits(), 4);
    for i in 0..4 {
        assert_eq!(clamped.load_a(i), exact.load_a(i));
    }
}

#[test]
fn capacity_is_one_hundred_thousand() {
    let pool = BufferPool::new();
    assert_eq!(pool.get_capacity(), 100_000);
    assert_eq!(pool.get_capacity(), CAPACITY);
}

#[test]
fn offsets_are_distinct_and_stable() {
    let pool = BufferPool::new();
    let a = pool.get_buffer_a_offset();
    let b = pool.get_buffer_b_offset();
    let r = pool.get_result_offset();
    assert_ne!(a, b);
    assert_ne!(a, r);
    assert_ne!(b, r);
    assert_eq!(pool.get_buffer_a_offset(), a);
    assert_eq!(pool.get_buffer_b_offset(), b);
    assert_eq!(pool.get_result_offset(), r);
}

#[test]
fn new_pool_is_all_zero() {
    let pool = BufferPool::new();
    assert_eq!(pool.load_a(0), 0u64);
    assert_eq!(pool.load_b(50_000), 0u64);
    assert_eq!(pool.load_result(99_999), 0u64);
}

#[test]
fn store_then_load_roundtrip() {
    let mut pool = BufferPool::new();
    pool.store_a(7, 1.5f64.to_bits());
    pool.store_b(7, (-2.25f64).to_bits());
    assert_eq!(f64::from_bits(pool.load_a(7)), 1.5);
    assert_eq!(f64::from_bits(pool.load_b(7)), -2.25);
}

#[test]
fn sum_simd_matches_documented_grouping() {
    let values = [1.0e16f64, 1.0, 2.0, 3.0, 1.0, 1.0, 5.0];
    let mut pool = BufferPool::with_capacity(7);
    fill_a(&mut pool, &values);
    // Four lane totals over the one complete group, remainder folded into
    // the first lane, then combined left to right.
    let s0 = ((values[0] + values[4]) + values[5]) + values[6];
    let s1 = values[1];
    let s2 = values[2];
    let s3 = values[3];
    let expected = ((s0 + s1) + s2) + s3;
    assert_eq!(pool.sum_simd(7), expected.to_bits());
}

#[test]
fn sum_simd_is_close_to_sum() {
    let mut pool = BufferPool::with_capacity(100);
    let mut values = [0.0f64; 100];
    for i in 0..100 {
        values[i] = 0.1 * (i as f64 + 1.0);
    }
    fill_a(&mut pool, &values);
    for n in [1u32, 2, 3, 4, 5, 7, 8, 31, 100] {
        let plain = f64::from_bits(pool.sum(n));
        let unrolled = f64::from_bits(pool.sum_simd(n));
        assert!((plain - unrolled).abs() <= 1.0e-9 * plain.abs().max(1.0));
    }
}

#[test]
fn sum_full_capacity() {
    let mut pool = BufferPool::new();
    for i in 0..100_000 {
        pool.store_a(i, 1.0f64.to_bits());
    }
    // 100000 is far below 2^53, so both accumulation orders are exact here.
    assert_eq!(f64::from_bits(pool.sum(100_000)), 100_000.0);
    assert_eq!(f64::from_bits(pool.sum_simd(100_000)), 100_000.0);
    assert_eq!(f64::from_bits(pool.sum(u32::MAX)), 100_000.0);
}

#[test]
fn fault_response_is_halt() {
    assert!(matches!(vector_kernel::kernel::panic(), FaultAction::Halt));
}
