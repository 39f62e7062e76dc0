use voteperfx::{batch_contains_slot, simd_min_latency, simd_sum_u64};

#[test]
fn batch_contains_marks_each_target() {
    let slots = [10u64, 20, 30, 40, 50];
    let targets = [20u64, 25, 50, 10, 60, 30];
    assert_eq!(
        batch_contains_slot(&slots, &targets),
        vec![true, false, true, true, false, true]
    );
    assert_eq!(batch_contains_slot(&[], &[1, 2]), vec![false, false]);
    assert_eq!(batch_contains_slot(&slots, &[]), Vec::<bool>::new());
}

#[test]
fn sum_of_values() {
    assert_eq!(simd_sum_u64(&[]), 0);
    assert_eq!(simd_sum_u64(&[1, 2, 3, 4, 5, 6, 7]), 28);
    assert_eq!(simd_sum_u64(&[u64::MAX]), u64::MAX);
}

#[test]
fn min_latency_of_values() {
    assert_eq!(simd_min_latency(&[]), None);
    assert_eq!(simd_min_latency(&[5, 3, 9, 3, 7]), Some(3));
    assert_eq!(simd_min_latency(&[42]), Some(42));
}
