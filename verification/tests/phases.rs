use benchmark::array_phase::array_phase_sum;
use benchmark::array_phase::fill_buffer;
use benchmark::array_phase::sum_buffer;
use benchmark::math_phase::math_step;
use benchmark::text_phase::build_text;

#[test]
fn array_sum_of_full_size_buffer() {
    assert_eq!(array_phase_sum(1_000_000), 499_999_500_000u64);
}

#[test]
fn array_sum_small_sizes() {
    assert_eq!(array_phase_sum(0), 0);
    assert_eq!(array_phase_sum(1), 0);
    assert_eq!(array_phase_sum(2), 1);
    assert_eq!(array_phase_sum(10), 45);
}

#[test]
fn fill_buffer_is_ascending() {
    let buf = fill_buffer(1000);
    assert_eq!(buf.len(), 1000);
    assert_eq!(buf[0], 0);
    assert_eq!(buf[1], 1);
    assert_eq!(buf[999], 999);
}

#[test]
fn sum_buffer_adds_arbitrary_values() {
    let buf = vec![5u32, 7, 11];
    assert_eq!(sum_buffer(&buf), 23);
    let empty: Vec<u32> = Vec::new();
    assert_eq!(sum_buffer(&empty), 0);
    let big = vec![u32::MAX, u32::MAX];
    assert_eq!(sum_buffer(&big), 2 * (u32::MAX as u64));
}

#[test]
fn array_sum_is_deterministic() {
    assert_eq!(array_phase_sum(1_000), array_phase_sum(1_000));
}

#[test]
fn text_has_exact_length_and_fill() {
    let s = build_text(100_000);
    assert_eq!(s.len(), 100_000);
    assert!(s.chars().all(|c| c == 'a'));
}

#[test]
fn text_empty_count() {
    let s = build_text(0);
    assert_eq!(s.len(), 0);
    assert_eq!(s, "");
}

#[test]
fn text_is_deterministic() {
    assert_eq!(build_text(500), build_text(500));
}

#[test]
fn math_step_cycles_and_reduces() {
    assert_eq!(math_step(0), (0, true));
    assert_eq!(math_step(1), (1, false));
    assert_eq!(math_step(999), (999, false));
    assert_eq!(math_step(1000), (0, true));
    assert_eq!(math_step(123_456), (456, false));
    assert_eq!(math_step(9_999_999), (999, false));
}
