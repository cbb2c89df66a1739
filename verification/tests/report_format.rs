use benchmark::report::array_line;
use benchmark::report::banner_line;
use benchmark::report::format_millis;
use benchmark::report::math_line;
use benchmark::report::report_lines;
use benchmark::report::string_line;
use benchmark::report::total_line;
use benchmark::report::total_micros;
use benchmark::report::u64_to_decimal;

#[test]
fn decimal_digits() {
    assert_eq!(u64_to_decimal(0), "0");
    assert_eq!(u64_to_decimal(7), "7");
    assert_eq!(u64_to_decimal(10), "10");
    assert_eq!(u64_to_decimal(1_234_567_890), "1234567890");
    assert_eq!(u64_to_decimal(u64::MAX), "18446744073709551615");
}

#[test]
fn millis_rounding_half_up() {
    assert_eq!(format_millis(0), "0.00");
    assert_eq!(format_millis(4), "0.00");
    assert_eq!(format_millis(5), "0.01");
    assert_eq!(format_millis(250), "0.25");
    assert_eq!(format_millis(994), "0.99");
    assert_eq!(format_millis(999), "1.00");
    assert_eq!(format_millis(1_000), "1.00");
    assert_eq!(format_millis(12_345), "12.35");
    assert_eq!(format_millis(999_995), "1000.00");
}

#[test]
fn banner_text() {
    assert_eq!(banner_line(), "Rust Benchmark");
}

#[test]
fn phase_lines_format() {
    assert_eq!(array_line(12_345), "Array operations: 12.35 ms");
    assert_eq!(string_line(90), "String operations: 0.09 ms");
    assert_eq!(math_line(2_000_000), "Math operations: 2000.00 ms");
}

#[test]
fn total_is_exact_sum() {
    assert_eq!(total_micros(1, 2, 3), Some(6));
    assert_eq!(total_micros(u64::MAX, 1, 0), None);
    assert_eq!(total_micros(u64::MAX, 0, 0), Some(u64::MAX));
    assert_eq!(
        total_line(1_000, 2_000, 3_000),
        "Total execution time: 6.00 ms"
    );
}

#[test]
fn report_has_five_lines_in_order() {
    let lines = report_lines(12_345, 90, 2_000_000);
    assert_eq!(lines.len(), 5);
    assert_eq!(lines[0], "Rust Benchmark");
    assert_eq!(lines[1], "Array operations: 12.35 ms");
    assert_eq!(lines[2], "String operations: 0.09 ms");
    assert_eq!(lines[3], "Math operations: 2000.00 ms");
    assert_eq!(lines[4], "Total execution time: 2012.44 ms");
}
