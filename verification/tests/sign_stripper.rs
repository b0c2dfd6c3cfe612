use rust_audio_lib::sign::double_abs;
use rust_audio_lib::sign::get_abs;

#[test]
fn test_get_abs() {
    assert_eq!(get_abs(0), 0);
    assert_eq!(get_abs(10), 10);
    assert_eq!(get_abs(-10), 10);
}

#[test]
fn test_get_abs_extremes() {
    // The largest magnitudes with a representable absolute value.
    assert_eq!(get_abs(i32::MAX), i32::MAX);
    assert_eq!(get_abs(-i32::MAX), i32::MAX);
    assert_eq!(get_abs(i32::MIN + 1), i32::MAX);
}

#[test]
fn test_double_abs() {
    assert_eq!(double_abs(0), 0);
    assert_eq!(double_abs(-5), 10);
    assert_eq!(double_abs(10), 20);
}

#[test]
fn test_double_abs_boundary() {
    // The largest magnitude whose double still fits.
    assert_eq!(double_abs(0x3fff_ffff), 0x7fff_fffe);
    assert_eq!(double_abs(-0x3fff_ffff), 0x7fff_fffe);
}
