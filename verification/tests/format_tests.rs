use win_api_trace::fmt::{bool_result, hresult_result, hresult_succeeded, i32_to_dec, u64_to_dec, u64_to_dec_padded, u64_to_hex};
use win_api_trace::pid::{validate_pid, PidError};
use win_api_trace::time_format::format_timestamp_ms;

#[test]
fn decimal_rendering() {
    assert_eq!(u64_to_dec(0), "0");
    assert_eq!(u64_to_dec(7), "7");
    assert_eq!(u64_to_dec(12345), "12345");
    assert_eq!(u64_to_dec(u64::MAX), "18446744073709551615");
    assert_eq!(i32_to_dec(-5), "-5");
    assert_eq!(i32_to_dec(0), "0");
    assert_eq!(i32_to_dec(i32::MIN), "-2147483648");
}

#[test]
fn hex_and_padded_rendering() {
    assert_eq!(u64_to_hex(0xDEADBEEF, 8), "DEADBEEF");
    assert_eq!(u64_to_hex(0x1A, 8), "0000001A");
    assert_eq!(u64_to_dec_padded(7, 2), "07");
    assert_eq!(u64_to_dec_padded(123, 3), "123");
}

#[test]
fn system_result_rendering() {
    assert_eq!(bool_result(0), "FALSE");
    assert_eq!(bool_result(1), "TRUE");
    assert_eq!(bool_result(-1), "TRUE");
    assert_eq!(hresult_result(0), "HRESULT=0x00000000");
    assert_eq!(hresult_result(-2147024882), "HRESULT=0x8007000E");
    assert!(hresult_succeeded(0));
    assert!(hresult_succeeded(1));
    assert!(!hresult_succeeded(-1));
}

#[test]
fn timestamps_render_as_wall_clock_text() {
    assert_eq!(format_timestamp_ms(0), "00:00:00.000");
    assert_eq!(format_timestamp_ms(12_100), "00:00:12.100");
    assert_eq!(format_timestamp_ms(3_661_001), "01:01:01.001");
    // the hour wraps at one day
    assert_eq!(format_timestamp_ms(90_000_000), "01:00:00.000");
    assert_eq!(format_timestamp_ms(86_399_999), "23:59:59.999");
}

#[test]
fn pid_validation() {
    assert_eq!(validate_pid(""), Err(PidError::Empty));
    assert_eq!(validate_pid("   "), Err(PidError::Empty));
    assert_eq!(validate_pid("0"), Err(PidError::Zero));
    assert_eq!(validate_pid(" 42 "), Ok(42));
    assert_eq!(validate_pid("+7"), Ok(7));
    assert_eq!(validate_pid("abc"), Err(PidError::NotANumber));
    assert_eq!(validate_pid("12x"), Err(PidError::NotANumber));
    assert_eq!(validate_pid("+"), Err(PidError::NotANumber));
    assert_eq!(validate_pid("4294967295"), Ok(u32::MAX));
    assert_eq!(validate_pid("4294967296"), Err(PidError::NotANumber));
    assert_eq!(validate_pid("99999999999999999999"), Err(PidError::NotANumber));
}

#[test]
fn pid_rejection_messages() {
    assert_eq!(PidError::Empty.message(), "Enter a PID to enable attach.");
    assert_eq!(PidError::Zero.message(), "PID must be greater than 0.");
    assert_eq!(PidError::NotANumber.message(), "PID must be a valid number.");
}
