use arm_ffa::{parse_console_log, ConsoleLogChars, FfaError};

#[test]
fn parse_console_log_32() {
    let chars = ConsoleLogChars::Reg32([
        u32::from_le_bytes(*b"Hell"),
        u32::from_le_bytes(*b"o\n\0\0"),
        0,
        0,
        0,
        0,
    ]);
    let mut bytes = [0xffu8; 30];
    assert_eq!(parse_console_log(6, &chars, &mut bytes), Ok(()));
    assert_eq!(&bytes[..6], b"Hello\n");
    assert_eq!(&bytes[6..24], &[0u8; 18]);
    // Bytes past the registers are left alone.
    assert_eq!(&bytes[24..], &[0xffu8; 6]);
}

#[test]
fn parse_console_log_64() {
    let chars = ConsoleLogChars::Reg64([0x4847464544434241; 16]);
    let mut bytes = [0u8; 128];
    assert_eq!(parse_console_log(128, &chars, &mut bytes), Ok(()));
    assert_eq!(&bytes[..8], b"ABCDEFGH");
    assert_eq!(&bytes[120..], b"ABCDEFGH");
}

#[test]
fn parse_console_log_rejects_bad_counts() {
    let chars32 = ConsoleLogChars::Reg32([1; 6]);
    let chars64 = ConsoleLogChars::Reg64([1; 16]);
    let mut bytes = [7u8; 4];
    // With an invalid count nothing is written, whatever the buffer's size.
    assert_eq!(parse_console_log(0, &chars32, &mut bytes), Err(FfaError::InvalidParameters));
    assert_eq!(parse_console_log(25, &chars32, &mut bytes), Err(FfaError::InvalidParameters));
    assert_eq!(parse_console_log(0, &chars64, &mut bytes), Err(FfaError::InvalidParameters));
    assert_eq!(parse_console_log(129, &chars64, &mut bytes), Err(FfaError::InvalidParameters));
    assert_eq!(bytes, [7u8; 4]);
}
