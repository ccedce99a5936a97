use arm_ffa::console::{
    console_log_messages, encode_chunk_u32, encode_chunk_u64, initialize_with_call_ffa, CallFfa,
    Console,
};
use arm_ffa::{ConsoleLogChars, Error, Interface, Version, CONSOLE_LOG_64_MAX_CHAR_CNT};
use std::sync::RwLock;
use std::vec::Vec;

#[derive(Debug, Default)]
struct CallFfaTest(RwLock<Vec<Interface>>);

impl CallFfa for CallFfaTest {
    fn call_ffa(&self, _version: Version, interface: &Interface) -> Result<(), Error> {
        self.0.write().unwrap().push(interface.clone());
        Ok(())
    }
}

struct CallFfaFailing(RwLock<Vec<Interface>>);

impl CallFfa for CallFfaFailing {
    fn call_ffa(&self, _version: Version, interface: &Interface) -> Result<(), Error> {
        self.0.write().unwrap().push(interface.clone());
        Err(Error::UnrecognisedFunctionId(0))
    }
}

#[test]
fn test_console_initialization() {
    let version = Version(1, 1);
    static CALL_FFA_TEST: CallFfaTest = CallFfaTest(RwLock::new(Vec::new()));
    let mut console: Option<Console<CallFfaTest>> = None;

    // Test successful initialization
    assert!(initialize_with_call_ffa(&mut console, version, &CALL_FFA_TEST).is_ok());

    // Test double initialization
    assert!(matches!(
        initialize_with_call_ffa(&mut console, version, &CALL_FFA_TEST),
        Err(Error::ConsoleAlreadyInitialized)
    ));
}

#[test]
fn test_console_32bit_logging() {
    let version = Version(1, 1);
    static CALL_FFA_TEST: CallFfaTest = CallFfaTest(RwLock::new(Vec::new()));
    let mut console = Console::new(version, &CALL_FFA_TEST);

    // Initialize console
    // Write a short message that should use 32-bit logging
    console.write_str("Hello\n").unwrap();

    let calls = CALL_FFA_TEST.0.read().unwrap().clone();
    assert_eq!(calls.len(), 1);

    let interface = &calls[0];

    if let Interface::ConsoleLog {
        char_cnt,
        char_lists,
    } = interface
    {
        assert_eq!(char_cnt, &6);
        if let ConsoleLogChars::Reg32(regs) = char_lists {
            assert_eq!(regs[0], u32::from_le_bytes(*b"Hell"));
            assert_eq!(regs[1], u32::from_le_bytes(*b"o\n\0\0"));
            assert_eq!(regs[2], 0);
            assert_eq!(regs[3], 0);
            assert_eq!(regs[4], 0);
            assert_eq!(regs[5], 0);
        } else {
            panic!("Expected 32-bit console log");
        }
    } else {
        panic!("Expected console log interface");
    }
}

#[test]
fn test_console_64bit_logging() {
    let version = Version(1, 2);
    static CALL_FFA_TEST: CallFfaTest = CallFfaTest(RwLock::new(Vec::new()));
    let mut console = Console::new(version, &CALL_FFA_TEST);

    // Write a long message that should use 64-bit logging
    let long_msg = "A".repeat(CONSOLE_LOG_64_MAX_CHAR_CNT as usize + 1);
    console.write_str(&long_msg).unwrap();
    console.flush().unwrap();

    let calls = CALL_FFA_TEST.0.read().unwrap().clone();
    assert_eq!(calls.len(), 2);
    assert_eq!(
        calls[0],
        Interface::ConsoleLog {
            char_cnt: 128,
            char_lists: ConsoleLogChars::Reg64([0x4141414141414141; 16]),
        }
    );
    assert_eq!(
        calls[1],
        Interface::ConsoleLog {
            char_cnt: 1,
            char_lists: ConsoleLogChars::Reg32([0x00000041, 0, 0, 0, 0, 0]),
        }
    );
}

#[test]
fn test_console_buffer_flushing() {
    let version = Version(1, 1);
    static CALL_FFA_TEST: CallFfaTest = CallFfaTest(RwLock::new(Vec::new()));
    let mut console = Console::new(version, &CALL_FFA_TEST);

    // Each newline should flush the buffer, triggering an ffa call
    console.write_str("Hello\nWorld\n").unwrap();

    let calls = CALL_FFA_TEST.0.read().unwrap().clone();
    assert_eq!(calls.len(), 2);
    assert_eq!(
        calls[0],
        Interface::ConsoleLog {
            char_cnt: 6,
            char_lists: ConsoleLogChars::Reg32([
                u32::from_le_bytes(*b"Hell"),
                u32::from_le_bytes(*b"o\n\0\0"),
                0,
                0,
                0,
                0,
            ]),
        }
    );
    assert_eq!(
        calls[1],
        Interface::ConsoleLog {
            char_cnt: 6,
            char_lists: ConsoleLogChars::Reg32([
                u32::from_le_bytes(*b"Worl"),
                u32::from_le_bytes(*b"d\n\0\0"),
                0,
                0,
                0,
                0,
            ]),
        }
    );
}

#[test]
fn console_without_newline_keeps_text_until_flush() {
    static CALL_FFA_TEST: CallFfaTest = CallFfaTest(RwLock::new(Vec::new()));
    let mut console = Console::new(Version(1, 1), &CALL_FFA_TEST);
    console.write_str("abc").unwrap();
    assert_eq!(CALL_FFA_TEST.0.read().unwrap().len(), 0);
    console.flush().unwrap();
    let calls = CALL_FFA_TEST.0.read().unwrap().clone();
    assert_eq!(
        calls,
        vec![Interface::ConsoleLog {
            char_cnt: 3,
            char_lists: ConsoleLogChars::Reg32([u32::from_le_bytes(*b"abc\0"), 0, 0, 0, 0, 0]),
        }]
    );
    // A second flush with an empty buffer sends nothing.
    console.flush().unwrap();
    assert_eq!(CALL_FFA_TEST.0.read().unwrap().len(), 1);
}

#[test]
fn console_full_buffer_is_flushed_before_next_byte() {
    static CALL_FFA_TEST: CallFfaTest = CallFfaTest(RwLock::new(Vec::new()));
    let mut console = Console::new(Version(1, 2), &CALL_FFA_TEST);
    // 512 bytes fill the buffer; the 513th byte flushes it first (4 messages of 128).
    let text = "B".repeat(513);
    console.write_str(&text).unwrap();
    let calls = CALL_FFA_TEST.0.read().unwrap().clone();
    assert_eq!(calls.len(), 4);
    for call in &calls {
        assert_eq!(
            call,
            &Interface::ConsoleLog {
                char_cnt: 128,
                char_lists: ConsoleLogChars::Reg64([0x4242424242424242; 16]),
            }
        );
    }
    console.flush().unwrap();
    let calls = CALL_FFA_TEST.0.read().unwrap().clone();
    assert_eq!(calls.len(), 5);
    assert_eq!(
        calls[4],
        Interface::ConsoleLog {
            char_cnt: 1,
            char_lists: ConsoleLogChars::Reg32([0x42, 0, 0, 0, 0, 0]),
        }
    );
}

#[test]
fn console_failed_call_stops_writing_and_empties_buffer() {
    static CALL_FFA_FAIL: CallFfaFailing = CallFfaFailing(RwLock::new(Vec::new()));
    let mut console = Console::new(Version(1, 1), &CALL_FFA_FAIL);
    let r = console.write_str("one\ntwo\n");
    assert_eq!(r, Err(Error::UnrecognisedFunctionId(0)));
    // Only the first line was handed over; the second was never written.
    assert_eq!(CALL_FFA_FAIL.0.read().unwrap().len(), 1);
    // The buffer is empty: a flush sends nothing.
    assert_eq!(console.flush(), Ok(()));
    assert_eq!(CALL_FFA_FAIL.0.read().unwrap().len(), 1);
}

#[test]
fn encode_chunks_pad_with_zeros() {
    assert_eq!(encode_chunk_u32(b"Hell"), u32::from_le_bytes(*b"Hell"));
    assert_eq!(encode_chunk_u32(b"o\n"), u32::from_le_bytes(*b"o\n\0\0"));
    assert_eq!(encode_chunk_u32(b""), 0);
    assert_eq!(encode_chunk_u32(b"abcdef"), u32::from_le_bytes(*b"abcd"));
    assert_eq!(encode_chunk_u64(b"AAAAAAAA"), 0x4141414141414141);
    assert_eq!(encode_chunk_u64(b"A"), 0x41);
    assert_eq!(encode_chunk_u64(b"123456789"), u64::from_le_bytes(*b"12345678"));
}

#[test]
fn console_log_messages_split_long_text() {
    let text = vec![b'x'; 300];
    let msgs = console_log_messages(&text);
    assert_eq!(msgs.len(), 3);
    assert!(matches!(
        msgs[0],
        Interface::ConsoleLog { char_cnt: 128, char_lists: ConsoleLogChars::Reg64(_) }
    ));
    assert!(matches!(
        msgs[1],
        Interface::ConsoleLog { char_cnt: 128, char_lists: ConsoleLogChars::Reg64(_) }
    ));
    // 44 characters are left: more than 24, so 64-bit registers again.
    assert!(matches!(
        msgs[2],
        Interface::ConsoleLog { char_cnt: 44, char_lists: ConsoleLogChars::Reg64(_) }
    ));
    assert!(console_log_messages(&[]).is_empty());
}

#[test]
fn console_log_messages_carry_the_text() {
    // Law: the characters carried by the messages are the text, in order.
    let text: Vec<u8> = (0u8..200).collect();
    let msgs = console_log_messages(&text);
    let mut out = Vec::new();
    for m in &msgs {
        if let Interface::ConsoleLog { char_cnt, char_lists } = m {
            let mut buf = [0u8; 128];
            arm_ffa::parse_console_log(*char_cnt, char_lists, &mut buf).unwrap();
            out.extend_from_slice(&buf[..*char_cnt as usize]);
        }
    }
    assert_eq!(out, text);
}

#[test]
fn console_sends_exactly_the_text_written() {
    static CALL_FFA_TEST: CallFfaTest = CallFfaTest(RwLock::new(Vec::new()));
    let mut console = Console::new(Version(1, 2), &CALL_FFA_TEST);
    let mut text = String::new();
    for k in 0..40 {
        text.push_str(&"z".repeat(k * 7));
        text.push('\n');
    }
    text.push_str("tail without newline");
    console.write_str(&text).unwrap();
    console.flush().unwrap();
    let mut out = Vec::new();
    for m in CALL_FFA_TEST.0.read().unwrap().iter() {
        if let Interface::ConsoleLog { char_cnt, char_lists } = m {
            let mut buf = [0u8; 128];
            arm_ffa::parse_console_log(*char_cnt, char_lists, &mut buf).unwrap();
            out.extend_from_slice(&buf[..*char_cnt as usize]);
        } else {
            panic!("Expected console log interface");
        }
    }
    assert_eq!(out, text.as_bytes());
}

struct CallFfaFailSecond(RwLock<Vec<Interface>>);

impl CallFfa for CallFfaFailSecond {
    fn call_ffa(&self, _version: Version, interface: &Interface) -> Result<(), Error> {
        let mut calls = self.0.write().unwrap();
        calls.push(interface.clone());
        if calls.len() == 2 {
            Err(Error::InvalidVersion(2))
        } else {
            Ok(())
        }
    }
}

#[test]
fn flush_stops_at_the_failing_call_and_returns_its_error() {
    static CALL_FFA_FAIL2: CallFfaFailSecond = CallFfaFailSecond(RwLock::new(Vec::new()));
    let mut console = Console::new(Version(1, 2), &CALL_FFA_FAIL2);
    // 300 characters take three messages; the second call fails.
    console.write_str(&"q".repeat(300)).unwrap();
    assert_eq!(console.flush(), Err(Error::InvalidVersion(2)));
    assert_eq!(CALL_FFA_FAIL2.0.read().unwrap().len(), 2);
    // The unsent rest was dropped.
    assert_eq!(console.flush(), Ok(()));
    assert_eq!(CALL_FFA_FAIL2.0.read().unwrap().len(), 2);
}

#[test]
fn second_initialization_keeps_the_console() {
    static CALL_FFA_TEST: CallFfaTest = CallFfaTest(RwLock::new(Vec::new()));
    let mut slot: Option<Console<CallFfaTest>> = None;
    assert_eq!(initialize_with_call_ffa(&mut slot, Version(1, 1), &CALL_FFA_TEST), Ok(()));
    slot.as_mut().unwrap().write_str("ab").unwrap();
    assert_eq!(
        initialize_with_call_ffa(&mut slot, Version(1, 2), &CALL_FFA_TEST),
        Err(Error::ConsoleAlreadyInitialized)
    );
    // The pending text of the first console is still there.
    slot.as_mut().unwrap().flush().unwrap();
    assert_eq!(
        CALL_FFA_TEST.0.read().unwrap().clone(),
        vec![Interface::ConsoleLog {
            char_cnt: 2,
            char_lists: ConsoleLogChars::Reg32([u32::from_le_bytes(*b"ab\0\0"), 0, 0, 0, 0, 0]),
        }]
    );
}

struct CallFfaVersions(RwLock<Vec<Version>>);

impl CallFfa for CallFfaVersions {
    fn call_ffa(&self, version: Version, _interface: &Interface) -> Result<(), Error> {
        self.0.write().unwrap().push(version);
        Ok(())
    }
}

#[test]
fn console_calls_use_its_version() {
    static CALL_FFA_VERSIONS: CallFfaVersions = CallFfaVersions(RwLock::new(Vec::new()));
    let mut console = Console::new(Version(1, 3), &CALL_FFA_VERSIONS);
    console.write_str(&"v".repeat(200)).unwrap();
    console.write_str("\nend\n").unwrap();
    let versions = CALL_FFA_VERSIONS.0.read().unwrap().clone();
    assert_eq!(versions.len(), 3);
    assert!(versions.iter().all(|v| *v == Version(1, 3)));
}
