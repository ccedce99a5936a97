//! The "tightly packed list of characters" of the `FFA_CONSOLE_LOG` interface.
use crate::args::ConsoleLogChars;
use crate::error::FfaError;
use vstd::prelude::*;

verus! {

/// Maximum number of characters transmitted in a single `FFA_CONSOLE_LOG32` message.
pub const CONSOLE_LOG_32_MAX_CHAR_CNT: u8 = 24;

/// Maximum number of characters transmitted in a single `FFA_CONSOLE_LOG64` message.
pub const CONSOLE_LOG_64_MAX_CHAR_CNT: u8 = 128;

/// Byte `j` (0 to 3, least significant first) of a 32-bit register.
pub open spec fn byte_of_u32(w: u32, j: int) -> u8 {
    if j == 0 {
        w as u8
    } else if j == 1 {
        (w >> 8u32) as u8
    } else if j == 2 {
        (w >> 16u32) as u8
    } else {
        (w >> 24u32) as u8
    }
}

/// Byte `j` (0 to 7, least significant first) of a 64-bit register.
pub open spec fn byte_of_u64(w: u64, j: int) -> u8 {
    if j == 0 {
        w as u8
    } else if j == 1 {
        (w >> 8u64) as u8
    } else if j == 2 {
        (w >> 16u64) as u8
    } else if j == 3 {
        (w >> 24u64) as u8
    } else if j == 4 {
        (w >> 32u64) as u8
    } else if j == 5 {
        (w >> 40u64) as u8
    } else if j == 6 {
        (w >> 48u64) as u8
    } else {
        (w >> 56u64) as u8
    }
}

/// All the bytes that the registers of a console log message hold: each register in turn,
/// least significant byte first (24 bytes for 32-bit registers, 128 for 64-bit ones).
pub open spec fn packed_chars(char_lists: ConsoleLogChars) -> Seq<u8> {
    match char_lists {
        ConsoleLogChars::Reg32(regs) => Seq::new(24, |k: int| byte_of_u32(regs[k / 4], k % 4)),
        ConsoleLogChars::Reg64(regs) => Seq::new(128, |k: int| byte_of_u64(regs[k / 8], k % 8)),
    }
}

/// Whether `char_cnt` is a valid character count for the register width of `char_lists`: from 1
/// to 24 for 32-bit registers, from 1 to 128 for 64-bit ones.
pub open spec fn char_cnt_valid(char_cnt: u8, char_lists: ConsoleLogChars) -> bool {
    match char_lists {
        ConsoleLogChars::Reg32(_) => 1 <= char_cnt <= CONSOLE_LOG_32_MAX_CHAR_CNT,
        ConsoleLogChars::Reg64(_) => 1 <= char_cnt <= CONSOLE_LOG_64_MAX_CHAR_CNT,
    }
}

/// Helper function to convert the "Tightly packed list of characters" format used by the
/// `FFA_CONSOLE_LOG` interface into a byte slice.
///
/// With a character count out of range it returns `InvalidParameters` and leaves `log_bytes`
/// alone; otherwise it writes all the bytes of the registers (24 or 128) at the start of
/// `log_bytes`, which must be long enough to take them.
pub fn parse_console_log(char_cnt: u8, char_lists: &ConsoleLogChars, log_bytes: &mut [u8]) -> (r:
    Result<(), FfaError>)
    requires
        char_cnt_valid(char_cnt, *char_lists) ==> old(log_bytes)@.len() >= packed_chars(
            *char_lists,
        ).len(),
    ensures
        r is Err <==> !char_cnt_valid(char_cnt, *char_lists),
        *char_lists is Reg32 ==> (r is Ok <==> 1 <= char_cnt <= 24),
        *char_lists is Reg64 ==> (r is Ok <==> 1 <= char_cnt <= 128),
        r is Err ==> r == Err::<(), FfaError>(FfaError::InvalidParameters) && final(log_bytes)@
            == old(log_bytes)@,
        r is Ok ==> final(log_bytes)@ == packed_chars(*char_lists) + old(log_bytes)@.skip(
            packed_chars(*char_lists).len() as int,
        ),
{
    let ghost old_bytes = log_bytes@;
    match char_lists {
        ConsoleLogChars::Reg32(regs) => {
            if !(1 <= char_cnt && char_cnt <= CONSOLE_LOG_32_MAX_CHAR_CNT) {
                return Err(FfaError::InvalidParameters);
            }
            let mut i: usize = 0;
            while i < 6
                invariant
                    0 <= i <= 6,
                    log_bytes@.len() == old_bytes.len(),
                    old_bytes.len() >= 24,
                    forall|k: int| 0 <= k < 4 * i ==> log_bytes@[k] == byte_of_u32(regs[k / 4], k % 4),
                    forall|k: int| 4 * i <= k < old_bytes.len() ==> log_bytes@[k] == old_bytes[k],
                decreases 6 - i,
            {
                let w = regs[i];
                log_bytes[4 * i] = w as u8;
                log_bytes[4 * i + 1] = (w >> 8u32) as u8;
                log_bytes[4 * i + 2] = (w >> 16u32) as u8;
                log_bytes[4 * i + 3] = (w >> 24u32) as u8;
                i = i + 1;
            }
            assert(log_bytes@ =~= packed_chars(*char_lists) + old_bytes.skip(24));
        },
        ConsoleLogChars::Reg64(regs) => {
            if !(1 <= char_cnt && char_cnt <= CONSOLE_LOG_64_MAX_CHAR_CNT) {
                return Err(FfaError::InvalidParameters);
            }
            let mut i: usize = 0;
            while i < 16
                invariant
                    0 <= i <= 16,
                    log_bytes@.len() == old_bytes.len(),
                    old_bytes.len() >= 128,
                    forall|k: int| 0 <= k < 8 * i ==> log_bytes@[k] == byte_of_u64(regs[k / 8], k % 8),
                    forall|k: int| 8 * i <= k < old_bytes.len() ==> log_bytes@[k] == old_bytes[k],
                decreases 16 - i,
            {
                let w = regs[i];
                log_bytes[8 * i] = w as u8;
                log_bytes[8 * i + 1] = (w >> 8u64) as u8;
                log_bytes[8 * i + 2] = (w >> 16u64) as u8;
                log_bytes[8 * i + 3] = (w >> 24u64) as u8;
                log_bytes[8 * i + 4] = (w >> 32u64) as u8;
                log_bytes[8 * i + 5] = (w >> 40u64) as u8;
                log_bytes[8 * i + 6] = (w >> 48u64) as u8;
                log_bytes[8 * i + 7] = (w >> 56u64) as u8;
                i = i + 1;
            }
            assert(log_bytes@ =~= packed_chars(*char_lists) + old_bytes.skip(128));
        },
    }
    Ok(())
}

} // verus!
