//! Parsing an interface out of the contents of the registers `x0`..`x17`.
use crate::args::{
    ConsoleLogChars, DirectMsg2Args, DirectMsgArgs, Feature, MemAddr, MemOpBuf, RxTxAddr,
    SecondaryEpRegisterAddr, SuccessArgs, TargetInfo, VmAvailabilityStatus, WarmBootType,
};
use crate::error::{Error, FfaError};
use crate::func_id::FuncId;
use crate::interface::Interface;
use crate::memory_management::Handle;
use crate::uuid_repr::Uuid;
use crate::version::Version;
use vstd::prelude::*;

verus! {

/// Whether `from_regs` has a parser for the function. The notification functions,
/// `FFA_PARTITION_INFO_GET_REGS` and `FFA_EL3_INTR_HANDLE` are recognised but not parsed.
pub open spec fn has_parser(fid: FuncId) -> bool {
    !(fid is PartitionInfoGetRegs || fid is NotificationBitmapCreate
        || fid is NotificationBitmapDestroy || fid is NotificationBind || fid is NotificationUnbind
        || fid is NotificationSet || fid is NotificationGet || fid is NotificationInfoGet32
        || fid is NotificationInfoGet64 || fid is El3IntrHandle)
}

/// Whether the function passes its arguments in 18 registers (`x0`..`x17`) at this version,
/// rather than in 8.
pub open spec fn uses_18_regs(version: Version, fid: FuncId) -> bool {
    ||| (fid is Success64 && !version.spec_older_than(Version(1, 2)))
    ||| fid is MsgSendDirectReq64_2
    ||| fid is MsgSendDirectResp64_2
    ||| fid is ConsoleLog64
}

/// The number of registers that the function's arguments take at this version.
pub open spec fn regs_needed(version: Version, fid: FuncId) -> int {
    if uses_18_regs(version, fid) {
        18
    } else {
        8
    }
}

/// Whether `from_regs` can read `regs`: `x0` is there, and when it holds a recognised function
/// ID, that function has a parser and all the registers its arguments take are there.
pub open spec fn regs_readable(version: Version, regs: Seq<u64>) -> bool {
    &&& regs.len() >= 1
    &&& match FuncId::from_value(regs[0] as u32) {
        Ok(fid) => has_parser(fid) && regs.len() >= regs_needed(version, fid),
        Err(_) => true,
    }
}

/// The optional buffer descriptor of a 32-bit memory transaction: present when both the address
/// (`x3`) and the page count (`x4`) are non-zero.
pub open spec fn decode_mem_buf32(regs: Seq<u64>) -> Option<MemOpBuf> {
    if regs[3] != 0 && regs[4] != 0 {
        Some(MemOpBuf::Buf32 { addr: regs[3] as u32, page_cnt: regs[4] as u32 })
    } else {
        None
    }
}

/// The optional buffer descriptor of a 64-bit memory transaction: present when both the address
/// (`x3`) and the page count (`x4`) are non-zero.
pub open spec fn decode_mem_buf64(regs: Seq<u64>) -> Option<MemOpBuf> {
    if regs[3] != 0 && regs[4] != 0 {
        Some(MemOpBuf::Buf64 { addr: regs[3], page_cnt: regs[4] as u32 })
    } else {
        None
    }
}

/// The arguments of a 32-bit direct request: a framework message when bit 31 of `w2` is set,
/// else the five words `w3`..`w7`.
pub open spec fn decode_direct_req32(regs: Seq<u64>) -> Result<DirectMsgArgs, Error> {
    let kind = regs[2] as u32;
    if kind & DirectMsgArgs::FWK_MSG_BITS != 0 {
        if kind == DirectMsgArgs::VERSION_REQ {
            match Version::from_bits(regs[3] as u32) {
                Ok(version) => Ok(DirectMsgArgs::VersionReq { version }),
                Err(e) => Err(e),
            }
        } else if kind == DirectMsgArgs::POWER_PSCI_REQ {
            Ok(
                DirectMsgArgs::PowerPsciReq32 {
                    function_id: regs[3] as u32,
                    params: [regs[4] as u32, regs[5] as u32, regs[6] as u32],
                },
            )
        } else if kind == DirectMsgArgs::POWER_WARM_BOOT_REQ {
            match WarmBootType::from_value(regs[3] as u32) {
                Ok(boot_type) => Ok(DirectMsgArgs::PowerWarmBootReq { boot_type }),
                Err(e) => Err(e),
            }
        } else if kind == DirectMsgArgs::VM_CREATED {
            Ok(
                DirectMsgArgs::VmCreated {
                    handle: Handle::from_words([regs[3] as u32, regs[4] as u32]),
                    vm_id: regs[5] as u16,
                },
            )
        } else if kind == DirectMsgArgs::VM_DESTRUCTED {
            Ok(
                DirectMsgArgs::VmDestructed {
                    handle: Handle::from_words([regs[3] as u32, regs[4] as u32]),
                    vm_id: regs[5] as u16,
                },
            )
        } else {
            Err(Error::UnrecognisedFwkMsg(kind))
        }
    } else {
        Ok(
            DirectMsgArgs::Args32(
                [regs[3] as u32, regs[4] as u32, regs[5] as u32, regs[6] as u32, regs[7] as u32],
            ),
        )
    }
}

/// The arguments of a 64-bit direct request: a PSCI request when bit 31 of `x2` is set,
/// else the five registers `x3`..`x7`.
pub open spec fn decode_direct_req64(regs: Seq<u64>) -> Result<DirectMsgArgs, Error> {
    if regs[2] & (DirectMsgArgs::FWK_MSG_BITS as u64) != 0 {
        if regs[2] as u32 == DirectMsgArgs::POWER_PSCI_REQ {
            Ok(
                DirectMsgArgs::PowerPsciReq64 {
                    function_id: regs[3] as u32,
                    params: [regs[4], regs[5], regs[6]],
                },
            )
        } else {
            Err(Error::UnrecognisedFwkMsg(regs[2] as u32))
        }
    } else {
        Ok(DirectMsgArgs::Args64([regs[3], regs[4], regs[5], regs[6], regs[7]]))
    }
}

/// The arguments of a 32-bit direct response: a framework message when bit 31 of `w2` is set,
/// else the five words `w3`..`w7`.
pub open spec fn decode_direct_resp32(regs: Seq<u64>) -> Result<DirectMsgArgs, Error> {
    let kind = regs[2] as u32;
    if kind & DirectMsgArgs::FWK_MSG_BITS != 0 {
        if kind == DirectMsgArgs::VERSION_RESP {
            if regs[3] as i32 == FfaError::NotSupported.code() {
                Ok(DirectMsgArgs::VersionResp { version: None })
            } else {
                match Version::from_bits(regs[3] as u32) {
                    Ok(v) => Ok(DirectMsgArgs::VersionResp { version: Some(v) }),
                    Err(e) => Err(e),
                }
            }
        } else if kind == DirectMsgArgs::POWER_PSCI_RESP {
            Ok(DirectMsgArgs::PowerPsciResp { psci_status: regs[3] as i32 })
        } else if kind == DirectMsgArgs::VM_CREATED_ACK {
            match VmAvailabilityStatus::from_code(regs[3] as i32) {
                Ok(sp_status) => Ok(DirectMsgArgs::VmCreatedAck { sp_status }),
                Err(e) => Err(e),
            }
        } else if kind == DirectMsgArgs::VM_DESTRUCTED_ACK {
            match VmAvailabilityStatus::from_code(regs[3] as i32) {
                Ok(sp_status) => Ok(DirectMsgArgs::VmDestructedAck { sp_status }),
                Err(e) => Err(e),
            }
        } else {
            Err(Error::UnrecognisedFwkMsg(kind))
        }
    } else {
        Ok(
            DirectMsgArgs::Args32(
                [regs[3] as u32, regs[4] as u32, regs[5] as u32, regs[6] as u32, regs[7] as u32],
            ),
        )
    }
}

/// The arguments of a 64-bit direct response: the five registers `x3`..`x7`; no framework
/// message is defined for it.
pub open spec fn decode_direct_resp64(regs: Seq<u64>) -> Result<DirectMsgArgs, Error> {
    if regs[2] & (DirectMsgArgs::FWK_MSG_BITS as u64) != 0 {
        Err(Error::UnrecognisedFwkMsg(regs[2] as u32))
    } else {
        Ok(DirectMsgArgs::Args64([regs[3], regs[4], regs[5], regs[6], regs[7]]))
    }
}

/// The sixteen registers `x2`..`x17`.
pub open spec fn regs_2_to_17(regs: Seq<u64>) -> [u64; 16] {
    [
        regs[2],
        regs[3],
        regs[4],
        regs[5],
        regs[6],
        regs[7],
        regs[8],
        regs[9],
        regs[10],
        regs[11],
        regs[12],
        regs[13],
        regs[14],
        regs[15],
        regs[16],
        regs[17],
    ]
}

/// The fourteen registers `x4`..`x17`.
pub open spec fn regs_4_to_17(regs: Seq<u64>) -> [u64; 14] {
    [
        regs[4],
        regs[5],
        regs[6],
        regs[7],
        regs[8],
        regs[9],
        regs[10],
        regs[11],
        regs[12],
        regs[13],
        regs[14],
        regs[15],
        regs[16],
        regs[17],
    ]
}

/// A direct message's source endpoint (bits [31:16] of `x1`) and destination (bits [15:0]).
pub open spec fn direct_ids(regs: Seq<u64>) -> (u16, u16) {
    ((regs[1] >> 16u64) as u16, regs[1] as u16)
}

/// The interface that the registers hold, given that `x0` holds the ID of function `fid`.
pub open spec fn decode_fid(version: Version, fid: FuncId, regs: Seq<u64>) -> Result<
    Interface,
    Error,
> {
    match fid {
        FuncId::Error => match FfaError::from_code(regs[2] as i32) {
            Ok(error_code) => Ok(
                Interface::Error { target_info: TargetInfo::from_bits(regs[1] as u32), error_code },
            ),
            Err(e) => Err(e),
        },
        FuncId::Success32 => Ok(
            Interface::Success {
                target_info: regs[1] as u32,
                args: SuccessArgs::Result32(
                    [
                        regs[2] as u32,
                        regs[3] as u32,
                        regs[4] as u32,
                        regs[5] as u32,
                        regs[6] as u32,
                        regs[7] as u32,
                    ],
                ),
            },
        ),
        FuncId::Success64 => if version.spec_older_than(Version(1, 2)) {
            Ok(
                Interface::Success {
                    target_info: regs[1] as u32,
                    args: SuccessArgs::Result64([regs[2], regs[3], regs[4], regs[5], regs[6], regs[7]]),
                },
            )
        } else {
            Ok(
                Interface::Success {
                    target_info: regs[1] as u32,
                    args: SuccessArgs::Result64_2(regs_2_to_17(regs)),
                },
            )
        },
        FuncId::Interrupt => Ok(
            Interface::Interrupt {
                target_info: TargetInfo::from_bits(regs[1] as u32),
                interrupt_id: regs[2] as u32,
            },
        ),
        FuncId::Version => match Version::from_bits(regs[1] as u32) {
            Ok(input_version) => Ok(Interface::Version { input_version }),
            Err(e) => Err(e),
        },
        FuncId::Features => Ok(
            Interface::Features {
                feat_id: Feature::from_bits(regs[1] as u32),
                input_properties: regs[2] as u32,
            },
        ),
        FuncId::RxAcquire => Ok(Interface::RxAcquire { vm_id: regs[1] as u16 }),
        FuncId::RxRelease => Ok(Interface::RxRelease { vm_id: regs[1] as u16 }),
        FuncId::RxTxMap32 => Ok(
            Interface::RxTxMap {
                addr: RxTxAddr::Addr32 { rx: regs[2] as u32, tx: regs[1] as u32 },
                page_cnt: regs[3] as u32,
            },
        ),
        FuncId::RxTxMap64 => Ok(
            Interface::RxTxMap {
                addr: RxTxAddr::Addr64 { rx: regs[2], tx: regs[1] },
                page_cnt: regs[3] as u32,
            },
        ),
        FuncId::RxTxUnmap => Ok(Interface::RxTxUnmap { id: regs[1] as u16 }),
        FuncId::PartitionInfoGet => Ok(
            Interface::PartitionInfoGet {
                uuid: Uuid::spec_from_le_words(
                    regs[1] as u32,
                    regs[2] as u32,
                    regs[3] as u32,
                    regs[4] as u32,
                ),
                flags: regs[5] as u32,
            },
        ),
        FuncId::IdGet => Ok(Interface::IdGet),
        FuncId::SpmIdGet => Ok(Interface::SpmIdGet),
        FuncId::MsgWait => Ok(Interface::MsgWait),
        FuncId::Yield => Ok(Interface::Yield),
        FuncId::Run => Ok(Interface::Run { target_info: TargetInfo::from_bits(regs[1] as u32) }),
        FuncId::NormalWorldResume => Ok(Interface::NormalWorldResume),
        FuncId::SecondaryEpRegister32 => Ok(
            Interface::SecondaryEpRegister {
                entrypoint: SecondaryEpRegisterAddr::Addr32(regs[1] as u32),
            },
        ),
        FuncId::SecondaryEpRegister64 => Ok(
            Interface::SecondaryEpRegister { entrypoint: SecondaryEpRegisterAddr::Addr64(regs[1]) },
        ),
        FuncId::MsgSend2 => Ok(
            Interface::MsgSend2 { sender_vm_id: regs[1] as u16, flags: regs[2] as u32 },
        ),
        FuncId::MsgSendDirectReq32 => match decode_direct_req32(regs) {
            Ok(args) => Ok(
                Interface::MsgSendDirectReq {
                    src_id: direct_ids(regs).0,
                    dst_id: direct_ids(regs).1,
                    args,
                },
            ),
            Err(e) => Err(e),
        },
        FuncId::MsgSendDirectReq64 => match decode_direct_req64(regs) {
            Ok(args) => Ok(
                Interface::MsgSendDirectReq {
                    src_id: direct_ids(regs).0,
                    dst_id: direct_ids(regs).1,
                    args,
                },
            ),
            Err(e) => Err(e),
        },
        FuncId::MsgSendDirectResp32 => match decode_direct_resp32(regs) {
            Ok(args) => Ok(
                Interface::MsgSendDirectResp {
                    src_id: direct_ids(regs).0,
                    dst_id: direct_ids(regs).1,
                    args,
                },
            ),
            Err(e) => Err(e),
        },
        FuncId::MsgSendDirectResp64 => match decode_direct_resp64(regs) {
            Ok(args) => Ok(
                Interface::MsgSendDirectResp {
                    src_id: direct_ids(regs).0,
                    dst_id: direct_ids(regs).1,
                    args,
                },
            ),
            Err(e) => Err(e),
        },
        FuncId::MemDonate32 => Ok(
            Interface::MemDonate {
                total_len: regs[1] as u32,
                frag_len: regs[2] as u32,
                buf: decode_mem_buf32(regs),
            },
        ),
        FuncId::MemDonate64 => Ok(
            Interface::MemDonate {
                total_len: regs[1] as u32,
                frag_len: regs[2] as u32,
                buf: decode_mem_buf64(regs),
            },
        ),
        FuncId::MemLend32 => Ok(
            Interface::MemLend {
                total_len: regs[1] as u32,
                frag_len: regs[2] as u32,
                buf: decode_mem_buf32(regs),
            },
        ),
        FuncId::MemLend64 => Ok(
            Interface::MemLend {
                total_len: regs[1] as u32,
                frag_len: regs[2] as u32,
                buf: decode_mem_buf64(regs),
            },
        ),
        FuncId::MemShare32 => Ok(
            Interface::MemShare {
                total_len: regs[1] as u32,
                frag_len: regs[2] as u32,
                buf: decode_mem_buf32(regs),
            },
        ),
        FuncId::MemShare64 => Ok(
            Interface::MemShare {
                total_len: regs[1] as u32,
                frag_len: regs[2] as u32,
                buf: decode_mem_buf64(regs),
            },
        ),
        FuncId::MemRetrieveReq32 => Ok(
            Interface::MemRetrieveReq {
                total_len: regs[1] as u32,
                frag_len: regs[2] as u32,
                buf: decode_mem_buf32(regs),
            },
        ),
        FuncId::MemRetrieveReq64 => Ok(
            Interface::MemRetrieveReq {
                total_len: regs[1] as u32,
                frag_len: regs[2] as u32,
                buf: decode_mem_buf64(regs),
            },
        ),
        FuncId::MemRetrieveResp => Ok(
            Interface::MemRetrieveResp { total_len: regs[1] as u32, frag_len: regs[2] as u32 },
        ),
        FuncId::MemRelinquish => Ok(Interface::MemRelinquish),
        FuncId::MemReclaim => Ok(
            Interface::MemReclaim {
                handle: Handle::from_words([regs[1] as u32, regs[2] as u32]),
                flags: regs[3] as u32,
            },
        ),
        FuncId::MemPermGet32 => Ok(
            Interface::MemPermGet {
                addr: MemAddr::Addr32(regs[1] as u32),
                page_cnt: if !version.spec_older_than(Version(1, 3)) {
                    Some(regs[2] as u32)
                } else {
                    None
                },
            },
        ),
        FuncId::MemPermGet64 => Ok(
            Interface::MemPermGet {
                addr: MemAddr::Addr64(regs[1]),
                page_cnt: if !version.spec_older_than(Version(1, 3)) {
                    Some(regs[2] as u32)
                } else {
                    None
                },
            },
        ),
        FuncId::MemPermSet32 => Ok(
            Interface::MemPermSet {
                addr: MemAddr::Addr32(regs[1] as u32),
                page_cnt: regs[2] as u32,
                mem_perm: regs[3] as u32,
            },
        ),
        FuncId::MemPermSet64 => Ok(
            Interface::MemPermSet {
                addr: MemAddr::Addr64(regs[1]),
                page_cnt: regs[2] as u32,
                mem_perm: regs[3] as u32,
            },
        ),
        FuncId::ConsoleLog32 => Ok(
            Interface::ConsoleLog {
                char_cnt: regs[1] as u8,
                char_lists: ConsoleLogChars::Reg32(
                    [
                        regs[2] as u32,
                        regs[3] as u32,
                        regs[4] as u32,
                        regs[5] as u32,
                        regs[6] as u32,
                        regs[7] as u32,
                    ],
                ),
            },
        ),
        FuncId::ConsoleLog64 => Ok(
            Interface::ConsoleLog {
                char_cnt: regs[1] as u8,
                char_lists: ConsoleLogChars::Reg64(regs_2_to_17(regs)),
            },
        ),
        FuncId::MsgSendDirectReq64_2 => Ok(
            Interface::MsgSendDirectReq2 {
                src_id: direct_ids(regs).0,
                dst_id: direct_ids(regs).1,
                uuid: Uuid::spec_from_u64_pair(regs[2], regs[3]),
                args: DirectMsg2Args(regs_4_to_17(regs)),
            },
        ),
        FuncId::MsgSendDirectResp64_2 => Ok(
            Interface::MsgSendDirectResp2 {
                src_id: direct_ids(regs).0,
                dst_id: direct_ids(regs).1,
                args: DirectMsg2Args(regs_4_to_17(regs)),
            },
        ),
        // Functions without a parser; `from_regs` is never called on them.
        _ => Err(Error::UnrecognisedFunctionId(fid.value())),
    }
}

/// The interface that the registers hold at the given version: the function named by the ID in
/// `w0` with the arguments read from the following registers, or the error met on the way.
pub open spec fn decode_regs(version: Version, regs: Seq<u64>) -> Result<Interface, Error> {
    match FuncId::from_value(regs[0] as u32) {
        Ok(fid) => decode_fid(version, fid, regs),
        Err(e) => Err(e),
    }
}

fn parse_mem_buf32(regs: &[u64]) -> (r: Option<MemOpBuf>)
    requires
        regs@.len() >= 8,
    ensures
        r == decode_mem_buf32(regs@),
{
    if regs[3] != 0 && regs[4] != 0 {
        Some(MemOpBuf::Buf32 { addr: regs[3] as u32, page_cnt: regs[4] as u32 })
    } else {
        None
    }
}

fn parse_mem_buf64(regs: &[u64]) -> (r: Option<MemOpBuf>)
    requires
        regs@.len() >= 8,
    ensures
        r == decode_mem_buf64(regs@),
{
    if regs[3] != 0 && regs[4] != 0 {
        Some(MemOpBuf::Buf64 { addr: regs[3], page_cnt: regs[4] as u32 })
    } else {
        None
    }
}

fn parse_direct_req32(regs: &[u64]) -> (r: Result<DirectMsgArgs, Error>)
    requires
        regs@.len() >= 8,
    ensures
        r == decode_direct_req32(regs@),
{
    let kind = regs[2] as u32;
    if (kind & DirectMsgArgs::FWK_MSG_BITS) != 0 {
        if kind == DirectMsgArgs::VERSION_REQ {
            let version = Version::try_from(regs[3] as u32)?;
            Ok(DirectMsgArgs::VersionReq { version })
        } else if kind == DirectMsgArgs::POWER_PSCI_REQ {
            Ok(
                DirectMsgArgs::PowerPsciReq32 {
                    function_id: regs[3] as u32,
                    params: [regs[4] as u32, regs[5] as u32, regs[6] as u32],
                },
            )
        } else if kind == DirectMsgArgs::POWER_WARM_BOOT_REQ {
            let boot_type = WarmBootType::try_from(regs[3] as u32)?;
            Ok(DirectMsgArgs::PowerWarmBootReq { boot_type })
        } else if kind == DirectMsgArgs::VM_CREATED {
            Ok(
                DirectMsgArgs::VmCreated {
                    handle: Handle::from([regs[3] as u32, regs[4] as u32]),
                    vm_id: regs[5] as u16,
                },
            )
        } else if kind == DirectMsgArgs::VM_DESTRUCTED {
            Ok(
                DirectMsgArgs::VmDestructed {
                    handle: Handle::from([regs[3] as u32, regs[4] as u32]),
                    vm_id: regs[5] as u16,
                },
            )
        } else {
            Err(Error::UnrecognisedFwkMsg(kind))
        }
    } else {
        Ok(
            DirectMsgArgs::Args32(
                [regs[3] as u32, regs[4] as u32, regs[5] as u32, regs[6] as u32, regs[7] as u32],
            ),
        )
    }
}

fn parse_direct_req64(regs: &[u64]) -> (r: Result<DirectMsgArgs, Error>)
    requires
        regs@.len() >= 8,
    ensures
        r == decode_direct_req64(regs@),
{
    if (regs[2] & (DirectMsgArgs::FWK_MSG_BITS as u64)) != 0 {
        if regs[2] as u32 == DirectMsgArgs::POWER_PSCI_REQ {
            Ok(
                DirectMsgArgs::PowerPsciReq64 {
                    function_id: regs[3] as u32,
                    params: [regs[4], regs[5], regs[6]],
                },
            )
        } else {
            Err(Error::UnrecognisedFwkMsg(regs[2] as u32))
        }
    } else {
        Ok(DirectMsgArgs::Args64([regs[3], regs[4], regs[5], regs[6], regs[7]]))
    }
}

fn parse_direct_resp32(regs: &[u64]) -> (r: Result<DirectMsgArgs, Error>)
    requires
        regs@.len() >= 8,
    ensures
        r == decode_direct_resp32(regs@),
{
    let kind = regs[2] as u32;
    if (kind & DirectMsgArgs::FWK_MSG_BITS) != 0 {
        if kind == DirectMsgArgs::VERSION_RESP {
            if regs[3] as i32 == i32::from(FfaError::NotSupported) {
                Ok(DirectMsgArgs::VersionResp { version: None })
            } else {
                let v = Version::try_from(regs[3] as u32)?;
                Ok(DirectMsgArgs::VersionResp { version: Some(v) })
            }
        } else if kind == DirectMsgArgs::POWER_PSCI_RESP {
            Ok(DirectMsgArgs::PowerPsciResp { psci_status: regs[3] as i32 })
        } else if kind == DirectMsgArgs::VM_CREATED_ACK {
            let sp_status = VmAvailabilityStatus::try_from(regs[3] as i32)?;
            Ok(DirectMsgArgs::VmCreatedAck { sp_status })
        } else if kind == DirectMsgArgs::VM_DESTRUCTED_ACK {
            let sp_status = VmAvailabilityStatus::try_from(regs[3] as i32)?;
            Ok(DirectMsgArgs::VmDestructedAck { sp_status })
        } else {
            Err(Error::UnrecognisedFwkMsg(kind))
        }
    } else {
        Ok(
            DirectMsgArgs::Args32(
                [regs[3] as u32, regs[4] as u32, regs[5] as u32, regs[6] as u32, regs[7] as u32],
            ),
        )
    }
}

fn parse_direct_resp64(regs: &[u64]) -> (r: Result<DirectMsgArgs, Error>)
    requires
        regs@.len() >= 8,
    ensures
        r == decode_direct_resp64(regs@),
{
    if (regs[2] & (DirectMsgArgs::FWK_MSG_BITS as u64)) != 0 {
        Err(Error::UnrecognisedFwkMsg(regs[2] as u32))
    } else {
        Ok(DirectMsgArgs::Args64([regs[3], regs[4], regs[5], regs[6], regs[7]]))
    }
}

fn copy_regs_2_to_17(regs: &[u64]) -> (r: [u64; 16])
    requires
        regs@.len() >= 18,
    ensures
        r == regs_2_to_17(regs@),
{
    [
        regs[2],
        regs[3],
        regs[4],
        regs[5],
        regs[6],
        regs[7],
        regs[8],
        regs[9],
        regs[10],
        regs[11],
        regs[12],
        regs[13],
        regs[14],
        regs[15],
        regs[16],
        regs[17],
    ]
}

fn copy_regs_4_to_17(regs: &[u64]) -> (r: [u64; 14])
    requires
        regs@.len() >= 18,
    ensures
        r == regs_4_to_17(regs@),
{
    [
        regs[4],
        regs[5],
        regs[6],
        regs[7],
        regs[8],
        regs[9],
        regs[10],
        regs[11],
        regs[12],
        regs[13],
        regs[14],
        regs[15],
        regs[16],
        regs[17],
    ]
}

fn uuid_from_le_words(w0: u32, w1: u32, w2: u32, w3: u32) -> (u: Uuid)
    ensures
        u == Uuid::spec_from_le_words(w0, w1, w2, w3),
{
    Uuid(
        [
            w0 as u8,
            (w0 >> 8u32) as u8,
            (w0 >> 16u32) as u8,
            (w0 >> 24u32) as u8,
            w1 as u8,
            (w1 >> 8u32) as u8,
            (w1 >> 16u32) as u8,
            (w1 >> 24u32) as u8,
            w2 as u8,
            (w2 >> 8u32) as u8,
            (w2 >> 16u32) as u8,
            (w2 >> 24u32) as u8,
            w3 as u8,
            (w3 >> 8u32) as u8,
            (w3 >> 16u32) as u8,
            (w3 >> 24u32) as u8,
        ],
    )
}

impl Interface {
    /// Whether `from_regs` can read `regs` at `version` (see [`regs_readable`]): callers that
    /// cannot prove it test it with this function first.
    pub fn can_parse(version: Version, regs: &[u64]) -> (r: bool)
        ensures
            r == regs_readable(version, regs@),
    {
        if regs.len() < 1 {
            return false;
        }
        match FuncId::try_from(regs[0] as u32) {
            Err(_) => true,
            Ok(fid) => {
                let parsed = match fid {
                    FuncId::PartitionInfoGetRegs
                    | FuncId::NotificationBitmapCreate
                    | FuncId::NotificationBitmapDestroy
                    | FuncId::NotificationBind
                    | FuncId::NotificationUnbind
                    | FuncId::NotificationSet
                    | FuncId::NotificationGet
                    | FuncId::NotificationInfoGet32
                    | FuncId::NotificationInfoGet64
                    | FuncId::El3IntrHandle => false,
                    _ => true,
                };
                let wide = match fid {
                    FuncId::Success64 => !version.older_than(&Version(1, 2)),
                    FuncId::MsgSendDirectReq64_2
                    | FuncId::MsgSendDirectResp64_2
                    | FuncId::ConsoleLog64 => true,
                    _ => false,
                };
                let needed: usize = if wide {
                    18
                } else {
                    8
                };
                parsed && regs.len() >= needed
            },
        }
    }

    /// Parse interface from register contents. The caller must ensure that the `regs` argument has
    /// the correct length: 8 registers for FF-A v1.1 and lower, 18 registers for v1.2 and higher.
    /// Functions that have no parser (notifications, `FFA_PARTITION_INFO_GET_REGS`,
    /// `FFA_EL3_INTR_HANDLE`) must not be passed.
    pub fn from_regs(version: Version, regs: &[u64]) -> (r: Result<Interface, Error>)
        requires
            regs_readable(version, regs@),
        ensures
            r == decode_regs(version, regs@),
    {
        let fid = FuncId::try_from(regs[0] as u32)?;
        let msg = match fid {
            FuncId::Error => Interface::Error {
                target_info: TargetInfo::from(regs[1] as u32),
                error_code: FfaError::try_from(regs[2] as i32)?,
            },
            FuncId::Success32 => Interface::Success {
                target_info: regs[1] as u32,
                args: SuccessArgs::Result32(
                    [
                        regs[2] as u32,
                        regs[3] as u32,
                        regs[4] as u32,
                        regs[5] as u32,
                        regs[6] as u32,
                        regs[7] as u32,
                    ],
                ),
            },
            FuncId::Success64 => if version.older_than(&Version(1, 2)) {
                Interface::Success {
                    target_info: regs[1] as u32,
                    args: SuccessArgs::Result64([regs[2], regs[3], regs[4], regs[5], regs[6], regs[7]]),
                }
            } else {
                Interface::Success {
                    target_info: regs[1] as u32,
                    args: SuccessArgs::Result64_2(copy_regs_2_to_17(regs)),
                }
            },
            FuncId::Interrupt => Interface::Interrupt {
                target_info: TargetInfo::from(regs[1] as u32),
                interrupt_id: regs[2] as u32,
            },
            FuncId::Version => Interface::Version {
                input_version: Version::try_from(regs[1] as u32)?,
            },
            FuncId::Features => Interface::Features {
                feat_id: Feature::from(regs[1] as u32),
                input_properties: regs[2] as u32,
            },
            FuncId::RxAcquire => Interface::RxAcquire { vm_id: regs[1] as u16 },
            FuncId::RxRelease => Interface::RxRelease { vm_id: regs[1] as u16 },
            FuncId::RxTxMap32 => Interface::RxTxMap {
                addr: RxTxAddr::Addr32 { rx: regs[2] as u32, tx: regs[1] as u32 },
                page_cnt: regs[3] as u32,
            },
            FuncId::RxTxMap64 => Interface::RxTxMap {
                addr: RxTxAddr::Addr64 { rx: regs[2], tx: regs[1] },
                page_cnt: regs[3] as u32,
            },
            FuncId::RxTxUnmap => Interface::RxTxUnmap { id: regs[1] as u16 },
            FuncId::PartitionInfoGet => Interface::PartitionInfoGet {
                uuid: uuid_from_le_words(
                    regs[1] as u32,
                    regs[2] as u32,
                    regs[3] as u32,
                    regs[4] as u32,
                ),
                flags: regs[5] as u32,
            },
            FuncId::IdGet => Interface::IdGet,
            FuncId::SpmIdGet => Interface::SpmIdGet,
            FuncId::MsgWait => Interface::MsgWait,
            FuncId::Yield => Interface::Yield,
            FuncId::Run => Interface::Run { target_info: TargetInfo::from(regs[1] as u32) },
            FuncId::NormalWorldResume => Interface::NormalWorldResume,
            FuncId::SecondaryEpRegister32 => Interface::SecondaryEpRegister {
                entrypoint: SecondaryEpRegisterAddr::Addr32(regs[1] as u32),
            },
            FuncId::SecondaryEpRegister64 => Interface::SecondaryEpRegister {
                entrypoint: SecondaryEpRegisterAddr::Addr64(regs[1]),
            },
            FuncId::MsgSend2 => Interface::MsgSend2 {
                sender_vm_id: regs[1] as u16,
                flags: regs[2] as u32,
            },
            FuncId::MsgSendDirectReq32 => Interface::MsgSendDirectReq {
                src_id: (regs[1] >> 16u64) as u16,
                dst_id: regs[1] as u16,
                args: parse_direct_req32(regs)?,
            },
            FuncId::MsgSendDirectReq64 => Interface::MsgSendDirectReq {
                src_id: (regs[1] >> 16u64) as u16,
                dst_id: regs[1] as u16,
                args: parse_direct_req64(regs)?,
            },
            FuncId::MsgSendDirectResp32 => Interface::MsgSendDirectResp {
                src_id: (regs[1] >> 16u64) as u16,
                dst_id: regs[1] as u16,
                args: parse_direct_resp32(regs)?,
            },
            FuncId::MsgSendDirectResp64 => Interface::MsgSendDirectResp {
                src_id: (regs[1] >> 16u64) as u16,
                dst_id: regs[1] as u16,
                args: parse_direct_resp64(regs)?,
            },
            FuncId::MemDonate32 => Interface::MemDonate {
                total_len: regs[1] as u32,
                frag_len: regs[2] as u32,
                buf: parse_mem_buf32(regs),
            },
            FuncId::MemDonate64 => Interface::MemDonate {
                total_len: regs[1] as u32,
                frag_len: regs[2] as u32,
                buf: parse_mem_buf64(regs),
            },
            FuncId::MemLend32 => Interface::MemLend {
                total_len: regs[1] as u32,
                frag_len: regs[2] as u32,
                buf: parse_mem_buf32(regs),
            },
            FuncId::MemLend64 => Interface::MemLend {
                total_len: regs[1] as u32,
                frag_len: regs[2] as u32,
                buf: parse_mem_buf64(regs),
            },
            FuncId::MemShare32 => Interface::MemShare {
                total_len: regs[1] as u32,
                frag_len: regs[2] as u32,
                buf: parse_mem_buf32(regs),
            },
            FuncId::MemShare64 => Interface::MemShare {
                total_len: regs[1] as u32,
                frag_len: regs[2] as u32,
                buf: parse_mem_buf64(regs),
            },
            FuncId::MemRetrieveReq32 => Interface::MemRetrieveReq {
                total_len: regs[1] as u32,
                frag_len: regs[2] as u32,
                buf: parse_mem_buf32(regs),
            },
            FuncId::MemRetrieveReq64 => Interface::MemRetrieveReq {
                total_len: regs[1] as u32,
                frag_len: regs[2] as u32,
                buf: parse_mem_buf64(regs),
            },
            FuncId::MemRetrieveResp => Interface::MemRetrieveResp {
                total_len: regs[1] as u32,
                frag_len: regs[2] as u32,
            },
            FuncId::MemRelinquish => Interface::MemRelinquish,
            FuncId::MemReclaim => Interface::MemReclaim {
                handle: Handle::from([regs[1] as u32, regs[2] as u32]),
                flags: regs[3] as u32,
            },
            FuncId::MemPermGet32 => Interface::MemPermGet {
                addr: MemAddr::Addr32(regs[1] as u32),
                page_cnt: if !version.older_than(&Version(1, 3)) {
                    Some(regs[2] as u32)
                } else {
                    None
                },
            },
            FuncId::MemPermGet64 => Interface::MemPermGet {
                addr: MemAddr::Addr64(regs[1]),
                page_cnt: if !version.older_than(&Version(1, 3)) {
                    Some(regs[2] as u32)
                } else {
                    None
                },
            },
            FuncId::MemPermSet32 => Interface::MemPermSet {
                addr: MemAddr::Addr32(regs[1] as u32),
                page_cnt: regs[2] as u32,
                mem_perm: regs[3] as u32,
            },
            FuncId::MemPermSet64 => Interface::MemPermSet {
                addr: MemAddr::Addr64(regs[1]),
                page_cnt: regs[2] as u32,
                mem_perm: regs[3] as u32,
            },
            FuncId::ConsoleLog32 => Interface::ConsoleLog {
                char_cnt: regs[1] as u8,
                char_lists: ConsoleLogChars::Reg32(
                    [
                        regs[2] as u32,
                        regs[3] as u32,
                        regs[4] as u32,
                        regs[5] as u32,
                        regs[6] as u32,
                        regs[7] as u32,
                    ],
                ),
            },
            FuncId::ConsoleLog64 => Interface::ConsoleLog {
                char_cnt: regs[1] as u8,
                char_lists: ConsoleLogChars::Reg64(copy_regs_2_to_17(regs)),
            },
            FuncId::MsgSendDirectReq64_2 => Interface::MsgSendDirectReq2 {
                src_id: (regs[1] >> 16u64) as u16,
                dst_id: regs[1] as u16,
                uuid: Uuid::from_u64_pair(regs[2], regs[3]),
                args: DirectMsg2Args(copy_regs_4_to_17(regs)),
            },
            FuncId::MsgSendDirectResp64_2 => Interface::MsgSendDirectResp2 {
                src_id: (regs[1] >> 16u64) as u16,
                dst_id: regs[1] as u16,
                args: DirectMsg2Args(copy_regs_4_to_17(regs)),
            },
            FuncId::PartitionInfoGetRegs
            | FuncId::NotificationBitmapCreate
            | FuncId::NotificationBitmapDestroy
            | FuncId::NotificationBind
            | FuncId::NotificationUnbind
            | FuncId::NotificationSet
            | FuncId::NotificationGet
            | FuncId::NotificationInfoGet32
            | FuncId::NotificationInfoGet64
            | FuncId::El3IntrHandle => {
                // Ruled out by the precondition: these functions have no parser.
                return Err(Error::UnrecognisedFunctionId(u32::from(fid)));
            },
        };
        Ok(msg)
    }
}

} // verus!
