//! FF-A interfaces ("message types") and their function IDs.
use crate::args::{
    ConsoleLogChars, DirectMsg2Args, DirectMsgArgs, Feature, MemAddr, MemOpBuf, RxTxAddr,
    SecondaryEpRegisterAddr, SuccessArgs, TargetInfo,
};
use crate::error::FfaError;
use crate::func_id::FuncId;
use crate::memory_management::Handle;
use crate::uuid_repr::Uuid;
use crate::version::Version;
use vstd::prelude::*;

verus! {

/// FF-A "message types", the terminology used by the spec is "interfaces".
///
/// The interfaces are used by FF-A components for communication at an FF-A instance. The spec also
/// describes the valid FF-A instances and conduits for each interface.
#[allow(inconsistent_fields)]
#[derive(Debug, Eq, PartialEq, Clone, Copy)]
pub enum Interface {
    Error { target_info: TargetInfo, error_code: FfaError },
    Success { target_info: u32, args: SuccessArgs },
    Interrupt { target_info: TargetInfo, interrupt_id: u32 },
    Version { input_version: Version },
    VersionOut { output_version: Version },
    Features { feat_id: Feature, input_properties: u32 },
    RxAcquire { vm_id: u16 },
    RxRelease { vm_id: u16 },
    RxTxMap { addr: RxTxAddr, page_cnt: u32 },
    RxTxUnmap { id: u16 },
    PartitionInfoGet { uuid: Uuid, flags: u32 },
    IdGet,
    SpmIdGet,
    MsgWait,
    Yield,
    Run { target_info: TargetInfo },
    NormalWorldResume,
    SecondaryEpRegister { entrypoint: SecondaryEpRegisterAddr },
    MsgSend2 { sender_vm_id: u16, flags: u32 },
    MsgSendDirectReq { src_id: u16, dst_id: u16, args: DirectMsgArgs },
    MsgSendDirectResp { src_id: u16, dst_id: u16, args: DirectMsgArgs },
    MsgSendDirectReq2 { src_id: u16, dst_id: u16, uuid: Uuid, args: DirectMsg2Args },
    MsgSendDirectResp2 { src_id: u16, dst_id: u16, args: DirectMsg2Args },
    MemDonate { total_len: u32, frag_len: u32, buf: Option<MemOpBuf> },
    MemLend { total_len: u32, frag_len: u32, buf: Option<MemOpBuf> },
    MemShare { total_len: u32, frag_len: u32, buf: Option<MemOpBuf> },
    MemRetrieveReq { total_len: u32, frag_len: u32, buf: Option<MemOpBuf> },
    MemRetrieveResp { total_len: u32, frag_len: u32 },
    MemRelinquish,
    MemReclaim { handle: Handle, flags: u32 },
    MemPermGet { addr: MemAddr, page_cnt: Option<u32> },
    MemPermSet { addr: MemAddr, page_cnt: u32, mem_perm: u32 },
    ConsoleLog { char_cnt: u8, char_lists: ConsoleLogChars },
}

/// The function ID of a memory transaction interface: the 64-bit one when it carries a 64-bit
/// buffer descriptor, else the 32-bit one.
pub open spec fn mem_op_func_id(buf: Option<MemOpBuf>, id32: FuncId, id64: FuncId) -> FuncId {
    match buf {
        Some(MemOpBuf::Buf64 { .. }) => id64,
        _ => id32,
    }
}

impl Interface {
    /// The function ID of the interface, if it has one.
    pub open spec fn spec_function_id(self) -> Option<FuncId> {
        match self {
            Interface::Error { .. } => Some(FuncId::Error),
            Interface::Success { args, .. } => match args {
                SuccessArgs::Result32(..) => Some(FuncId::Success32),
                SuccessArgs::Result64(..) | SuccessArgs::Result64_2(..) => Some(FuncId::Success64),
            },
            Interface::Interrupt { .. } => Some(FuncId::Interrupt),
            Interface::Version { .. } => Some(FuncId::Version),
            Interface::VersionOut { .. } => None,
            Interface::Features { .. } => Some(FuncId::Features),
            Interface::RxAcquire { .. } => Some(FuncId::RxAcquire),
            Interface::RxRelease { .. } => Some(FuncId::RxRelease),
            Interface::RxTxMap { addr, .. } => match addr {
                RxTxAddr::Addr32 { .. } => Some(FuncId::RxTxMap32),
                RxTxAddr::Addr64 { .. } => Some(FuncId::RxTxMap64),
            },
            Interface::RxTxUnmap { .. } => Some(FuncId::RxTxUnmap),
            Interface::PartitionInfoGet { .. } => Some(FuncId::PartitionInfoGet),
            Interface::IdGet => Some(FuncId::IdGet),
            Interface::SpmIdGet => Some(FuncId::SpmIdGet),
            Interface::MsgWait => Some(FuncId::MsgWait),
            Interface::Yield => Some(FuncId::Yield),
            Interface::Run { .. } => Some(FuncId::Run),
            Interface::NormalWorldResume => Some(FuncId::NormalWorldResume),
            Interface::SecondaryEpRegister { entrypoint } => match entrypoint {
                SecondaryEpRegisterAddr::Addr32(..) => Some(FuncId::SecondaryEpRegister32),
                SecondaryEpRegisterAddr::Addr64(..) => Some(FuncId::SecondaryEpRegister64),
            },
            Interface::MsgSend2 { .. } => Some(FuncId::MsgSend2),
            Interface::MsgSendDirectReq { args, .. } => match args {
                DirectMsgArgs::Args32(_) => Some(FuncId::MsgSendDirectReq32),
                DirectMsgArgs::Args64(_) => Some(FuncId::MsgSendDirectReq64),
                DirectMsgArgs::VersionReq { .. } => Some(FuncId::MsgSendDirectReq32),
                DirectMsgArgs::PowerPsciReq32 { .. } => Some(FuncId::MsgSendDirectReq32),
                DirectMsgArgs::PowerPsciReq64 { .. } => Some(FuncId::MsgSendDirectReq64),
                DirectMsgArgs::PowerWarmBootReq { .. } => Some(FuncId::MsgSendDirectReq32),
                DirectMsgArgs::VmCreated { .. } => Some(FuncId::MsgSendDirectReq32),
                DirectMsgArgs::VmDestructed { .. } => Some(FuncId::MsgSendDirectReq32),
                _ => None,
            },
            Interface::MsgSendDirectResp { args, .. } => match args {
                DirectMsgArgs::Args32(_) => Some(FuncId::MsgSendDirectResp32),
                DirectMsgArgs::Args64(_) => Some(FuncId::MsgSendDirectResp64),
                DirectMsgArgs::VersionResp { .. } => Some(FuncId::MsgSendDirectResp32),
                DirectMsgArgs::PowerPsciResp { .. } => Some(FuncId::MsgSendDirectResp32),
                DirectMsgArgs::VmCreatedAck { .. } => Some(FuncId::MsgSendDirectResp32),
                DirectMsgArgs::VmDestructedAck { .. } => Some(FuncId::MsgSendDirectResp32),
                _ => None,
            },
            Interface::MsgSendDirectReq2 { .. } => Some(FuncId::MsgSendDirectReq64_2),
            Interface::MsgSendDirectResp2 { .. } => Some(FuncId::MsgSendDirectResp64_2),
            Interface::MemDonate { buf, .. } => Some(
                mem_op_func_id(buf, FuncId::MemDonate32, FuncId::MemDonate64),
            ),
            Interface::MemLend { buf, .. } => Some(
                mem_op_func_id(buf, FuncId::MemLend32, FuncId::MemLend64),
            ),
            Interface::MemShare { buf, .. } => Some(
                mem_op_func_id(buf, FuncId::MemShare32, FuncId::MemShare64),
            ),
            Interface::MemRetrieveReq { buf, .. } => Some(
                mem_op_func_id(buf, FuncId::MemRetrieveReq32, FuncId::MemRetrieveReq64),
            ),
            Interface::MemRetrieveResp { .. } => Some(FuncId::MemRetrieveResp),
            Interface::MemRelinquish => Some(FuncId::MemRelinquish),
            Interface::MemReclaim { .. } => Some(FuncId::MemReclaim),
            Interface::MemPermGet { addr, .. } => match addr {
                MemAddr::Addr32(_) => Some(FuncId::MemPermGet32),
                MemAddr::Addr64(_) => Some(FuncId::MemPermGet64),
            },
            Interface::MemPermSet { addr, .. } => match addr {
                MemAddr::Addr32(_) => Some(FuncId::MemPermSet32),
                MemAddr::Addr64(_) => Some(FuncId::MemPermSet64),
            },
            Interface::ConsoleLog { char_lists, .. } => match char_lists {
                ConsoleLogChars::Reg32(_) => Some(FuncId::ConsoleLog32),
                ConsoleLogChars::Reg64(_) => Some(FuncId::ConsoleLog64),
            },
        }
    }

    /// Returns the function ID for the call, if it has one.
    pub fn function_id(&self) -> (r: Option<FuncId>)
        ensures
            r == self.spec_function_id(),
    {
        match self {
            Interface::Error { .. } => Some(FuncId::Error),
            Interface::Success { args, .. } => match args {
                SuccessArgs::Result32(..) => Some(FuncId::Success32),
                SuccessArgs::Result64(..) | SuccessArgs::Result64_2(..) => Some(FuncId::Success64),
            },
            Interface::Interrupt { .. } => Some(FuncId::Interrupt),
            Interface::Version { .. } => Some(FuncId::Version),
            Interface::VersionOut { .. } => None,
            Interface::Features { .. } => Some(FuncId::Features),
            Interface::RxAcquire { .. } => Some(FuncId::RxAcquire),
            Interface::RxRelease { .. } => Some(FuncId::RxRelease),
            Interface::RxTxMap { addr, .. } => match addr {
                RxTxAddr::Addr32 { .. } => Some(FuncId::RxTxMap32),
                RxTxAddr::Addr64 { .. } => Some(FuncId::RxTxMap64),
            },
            Interface::RxTxUnmap { .. } => Some(FuncId::RxTxUnmap),
            Interface::PartitionInfoGet { .. } => Some(FuncId::PartitionInfoGet),
            Interface::IdGet => Some(FuncId::IdGet),
            Interface::SpmIdGet => Some(FuncId::SpmIdGet),
            Interface::MsgWait => Some(FuncId::MsgWait),
            Interface::Yield => Some(FuncId::Yield),
            Interface::Run { .. } => Some(FuncId::Run),
            Interface::NormalWorldResume => Some(FuncId::NormalWorldResume),
            Interface::SecondaryEpRegister { entrypoint } => match entrypoint {
                SecondaryEpRegisterAddr::Addr32(..) => Some(FuncId::SecondaryEpRegister32),
                SecondaryEpRegisterAddr::Addr64(..) => Some(FuncId::SecondaryEpRegister64),
            },
            Interface::MsgSend2 { .. } => Some(FuncId::MsgSend2),
            Interface::MsgSendDirectReq { args, .. } => match args {
                DirectMsgArgs::Args32(_) => Some(FuncId::MsgSendDirectReq32),
                DirectMsgArgs::Args64(_) => Some(FuncId::MsgSendDirectReq64),
                DirectMsgArgs::VersionReq { .. } => Some(FuncId::MsgSendDirectReq32),
                DirectMsgArgs::PowerPsciReq32 { .. } => Some(FuncId::MsgSendDirectReq32),
                DirectMsgArgs::PowerPsciReq64 { .. } => Some(FuncId::MsgSendDirectReq64),
                DirectMsgArgs::PowerWarmBootReq { .. } => Some(FuncId::MsgSendDirectReq32),
                DirectMsgArgs::VmCreated { .. } => Some(FuncId::MsgSendDirectReq32),
                DirectMsgArgs::VmDestructed { .. } => Some(FuncId::MsgSendDirectReq32),
                _ => None,
            },
            Interface::MsgSendDirectResp { args, .. } => match args {
                DirectMsgArgs::Args32(_) => Some(FuncId::MsgSendDirectResp32),
                DirectMsgArgs::Args64(_) => Some(FuncId::MsgSendDirectResp64),
                DirectMsgArgs::VersionResp { .. } => Some(FuncId::MsgSendDirectResp32),
                DirectMsgArgs::PowerPsciResp { .. } => Some(FuncId::MsgSendDirectResp32),
                DirectMsgArgs::VmCreatedAck { .. } => Some(FuncId::MsgSendDirectResp32),
                DirectMsgArgs::VmDestructedAck { .. } => Some(FuncId::MsgSendDirectResp32),
                _ => None,
            },
            Interface::MsgSendDirectReq2 { .. } => Some(FuncId::MsgSendDirectReq64_2),
            Interface::MsgSendDirectResp2 { .. } => Some(FuncId::MsgSendDirectResp64_2),
            Interface::MemDonate { buf, .. } => match buf {
                Some(MemOpBuf::Buf64 { .. }) => Some(FuncId::MemDonate64),
                _ => Some(FuncId::MemDonate32),
            },
            Interface::MemLend { buf, .. } => match buf {
                Some(MemOpBuf::Buf64 { .. }) => Some(FuncId::MemLend64),
                _ => Some(FuncId::MemLend32),
            },
            Interface::MemShare { buf, .. } => match buf {
                Some(MemOpBuf::Buf64 { .. }) => Some(FuncId::MemShare64),
                _ => Some(FuncId::MemShare32),
            },
            Interface::MemRetrieveReq { buf, .. } => match buf {
                Some(MemOpBuf::Buf64 { .. }) => Some(FuncId::MemRetrieveReq64),
                _ => Some(FuncId::MemRetrieveReq32),
            },
            Interface::MemRetrieveResp { .. } => Some(FuncId::MemRetrieveResp),
            Interface::MemRelinquish => Some(FuncId::MemRelinquish),
            Interface::MemReclaim { .. } => Some(FuncId::MemReclaim),
            Interface::MemPermGet { addr, .. } => match addr {
                MemAddr::Addr32(_) => Some(FuncId::MemPermGet32),
                MemAddr::Addr64(_) => Some(FuncId::MemPermGet64),
            },
            Interface::MemPermSet { addr, .. } => match addr {
                MemAddr::Addr32(_) => Some(FuncId::MemPermSet32),
                MemAddr::Addr64(_) => Some(FuncId::MemPermSet64),
            },
            Interface::ConsoleLog { char_lists, .. } => match char_lists {
                ConsoleLogChars::Reg32(_) => Some(FuncId::ConsoleLog32),
                ConsoleLogChars::Reg64(_) => Some(FuncId::ConsoleLog64),
            },
        }
    }

    /// Returns true if this is a 32-bit call, or false if it is a 64-bit call. The interface must
    /// have a function ID.
    pub fn is_32bit(&self) -> (r: bool)
        requires
            self.spec_function_id() is Some,
        ensures
            r == self.spec_function_id().unwrap().spec_is_32bit(),
    {
        match self.function_id() {
            Some(f) => f.is_32bit(),
            None => true,
        }
    }

    /// Helper function to create an `FFA_SUCCESS` interface without any arguments.
    pub fn success32_noargs() -> (r: Self)
        ensures
            r == (Interface::Success { target_info: 0, args: SuccessArgs::Result32([0u32, 0, 0, 0, 0, 0]) }),
    {
        Interface::Success { target_info: 0, args: SuccessArgs::Result32([0u32, 0, 0, 0, 0, 0]) }
    }

    /// Helper function to create an `FFA_SUCCESS` interface without any arguments.
    pub fn success64_noargs() -> (r: Self)
        ensures
            r == (Interface::Success { target_info: 0, args: SuccessArgs::Result64([0u64, 0, 0, 0, 0, 0]) }),
    {
        Interface::Success { target_info: 0, args: SuccessArgs::Result64([0u64, 0, 0, 0, 0, 0]) }
    }

    /// Helper function to create an `FFA_ERROR` interface with an error code.
    pub fn error(error_code: FfaError) -> (r: Self)
        ensures
            r == (Interface::Error {
                target_info: TargetInfo { endpoint_id: 0, vcpu_id: 0 },
                error_code,
            }),
    {
        Interface::Error { target_info: TargetInfo { endpoint_id: 0, vcpu_id: 0 }, error_code }
    }
}

} // verus!
