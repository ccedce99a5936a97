//! Writing an interface into the registers `x0`..`x17`.
use crate::args::{
    ConsoleLogChars, DirectMsgArgs, Feature, MemAddr, MemOpBuf, RxTxAddr, SecondaryEpRegisterAddr,
    SuccessArgs,
};
use crate::error::FfaError;
use crate::interface::Interface;
use crate::uuid_repr::be_u64;
use crate::version::Version;
use vstd::prelude::*;

verus! {

/// Eighteen registers that hold 0.
pub open spec fn zero_regs() -> Seq<u64> {
    Seq::new(18, |j: int| 0u64)
}

/// `s` with the values `vals` written from position `start` on.
pub open spec fn splice(s: Seq<u64>, start: int, vals: Seq<u64>) -> Seq<u64> {
    Seq::new(s.len(), |j: int| if start <= j < start + vals.len() { vals[j - start] } else { s[j] })
}

/// 32-bit values widened to 64-bit registers.
pub open spec fn widen(vals: Seq<u32>) -> Seq<u64> {
    vals.map_values(|x: u32| x as u64)
}

/// Whether `to_regs` can write the direct request arguments: they are of a request kind, and a
/// version among them can be encoded.
pub open spec fn direct_req_encodable(args: DirectMsgArgs) -> bool {
    match args {
        DirectMsgArgs::Args32(_)
        | DirectMsgArgs::Args64(_)
        | DirectMsgArgs::PowerPsciReq32 { .. }
        | DirectMsgArgs::PowerPsciReq64 { .. }
        | DirectMsgArgs::PowerWarmBootReq { .. }
        | DirectMsgArgs::VmCreated { .. }
        | DirectMsgArgs::VmDestructed { .. } => true,
        DirectMsgArgs::VersionReq { version } => version.is_valid(),
        _ => false,
    }
}

/// Whether `to_regs` can write the direct response arguments: they are of a response kind, and a
/// version among them can be encoded.
pub open spec fn direct_resp_encodable(args: DirectMsgArgs) -> bool {
    match args {
        DirectMsgArgs::Args32(_)
        | DirectMsgArgs::Args64(_)
        | DirectMsgArgs::PowerPsciResp { .. }
        | DirectMsgArgs::VmCreatedAck { .. }
        | DirectMsgArgs::VmDestructedAck { .. } => true,
        DirectMsgArgs::VersionResp { version } => match version {
            Some(v) => v.is_valid(),
            None => true,
        },
        _ => false,
    }
}

impl Interface {
    /// Whether the interface can be written into registers at this version: `FFA_SUCCESS` carries
    /// 8-register results before v1.2 and 18-register results from v1.2 on, versions can be
    /// encoded, features are known, direct messages carry arguments of their own direction, and
    /// `FFA_MEM_PERM_GET` has a page count exactly from v1.3 on.
    pub open spec fn encodable(self, version: Version) -> bool {
        match self {
            Interface::Success { args, .. } => if version.spec_older_than(Version(1, 2)) {
                !(args is Result64_2)
            } else {
                args is Result64_2
            },
            Interface::Version { input_version } => input_version.is_valid(),
            Interface::VersionOut { output_version } => output_version.is_valid(),
            Interface::Features { feat_id, .. } => !(feat_id is Unknown),
            Interface::MsgSendDirectReq { args, .. } => direct_req_encodable(args),
            Interface::MsgSendDirectResp { args, .. } => direct_resp_encodable(args),
            Interface::MemPermGet { page_cnt, .. } => (!version.spec_older_than(Version(1, 3)))
                == (page_cnt is Some),
            _ => true,
        }
    }

    /// The number of registers, from `x0` on, that `to_regs` writes for the interface.
    pub open spec fn regs_written(self, version: Version) -> int {
        match self {
            Interface::Error { .. } => 3,
            Interface::Success { args, .. } => match args {
                SuccessArgs::Result64_2(_) => 18,
                _ => 8,
            },
            Interface::Interrupt { .. } => 3,
            Interface::Version { .. } => 2,
            Interface::VersionOut { .. } => 1,
            Interface::Features { .. } => 3,
            Interface::RxAcquire { .. } => 2,
            Interface::RxRelease { .. } => 2,
            Interface::RxTxMap { .. } => 4,
            Interface::RxTxUnmap { .. } => 2,
            Interface::PartitionInfoGet { .. } => 6,
            Interface::Run { .. } => 2,
            Interface::SecondaryEpRegister { .. } => 2,
            Interface::MsgSend2 { .. } => 3,
            Interface::MsgSendDirectReq { args, .. } => match args {
                DirectMsgArgs::VersionReq { .. } | DirectMsgArgs::PowerWarmBootReq { .. } => 4,
                DirectMsgArgs::PowerPsciReq32 { .. } | DirectMsgArgs::PowerPsciReq64 { .. } => 7,
                DirectMsgArgs::VmCreated { .. } | DirectMsgArgs::VmDestructed { .. } => 6,
                _ => 8,
            },
            Interface::MsgSendDirectResp { args, .. } => match args {
                DirectMsgArgs::VersionResp { .. }
                | DirectMsgArgs::PowerPsciResp { .. }
                | DirectMsgArgs::VmDestructedAck { .. } => 4,
                DirectMsgArgs::VmCreatedAck { .. } => 5,
                _ => 8,
            },
            Interface::MsgSendDirectReq2 { .. } | Interface::MsgSendDirectResp2 { .. } => 18,
            Interface::MemDonate { .. }
            | Interface::MemLend { .. }
            | Interface::MemShare { .. }
            | Interface::MemRetrieveReq { .. } => 5,
            Interface::MemRetrieveResp { .. } => 3,
            Interface::MemReclaim { .. } => 4,
            Interface::MemPermGet { .. } => 3,
            Interface::MemPermSet { .. } => 4,
            Interface::ConsoleLog { char_lists, .. } => match char_lists {
                ConsoleLogChars::Reg32(_) => 8,
                ConsoleLogChars::Reg64(_) => 18,
            },
            _ => 1,
        }
    }
}

/// The registers `x3`, `x4` of a memory transaction: the buffer's address and page count, or
/// zeros when there is no buffer.
pub open spec fn encode_mem_buf(buf: Option<MemOpBuf>) -> (u64, u64) {
    match buf {
        Some(MemOpBuf::Buf32 { addr, page_cnt }) => (addr as u64, page_cnt as u64),
        Some(MemOpBuf::Buf64 { addr, page_cnt }) => (addr, page_cnt as u64),
        None => (0u64, 0u64),
    }
}

/// The register `x1` of a direct message: the source endpoint in bits [31:16], the destination
/// in bits [15:0].
pub open spec fn encode_direct_ids(src_id: u16, dst_id: u16) -> u64 {
    ((src_id as u64) << 16u64) | (dst_id as u64)
}

/// The register `x1` of a memory permission interface: the address, widened when 32-bit.
pub open spec fn encode_mem_addr(addr: MemAddr) -> u64 {
    match addr {
        MemAddr::Addr32(a) => a as u64,
        MemAddr::Addr64(a) => a,
    }
}

/// The registers of a direct request after `x1`, written over `b`.
pub open spec fn encode_direct_req_args(b: Seq<u64>, args: DirectMsgArgs) -> Seq<u64> {
    match args {
        DirectMsgArgs::Args32(a) => splice(b, 3, widen(a@)),
        DirectMsgArgs::Args64(a) => splice(b, 3, a@),
        DirectMsgArgs::VersionReq { version } => b.update(2, DirectMsgArgs::VERSION_REQ as u64).update(
            3,
            version.bits() as u64,
        ),
        DirectMsgArgs::PowerPsciReq32 { function_id, params } => splice(
            b.update(2, DirectMsgArgs::POWER_PSCI_REQ as u64).update(3, function_id as u64),
            4,
            widen(params@),
        ),
        DirectMsgArgs::PowerPsciReq64 { function_id, params } => splice(
            b.update(2, DirectMsgArgs::POWER_PSCI_REQ as u64).update(3, function_id as u64),
            4,
            params@,
        ),
        DirectMsgArgs::PowerWarmBootReq { boot_type } => b.update(
            2,
            DirectMsgArgs::POWER_WARM_BOOT_REQ as u64,
        ).update(3, boot_type.value() as u64),
        DirectMsgArgs::VmCreated { handle, vm_id } => b.update(
            2,
            DirectMsgArgs::VM_CREATED as u64,
        ).update(3, handle.words()[0] as u64).update(4, handle.words()[1] as u64).update(
            5,
            vm_id as u64,
        ),
        DirectMsgArgs::VmDestructed { handle, vm_id } => b.update(
            2,
            DirectMsgArgs::VM_DESTRUCTED as u64,
        ).update(3, handle.words()[0] as u64).update(4, handle.words()[1] as u64).update(
            5,
            vm_id as u64,
        ),
        _ => b,
    }
}

/// The registers of a direct response after `x1`, written over `b`.
pub open spec fn encode_direct_resp_args(b: Seq<u64>, args: DirectMsgArgs) -> Seq<u64> {
    match args {
        DirectMsgArgs::Args32(a) => splice(b, 3, widen(a@)),
        DirectMsgArgs::Args64(a) => splice(b, 3, a@),
        DirectMsgArgs::VersionResp { version } => b.update(
            2,
            DirectMsgArgs::VERSION_RESP as u64,
        ).update(
            3,
            match version {
                None => FfaError::NotSupported.code() as u64,
                Some(v) => v.bits() as u64,
            },
        ),
        DirectMsgArgs::PowerPsciResp { psci_status } => b.update(
            2,
            DirectMsgArgs::POWER_PSCI_RESP as u64,
        ).update(3, psci_status as u64),
        DirectMsgArgs::VmCreatedAck { sp_status } => b.update(
            2,
            DirectMsgArgs::VM_CREATED_ACK as u64,
        ).update(4, sp_status.code() as u64),
        DirectMsgArgs::VmDestructedAck { sp_status } => b.update(
            2,
            DirectMsgArgs::VM_DESTRUCTED_ACK as u64,
        ).update(3, sp_status.code() as u64),
        _ => b,
    }
}

/// The eighteen registers `x0`..`x17` that hold the interface at the given version: the function
/// ID in `x0` (or the version for `VersionOut`), the arguments after it, and zeros elsewhere.
pub open spec fn encode_regs(version: Version, i: Interface) -> Seq<u64> {
    let base = match i.spec_function_id() {
        Some(f) => zero_regs().update(0, f.value() as u64),
        None => zero_regs(),
    };
    match i {
        Interface::Error { target_info, error_code } => base.update(
            1,
            target_info.bits() as u64,
        ).update(2, (error_code.code() as u32) as u64),
        Interface::Success { target_info, args } => {
            let b = base.update(1, target_info as u64);
            match args {
                SuccessArgs::Result32(r) => splice(b, 2, widen(r@)),
                SuccessArgs::Result64(r) => splice(b, 2, r@),
                SuccessArgs::Result64_2(r) => splice(b, 2, r@),
            }
        },
        Interface::Interrupt { target_info, interrupt_id } => base.update(
            1,
            target_info.bits() as u64,
        ).update(2, interrupt_id as u64),
        Interface::Version { input_version } => base.update(1, input_version.bits() as u64),
        Interface::VersionOut { output_version } => base.update(0, output_version.bits() as u64),
        Interface::Features { feat_id, input_properties } => base.update(
            1,
            feat_id.bits() as u64,
        ).update(2, input_properties as u64),
        Interface::RxAcquire { vm_id } => base.update(1, vm_id as u64),
        Interface::RxRelease { vm_id } => base.update(1, vm_id as u64),
        Interface::RxTxMap { addr, page_cnt } => {
            let b = match addr {
                RxTxAddr::Addr32 { rx, tx } => base.update(1, tx as u64).update(2, rx as u64),
                RxTxAddr::Addr64 { rx, tx } => base.update(1, tx).update(2, rx),
            };
            b.update(3, page_cnt as u64)
        },
        Interface::RxTxUnmap { id } => base.update(1, id as u64),
        Interface::PartitionInfoGet { uuid, flags } => base.update(1, uuid.le_word_at(0) as u64).update(
            2,
            uuid.le_word_at(1) as u64,
        ).update(3, uuid.le_word_at(2) as u64).update(4, uuid.le_word_at(3) as u64).update(
            5,
            flags as u64,
        ),
        Interface::Run { target_info } => base.update(1, target_info.bits() as u64),
        Interface::SecondaryEpRegister { entrypoint } => match entrypoint {
            SecondaryEpRegisterAddr::Addr32(addr) => base.update(1, addr as u64),
            SecondaryEpRegisterAddr::Addr64(addr) => base.update(1, addr),
        },
        Interface::MsgSend2 { sender_vm_id, flags } => base.update(1, sender_vm_id as u64).update(
            2,
            flags as u64,
        ),
        Interface::MsgSendDirectReq { src_id, dst_id, args } => encode_direct_req_args(
            base.update(1, encode_direct_ids(src_id, dst_id)),
            args,
        ),
        Interface::MsgSendDirectResp { src_id, dst_id, args } => encode_direct_resp_args(
            base.update(1, encode_direct_ids(src_id, dst_id)),
            args,
        ),
        Interface::MsgSendDirectReq2 { src_id, dst_id, uuid, args } => splice(
            base.update(1, encode_direct_ids(src_id, dst_id)).update(
                2,
                be_u64(uuid@.subrange(0, 8)),
            ).update(3, be_u64(uuid@.subrange(8, 16))),
            4,
            args.0@,
        ),
        Interface::MsgSendDirectResp2 { src_id, dst_id, args } => splice(
            base.update(1, encode_direct_ids(src_id, dst_id)),
            4,
            args.0@,
        ),
        Interface::MemDonate { total_len, frag_len, buf }
        | Interface::MemLend { total_len, frag_len, buf }
        | Interface::MemShare { total_len, frag_len, buf }
        | Interface::MemRetrieveReq { total_len, frag_len, buf } => base.update(
            1,
            total_len as u64,
        ).update(2, frag_len as u64).update(3, encode_mem_buf(buf).0).update(
            4,
            encode_mem_buf(buf).1,
        ),
        Interface::MemRetrieveResp { total_len, frag_len } => base.update(
            1,
            total_len as u64,
        ).update(2, frag_len as u64),
        Interface::MemReclaim { handle, flags } => base.update(1, handle.words()[0] as u64).update(
            2,
            handle.words()[1] as u64,
        ).update(3, flags as u64),
        Interface::MemPermGet { addr, page_cnt } => base.update(1, encode_mem_addr(addr)).update(
            2,
            if !version.spec_older_than(Version(1, 3)) {
                page_cnt.unwrap() as u64
            } else {
                0u64
            },
        ),
        Interface::MemPermSet { addr, page_cnt, mem_perm } => base.update(
            1,
            encode_mem_addr(addr),
        ).update(2, page_cnt as u64).update(3, mem_perm as u64),
        Interface::ConsoleLog { char_cnt, char_lists } => {
            let b = base.update(1, char_cnt as u64);
            match char_lists {
                ConsoleLogChars::Reg32(r) => splice(b, 2, widen(r@)),
                ConsoleLogChars::Reg64(r) => splice(b, 2, r@),
            }
        },
        _ => base,
    }
}

/// The registers that `to_regs` leaves in a buffer of `len` registers: the encoding in the first
/// eighteen, zeros after.
pub open spec fn regs_after_write(version: Version, i: Interface, len: nat) -> Seq<u64> {
    Seq::new(len, |j: int| if j < 18 { encode_regs(version, i)[j] } else { 0u64 })
}

fn put_u64s(r: &mut [u64; 18], start: usize, vals: &[u64])
    requires
        start + vals@.len() <= 18,
    ensures
        final(r)@ == splice(old(r)@, start as int, vals@),
{
    let ghost r0 = r@;
    let mut k: usize = 0;
    while k < vals.len()
        invariant
            0 <= k <= vals@.len(),
            start + vals@.len() <= 18,
            r@ == splice(r0, start as int, vals@.subrange(0, k as int)),
        decreases vals@.len() - k,
    {
        r[start + k] = vals[k];
        k = k + 1;
        assert(r@ =~= splice(r0, start as int, vals@.subrange(0, k as int)));
    }
    assert(vals@.subrange(0, vals@.len() as int) =~= vals@);
}

fn put_u32s(r: &mut [u64; 18], start: usize, vals: &[u32])
    requires
        start + vals@.len() <= 18,
    ensures
        final(r)@ == splice(old(r)@, start as int, widen(vals@)),
{
    let ghost r0 = r@;
    let mut k: usize = 0;
    while k < vals.len()
        invariant
            0 <= k <= vals@.len(),
            start + vals@.len() <= 18,
            r@ == splice(r0, start as int, widen(vals@.subrange(0, k as int))),
        decreases vals@.len() - k,
    {
        r[start + k] = vals[k] as u64;
        k = k + 1;
        assert(r@ =~= splice(r0, start as int, widen(vals@.subrange(0, k as int))));
    }
    assert(vals@.subrange(0, vals@.len() as int) =~= vals@);
}

fn put_direct_req_args(r: &mut [u64; 18], args: &DirectMsgArgs)
    requires
        direct_req_encodable(*args),
    ensures
        final(r)@ == encode_direct_req_args(old(r)@, *args),
{
    match args {
        DirectMsgArgs::Args32(a) => put_u32s(r, 3, a),
        DirectMsgArgs::Args64(a) => put_u64s(r, 3, a),
        DirectMsgArgs::VersionReq { version } => {
            r[2] = DirectMsgArgs::VERSION_REQ as u64;
            r[3] = version.to_bits() as u64;
        },
        DirectMsgArgs::PowerPsciReq32 { function_id, params } => {
            r[2] = DirectMsgArgs::POWER_PSCI_REQ as u64;
            r[3] = *function_id as u64;
            put_u32s(r, 4, params);
        },
        DirectMsgArgs::PowerPsciReq64 { function_id, params } => {
            r[2] = DirectMsgArgs::POWER_PSCI_REQ as u64;
            r[3] = *function_id as u64;
            put_u64s(r, 4, params);
        },
        DirectMsgArgs::PowerWarmBootReq { boot_type } => {
            r[2] = DirectMsgArgs::POWER_WARM_BOOT_REQ as u64;
            r[3] = u32::from(*boot_type) as u64;
        },
        DirectMsgArgs::VmCreated { handle, vm_id } => {
            r[2] = DirectMsgArgs::VM_CREATED as u64;
            let handle_regs = <[u32; 2]>::from(*handle);
            r[3] = handle_regs[0] as u64;
            r[4] = handle_regs[1] as u64;
            r[5] = *vm_id as u64;
        },
        DirectMsgArgs::VmDestructed { handle, vm_id } => {
            r[2] = DirectMsgArgs::VM_DESTRUCTED as u64;
            let handle_regs = <[u32; 2]>::from(*handle);
            r[3] = handle_regs[0] as u64;
            r[4] = handle_regs[1] as u64;
            r[5] = *vm_id as u64;
        },
        _ => {},
    }
}

fn put_direct_resp_args(r: &mut [u64; 18], args: &DirectMsgArgs)
    requires
        direct_resp_encodable(*args),
    ensures
        final(r)@ == encode_direct_resp_args(old(r)@, *args),
{
    match args {
        DirectMsgArgs::Args32(a) => put_u32s(r, 3, a),
        DirectMsgArgs::Args64(a) => put_u64s(r, 3, a),
        DirectMsgArgs::VersionResp { version } => {
            r[2] = DirectMsgArgs::VERSION_RESP as u64;
            match version {
                None => r[3] = i32::from(FfaError::NotSupported) as u64,
                Some(ver) => r[3] = ver.to_bits() as u64,
            }
        },
        DirectMsgArgs::PowerPsciResp { psci_status } => {
            r[2] = DirectMsgArgs::POWER_PSCI_RESP as u64;
            r[3] = *psci_status as u64;
        },
        DirectMsgArgs::VmCreatedAck { sp_status } => {
            r[2] = DirectMsgArgs::VM_CREATED_ACK as u64;
            r[4] = i32::from(*sp_status) as u64;
        },
        DirectMsgArgs::VmDestructedAck { sp_status } => {
            r[2] = DirectMsgArgs::VM_DESTRUCTED_ACK as u64;
            r[3] = i32::from(*sp_status) as u64;
        },
        _ => {},
    }
}

fn mem_buf_regs(buf: &Option<MemOpBuf>) -> (r: (u64, u64))
    ensures
        r == encode_mem_buf(*buf),
{
    match buf {
        Some(MemOpBuf::Buf32 { addr, page_cnt }) => (*addr as u64, *page_cnt as u64),
        Some(MemOpBuf::Buf64 { addr, page_cnt }) => (*addr, *page_cnt as u64),
        None => (0, 0),
    }
}

fn mem_addr_reg(addr: &MemAddr) -> (r: u64)
    ensures
        r == encode_mem_addr(*addr),
{
    match addr {
        MemAddr::Addr32(a) => *a as u64,
        MemAddr::Addr64(a) => *a,
    }
}

impl Interface {
    /// Whether `to_regs` can write the interface at `version` (see [`Interface::encodable`]):
    /// callers that cannot prove it test it with this function first.
    pub fn is_encodable(&self, version: Version) -> (r: bool)
        ensures
            r == self.encodable(version),
    {
        match self {
            Interface::Success { args, .. } => if version.older_than(&Version(1, 2)) {
                !matches!(args, SuccessArgs::Result64_2(_))
            } else {
                matches!(args, SuccessArgs::Result64_2(_))
            },
            Interface::Version { input_version } => input_version.fits_encoding(),
            Interface::VersionOut { output_version } => output_version.fits_encoding(),
            Interface::Features { feat_id, .. } => !matches!(feat_id, Feature::Unknown(_)),
            Interface::MsgSendDirectReq { args, .. } => match args {
                DirectMsgArgs::Args32(_)
                | DirectMsgArgs::Args64(_)
                | DirectMsgArgs::PowerPsciReq32 { .. }
                | DirectMsgArgs::PowerPsciReq64 { .. }
                | DirectMsgArgs::PowerWarmBootReq { .. }
                | DirectMsgArgs::VmCreated { .. }
                | DirectMsgArgs::VmDestructed { .. } => true,
                DirectMsgArgs::VersionReq { version: v } => v.fits_encoding(),
                _ => false,
            },
            Interface::MsgSendDirectResp { args, .. } => match args {
                DirectMsgArgs::Args32(_)
                | DirectMsgArgs::Args64(_)
                | DirectMsgArgs::PowerPsciResp { .. }
                | DirectMsgArgs::VmCreatedAck { .. }
                | DirectMsgArgs::VmDestructedAck { .. } => true,
                DirectMsgArgs::VersionResp { version: v } => match v {
                    Some(v) => v.fits_encoding(),
                    None => true,
                },
                _ => false,
            },
            Interface::MemPermGet { page_cnt, .. } => (!version.older_than(&Version(1, 3)))
                == page_cnt.is_some(),
            _ => true,
        }
    }

    fn encode(&self, version: Version) -> (r: [u64; 18])
        requires
            self.encodable(version),
        ensures
            r@ == encode_regs(version, *self),
    {
        let mut a = [0u64; 18];
        assert(a@ =~= zero_regs());
        if let Some(function_id) = self.function_id() {
            a[0] = u32::from(function_id) as u64;
        }
        match self {
            Interface::Error { target_info, error_code } => {
                a[1] = u32::from(*target_info) as u64;
                a[2] = (i32::from(*error_code) as u32) as u64;
            },
            Interface::Success { target_info, args } => {
                a[1] = *target_info as u64;
                match args {
                    SuccessArgs::Result32(regs) => put_u32s(&mut a, 2, regs),
                    SuccessArgs::Result64(regs) => put_u64s(&mut a, 2, regs),
                    SuccessArgs::Result64_2(regs) => put_u64s(&mut a, 2, regs),
                }
            },
            Interface::Interrupt { target_info, interrupt_id } => {
                a[1] = u32::from(*target_info) as u64;
                a[2] = *interrupt_id as u64;
            },
            Interface::Version { input_version } => {
                a[1] = input_version.to_bits() as u64;
            },
            Interface::VersionOut { output_version } => {
                a[0] = output_version.to_bits() as u64;
            },
            Interface::Features { feat_id, input_properties } => {
                a[1] = feat_id.to_bits() as u64;
                a[2] = *input_properties as u64;
            },
            Interface::RxAcquire { vm_id } => {
                a[1] = *vm_id as u64;
            },
            Interface::RxRelease { vm_id } => {
                a[1] = *vm_id as u64;
            },
            Interface::RxTxMap { addr, page_cnt } => {
                match addr {
                    RxTxAddr::Addr32 { rx, tx } => {
                        a[1] = *tx as u64;
                        a[2] = *rx as u64;
                    },
                    RxTxAddr::Addr64 { rx, tx } => {
                        a[1] = *tx;
                        a[2] = *rx;
                    },
                }
                a[3] = *page_cnt as u64;
            },
            Interface::RxTxUnmap { id } => {
                a[1] = *id as u64;
            },
            Interface::PartitionInfoGet { uuid, flags } => {
                a[1] = uuid.le_word(0) as u64;
                a[2] = uuid.le_word(1) as u64;
                a[3] = uuid.le_word(2) as u64;
                a[4] = uuid.le_word(3) as u64;
                a[5] = *flags as u64;
            },
            Interface::IdGet | Interface::SpmIdGet | Interface::MsgWait | Interface::Yield => {},
            Interface::Run { target_info } => {
                a[1] = u32::from(*target_info) as u64;
            },
            Interface::NormalWorldResume => {},
            Interface::SecondaryEpRegister { entrypoint } => match entrypoint {
                SecondaryEpRegisterAddr::Addr32(addr) => a[1] = *addr as u64,
                SecondaryEpRegisterAddr::Addr64(addr) => a[1] = *addr,
            },
            Interface::MsgSend2 { sender_vm_id, flags } => {
                a[1] = *sender_vm_id as u64;
                a[2] = *flags as u64;
            },
            Interface::MsgSendDirectReq { src_id, dst_id, args } => {
                a[1] = ((*src_id as u64) << 16u64) | (*dst_id as u64);
                put_direct_req_args(&mut a, args);
            },
            Interface::MsgSendDirectResp { src_id, dst_id, args } => {
                a[1] = ((*src_id as u64) << 16u64) | (*dst_id as u64);
                put_direct_resp_args(&mut a, args);
            },
            Interface::MemDonate { total_len, frag_len, buf }
            | Interface::MemLend { total_len, frag_len, buf }
            | Interface::MemShare { total_len, frag_len, buf }
            | Interface::MemRetrieveReq { total_len, frag_len, buf } => {
                a[1] = *total_len as u64;
                a[2] = *frag_len as u64;
                let (addr, page_cnt) = mem_buf_regs(buf);
                a[3] = addr;
                a[4] = page_cnt;
            },
            Interface::MemRetrieveResp { total_len, frag_len } => {
                a[1] = *total_len as u64;
                a[2] = *frag_len as u64;
            },
            Interface::MemRelinquish => {},
            Interface::MemReclaim { handle, flags } => {
                let handle_regs = <[u32; 2]>::from(*handle);
                a[1] = handle_regs[0] as u64;
                a[2] = handle_regs[1] as u64;
                a[3] = *flags as u64;
            },
            Interface::MemPermGet { addr, page_cnt } => {
                a[1] = mem_addr_reg(addr);
                a[2] = if !version.older_than(&Version(1, 3)) {
                    match page_cnt {
                        Some(c) => *c as u64,
                        None => 0,
                    }
                } else {
                    0
                };
            },
            Interface::MemPermSet { addr, page_cnt, mem_perm } => {
                a[1] = mem_addr_reg(addr);
                a[2] = *page_cnt as u64;
                a[3] = *mem_perm as u64;
            },
            Interface::MsgSendDirectReq2 { src_id, dst_id, uuid, args } => {
                a[1] = ((*src_id as u64) << 16u64) | (*dst_id as u64);
                let (hi, lo) = uuid.as_u64_pair();
                a[2] = hi;
                a[3] = lo;
                put_u64s(&mut a, 4, &args.0);
            },
            Interface::MsgSendDirectResp2 { src_id, dst_id, args } => {
                a[1] = ((*src_id as u64) << 16u64) | (*dst_id as u64);
                a[2] = 0;
                a[3] = 0;
                put_u64s(&mut a, 4, &args.0);
            },
            Interface::ConsoleLog { char_cnt, char_lists } => {
                a[1] = *char_cnt as u64;
                match char_lists {
                    ConsoleLogChars::Reg32(regs) => put_u32s(&mut a, 2, regs),
                    ConsoleLogChars::Reg64(regs) => put_u64s(&mut a, 2, regs),
                }
            },
        }
        a
    }

    /// Create register contents for an interface. The buffer `a` must hold every register that
    /// the interface takes, and the interface must be encodable at `version` (see
    /// [`Interface::encodable`]); the registers that the interface does not use are set to 0.
    pub fn to_regs(&self, version: Version, a: &mut [u64])
        requires
            self.encodable(version),
            old(a)@.len() >= self.regs_written(version),
        ensures
            final(a)@ == regs_after_write(version, *self, old(a)@.len()),
    {
        let regs = self.encode(version);
        let n = a.len();
        let mut j: usize = 0;
        while j < n
            invariant
                0 <= j <= n,
                n == a@.len(),
                regs@ == encode_regs(version, *self),
                forall|k: int|
                    0 <= k < j ==> a@[k] == regs_after_write(version, *self, n as nat)[k],
            decreases n - j,
        {
            if j < 18 {
                a[j] = regs[j];
            } else {
                a[j] = 0;
            }
            j = j + 1;
        }
        assert(a@ =~= regs_after_write(version, *self, n as nat));
    }
}

} // verus!
