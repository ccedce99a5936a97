//! The numbers and layouts that the FF-A specification fixes: function IDs, status codes,
//! framework message kinds and other argument values, and the register that holds each argument
//! of each interface, stated one by one.
use crate::args::{
    DirectMsg2Args, DirectMsgArgs, Feature, FeatureId, MemAddr, MemOpBuf, RxTxAddr,
    SecondaryEpRegisterAddr, SuccessArgs, TargetInfo, VmAvailabilityStatus, WarmBootType,
};
use crate::encode::encode_direct_ids;
use crate::memory_management::Handle;
use crate::uuid_repr::be_u64;
use crate::decode::decode_regs;
use crate::encode::{encode_regs, regs_after_write};
use crate::uuid_repr::Uuid;
use crate::interface::Interface;
use crate::version::Version;
use crate::console_log::char_cnt_valid;
use crate::args::ConsoleLogChars;
use crate::error::{Error, FfaError};
use crate::func_id::FuncId;
use vstd::prelude::*;

verus! {

/// Every function has the function ID that the FF-A specification assigns to it, and
/// `FuncId::try_from` maps each of these IDs back to its function.
pub proof fn lemma_func_id_numbers()
    ensures
        FuncId::Error.value() == 0x84000060u32,
        FuncId::Success32.value() == 0x84000061u32,
        FuncId::Success64.value() == 0xc4000061u32,
        FuncId::Interrupt.value() == 0x84000062u32,
        FuncId::Version.value() == 0x84000063u32,
        FuncId::Features.value() == 0x84000064u32,
        FuncId::RxAcquire.value() == 0x84000084u32,
        FuncId::RxRelease.value() == 0x84000065u32,
        FuncId::RxTxMap32.value() == 0x84000066u32,
        FuncId::RxTxMap64.value() == 0xc4000066u32,
        FuncId::RxTxUnmap.value() == 0x84000067u32,
        FuncId::PartitionInfoGet.value() == 0x84000068u32,
        FuncId::PartitionInfoGetRegs.value() == 0xc400008bu32,
        FuncId::IdGet.value() == 0x84000069u32,
        FuncId::SpmIdGet.value() == 0x84000085u32,
        FuncId::ConsoleLog32.value() == 0x8400008au32,
        FuncId::ConsoleLog64.value() == 0xc400008au32,
        FuncId::MsgWait.value() == 0x8400006bu32,
        FuncId::Yield.value() == 0x8400006cu32,
        FuncId::Run.value() == 0x8400006du32,
        FuncId::NormalWorldResume.value() == 0x8400007cu32,
        FuncId::MsgSend2.value() == 0x84000086u32,
        FuncId::MsgSendDirectReq32.value() == 0x8400006fu32,
        FuncId::MsgSendDirectReq64.value() == 0xc400006fu32,
        FuncId::MsgSendDirectReq64_2.value() == 0xc400008du32,
        FuncId::MsgSendDirectResp32.value() == 0x84000070u32,
        FuncId::MsgSendDirectResp64.value() == 0xc4000070u32,
        FuncId::MsgSendDirectResp64_2.value() == 0xc400008eu32,
        FuncId::NotificationBitmapCreate.value() == 0x8400007du32,
        FuncId::NotificationBitmapDestroy.value() == 0x8400007eu32,
        FuncId::NotificationBind.value() == 0x8400007fu32,
        FuncId::NotificationUnbind.value() == 0x84000080u32,
        FuncId::NotificationSet.value() == 0x84000081u32,
        FuncId::NotificationGet.value() == 0x84000082u32,
        FuncId::NotificationInfoGet32.value() == 0x84000083u32,
        FuncId::NotificationInfoGet64.value() == 0xc4000083u32,
        FuncId::El3IntrHandle.value() == 0x8400008cu32,
        FuncId::SecondaryEpRegister32.value() == 0x84000087u32,
        FuncId::SecondaryEpRegister64.value() == 0xc4000087u32,
        FuncId::MemDonate32.value() == 0x84000071u32,
        FuncId::MemDonate64.value() == 0xc4000071u32,
        FuncId::MemLend32.value() == 0x84000072u32,
        FuncId::MemLend64.value() == 0xc4000072u32,
        FuncId::MemShare32.value() == 0x84000073u32,
        FuncId::MemShare64.value() == 0xc4000073u32,
        FuncId::MemRetrieveReq32.value() == 0x84000074u32,
        FuncId::MemRetrieveReq64.value() == 0xc4000074u32,
        FuncId::MemRetrieveResp.value() == 0x84000075u32,
        FuncId::MemRelinquish.value() == 0x84000076u32,
        FuncId::MemReclaim.value() == 0x84000077u32,
        FuncId::MemPermGet32.value() == 0x84000088u32,
        FuncId::MemPermGet64.value() == 0xc4000088u32,
        FuncId::MemPermSet32.value() == 0x84000089u32,
        FuncId::MemPermSet64.value() == 0xc4000089u32,
        forall|f: FuncId| #[trigger] FuncId::from_value(f.value()) == Ok::<FuncId, Error>(f),
{
    assert forall|f: FuncId| #[trigger] FuncId::from_value(f.value()) == Ok::<FuncId, Error>(f) by {
        crate::func_id::lemma_func_id_roundtrip(f);
    }
}

/// Every error has the status code that the FF-A specification assigns to it, and
/// `FfaError::try_from` maps each of these codes back to its error and every other code to
/// `UnrecognisedErrorCode`.
pub proof fn lemma_ffa_error_codes(v: i32)
    ensures
        FfaError::NotSupported.code() == -1,
        FfaError::InvalidParameters.code() == -2,
        FfaError::NoMemory.code() == -3,
        FfaError::Busy.code() == -4,
        FfaError::Interrupted.code() == -5,
        FfaError::Denied.code() == -6,
        FfaError::Retry.code() == -7,
        FfaError::Aborted.code() == -8,
        FfaError::NoData.code() == -9,
        forall|e: FfaError| #[trigger] FfaError::from_code(e.code()) == Ok::<FfaError, Error>(e),
        !(-9 <= v <= -1) ==> FfaError::from_code(v) == Err::<FfaError, Error>(
            Error::UnrecognisedErrorCode(v),
        ),
{
}

/// The feature IDs and warm boot types have the values that the FF-A specification assigns.
pub proof fn lemma_argument_values()
    ensures
        FeatureId::NotificationPendingInterrupt.value() == 1,
        FeatureId::ScheduleReceiverInterrupt.value() == 2,
        FeatureId::ManagedExitInterrupt.value() == 3,
        WarmBootType::ExitFromSuspend.value() == 0,
        WarmBootType::ExitFromLowPower.value() == 1,
        DirectMsgArgs::FWK_MSG_BITS == 0x8000_0000u32,
        DirectMsgArgs::VERSION_REQ == 0x8000_0008u32,
        DirectMsgArgs::VERSION_RESP == 0x8000_0009u32,
        DirectMsgArgs::POWER_PSCI_REQ == 0x8000_0000u32,
        DirectMsgArgs::POWER_WARM_BOOT_REQ == 0x8000_0001u32,
        DirectMsgArgs::POWER_PSCI_RESP == 0x8000_0002u32,
        DirectMsgArgs::VM_CREATED == 0x8000_0004u32,
        DirectMsgArgs::VM_CREATED_ACK == 0x8000_0005u32,
        DirectMsgArgs::VM_DESTRUCTED == 0x8000_0006u32,
        DirectMsgArgs::VM_DESTRUCTED_ACK == 0x8000_0007u32,
{
}

/// A console log message may carry 1 to 24 characters in 32-bit registers and 1 to 128 in
/// 64-bit registers, whatever the registers hold; no other count is accepted.
pub proof fn lemma_console_log_counts(c: u8, r32: [u32; 6], r64: [u64; 16])
    ensures
        char_cnt_valid(c, ConsoleLogChars::Reg32(r32)) <==> 1 <= c <= 24,
        char_cnt_valid(c, ConsoleLogChars::Reg64(r64)) <==> 1 <= c <= 128,
{
}

/// `FFA_RXTX_MAP` carries the TX buffer address in `x1`, the RX buffer address in `x2` and the
/// page count in `x3`: `to_regs` writes a mapping of 32-bit addresses as function 0x84000066
/// with them there, one of 64-bit addresses as function 0xc4000066, and zeros after them.
pub proof fn lemma_rxtx_map_registers(
    version: Version,
    rx: u32,
    tx: u32,
    rx64: u64,
    tx64: u64,
    page_cnt: u32,
    len: nat,
)
    requires
        len >= 4,
    ensures
        regs_after_write(
            version,
            Interface::RxTxMap { addr: RxTxAddr::Addr32 { rx, tx }, page_cnt },
            len,
        ) =~= seq![0x84000066u64, tx as u64, rx as u64, page_cnt as u64] + Seq::new(
            (len - 4) as nat,
            |k: int| 0u64,
        ),
        regs_after_write(
            version,
            Interface::RxTxMap { addr: RxTxAddr::Addr64 { rx: rx64, tx: tx64 }, page_cnt },
            len,
        ) =~= seq![0xc4000066u64, tx64, rx64, page_cnt as u64] + Seq::new(
            (len - 4) as nat,
            |k: int| 0u64,
        ),
{
}

/// `from_regs` reads an `FFA_RXTX_MAP` call from where the caller puts it: the TX buffer address
/// from `x1`, the RX buffer address from `x2` and the page count from `x3` (their low 32 bits
/// for function 0x84000066, all 64 bits of the addresses for 0xc4000066).
pub proof fn lemma_rxtx_map_read(version: Version, regs: Seq<u64>)
    requires
        regs.len() >= 8,
    ensures
        regs[0] as u32 == 0x84000066u32 ==> decode_regs(version, regs) == Ok::<Interface, Error>(
            Interface::RxTxMap {
                addr: RxTxAddr::Addr32 { rx: regs[2] as u32, tx: regs[1] as u32 },
                page_cnt: regs[3] as u32,
            },
        ),
        regs[0] as u32 == 0xc4000066u32 ==> decode_regs(version, regs) == Ok::<Interface, Error>(
            Interface::RxTxMap {
                addr: RxTxAddr::Addr64 { rx: regs[2], tx: regs[1] },
                page_cnt: regs[3] as u32,
            },
        ),
{
}

/// The registers `x0`.. that hold `vals`, and zeros in the rest of the eighteen.
pub open spec fn then_zeros(vals: Seq<u64>) -> Seq<u64> {
    vals + Seq::new((18 - vals.len()) as nat, |k: int| 0u64)
}

/// Where the status, setup and scheduling interfaces keep their arguments: the function ID in
/// `x0`, then each argument in the register that the FF-A specification gives it, and zeros in
/// every register that the interface does not use.
pub proof fn lemma_layout_status_setup(
    version: Version,
    target_info: TargetInfo,
    error_code: FfaError,
    success_target: u32,
    r32: [u32; 6],
    r64: [u64; 6],
    r64_2: [u64; 16],
    interrupt_id: u32,
    input_version: Version,
    feat_id: Feature,
    input_properties: u32,
    vm_id: u16,
    uuid: Uuid,
    flags: u32,
    addr32: u32,
    addr64: u64,
)
    ensures
        encode_regs(version, Interface::Error { target_info, error_code }) =~= then_zeros(
            seq![0x84000060u64, target_info.bits() as u64, (error_code.code() as u32) as u64],
        ),
        encode_regs(
            version,
            Interface::Success { target_info: success_target, args: SuccessArgs::Result32(r32) },
        ) =~= then_zeros(
            seq![
                0x84000061u64,
                success_target as u64,
                r32[0] as u64,
                r32[1] as u64,
                r32[2] as u64,
                r32[3] as u64,
                r32[4] as u64,
                r32[5] as u64,
            ],
        ),
        encode_regs(
            version,
            Interface::Success { target_info: success_target, args: SuccessArgs::Result64(r64) },
        ) =~= then_zeros(
            seq![0xc4000061u64, success_target as u64, r64[0], r64[1], r64[2], r64[3], r64[4], r64[5]],
        ),
        encode_regs(
            version,
            Interface::Success { target_info: success_target, args: SuccessArgs::Result64_2(r64_2) },
        ) =~= seq![0xc4000061u64, success_target as u64] + r64_2@,
        encode_regs(version, Interface::Interrupt { target_info, interrupt_id }) =~= then_zeros(
            seq![0x84000062u64, target_info.bits() as u64, interrupt_id as u64],
        ),
        encode_regs(version, Interface::Version { input_version }) =~= then_zeros(
            seq![0x84000063u64, input_version.bits() as u64],
        ),
        encode_regs(version, Interface::VersionOut { output_version: input_version }) =~= then_zeros(
            seq![input_version.bits() as u64],
        ),
        encode_regs(version, Interface::Features { feat_id, input_properties }) =~= then_zeros(
            seq![0x84000064u64, feat_id.bits() as u64, input_properties as u64],
        ),
        encode_regs(version, Interface::RxAcquire { vm_id }) =~= then_zeros(
            seq![0x84000084u64, vm_id as u64],
        ),
        encode_regs(version, Interface::RxRelease { vm_id }) =~= then_zeros(
            seq![0x84000065u64, vm_id as u64],
        ),
        encode_regs(version, Interface::RxTxUnmap { id: vm_id }) =~= then_zeros(
            seq![0x84000067u64, vm_id as u64],
        ),
        encode_regs(version, Interface::PartitionInfoGet { uuid, flags }) =~= then_zeros(
            seq![
                0x84000068u64,
                uuid.le_word_at(0) as u64,
                uuid.le_word_at(1) as u64,
                uuid.le_word_at(2) as u64,
                uuid.le_word_at(3) as u64,
                flags as u64,
            ],
        ),
        encode_regs(version, Interface::IdGet) =~= then_zeros(seq![0x84000069u64]),
        encode_regs(version, Interface::SpmIdGet) =~= then_zeros(seq![0x84000085u64]),
        encode_regs(version, Interface::MsgWait) =~= then_zeros(seq![0x8400006bu64]),
        encode_regs(version, Interface::Yield) =~= then_zeros(seq![0x8400006cu64]),
        encode_regs(version, Interface::Run { target_info }) =~= then_zeros(
            seq![0x8400006du64, target_info.bits() as u64],
        ),
        encode_regs(version, Interface::NormalWorldResume) =~= then_zeros(seq![0x8400007cu64]),
        encode_regs(
            version,
            Interface::SecondaryEpRegister { entrypoint: SecondaryEpRegisterAddr::Addr32(addr32) },
        ) =~= then_zeros(seq![0x84000087u64, addr32 as u64]),
        encode_regs(
            version,
            Interface::SecondaryEpRegister { entrypoint: SecondaryEpRegisterAddr::Addr64(addr64) },
        ) =~= then_zeros(seq![0xc4000087u64, addr64]),
        encode_regs(version, Interface::MsgSend2 { sender_vm_id: vm_id, flags }) =~= then_zeros(
            seq![0x84000086u64, vm_id as u64, flags as u64],
        ),
{
}

/// The 32-bit pairs are packed with the first of the pair in the upper half: a target is
/// `endpoint_id * 2^16 + vcpu_id`, a version `major * 2^16 + minor`, the `x1` of a direct message
/// `source * 2^16 + destination`; a handle is split into its low 32 bits and its high 32 bits,
/// in that order.
pub proof fn lemma_packed_fields(t: TargetInfo, v: Version, src_id: u16, dst_id: u16, h: Handle)
    ensures
        t.bits() == t.endpoint_id * 0x1_0000 + t.vcpu_id,
        v.bits() == v.0 * 0x1_0000 + v.1,
        encode_direct_ids(src_id, dst_id) == src_id * 0x1_0000 + dst_id,
        h.words()[0] == h.0 % 0x1_0000_0000,
        h.words()[1] == h.0 / 0x1_0000_0000,
{
    crate::bits::lemma_packing_arith(t.endpoint_id, t.vcpu_id, h.0);
    crate::bits::lemma_packing_arith(v.0, v.1, h.0);
    crate::bits::lemma_packing_arith(src_id, dst_id, h.0);
}

/// Where the direct messages keep their arguments: the function ID in `x0`, the source and
/// destination endpoints in `x1`, the framework message kind (or 0) in `x2`, the arguments from
/// `x3` on, and zeros in every register that the message does not use.
pub proof fn lemma_layout_direct_messages(
    version: Version,
    src_id: u16,
    dst_id: u16,
    a32: [u32; 5],
    a64: [u64; 5],
    msg_version: Version,
    function_id: u32,
    params32: [u32; 3],
    params64: [u64; 3],
    boot_type: WarmBootType,
    handle: Handle,
    vm_id: u16,
    psci_status: i32,
    sp_status: VmAvailabilityStatus,
    uuid: Uuid,
    args2: DirectMsg2Args,
)
    ensures
        ({
            let ids = encode_direct_ids(src_id, dst_id);
            &&& encode_regs(
                version,
                Interface::MsgSendDirectReq { src_id, dst_id, args: DirectMsgArgs::Args32(a32) },
            ) =~= then_zeros(
                seq![
                    0x8400006fu64,
                    ids,
                    0u64,
                    a32[0] as u64,
                    a32[1] as u64,
                    a32[2] as u64,
                    a32[3] as u64,
                    a32[4] as u64,
                ],
            )
            &&& encode_regs(
                version,
                Interface::MsgSendDirectReq { src_id, dst_id, args: DirectMsgArgs::Args64(a64) },
            ) =~= then_zeros(
                seq![0xc400006fu64, ids, 0u64, a64[0], a64[1], a64[2], a64[3], a64[4]],
            )
            &&& encode_regs(
                version,
                Interface::MsgSendDirectReq {
                    src_id,
                    dst_id,
                    args: DirectMsgArgs::VersionReq { version: msg_version },
                },
            ) =~= then_zeros(seq![0x8400006fu64, ids, 0x8000_0008u64, msg_version.bits() as u64])
            &&& encode_regs(
                version,
                Interface::MsgSendDirectReq {
                    src_id,
                    dst_id,
                    args: DirectMsgArgs::PowerPsciReq32 { function_id, params: params32 },
                },
            ) =~= then_zeros(
                seq![
                    0x8400006fu64,
                    ids,
                    0x8000_0000u64,
                    function_id as u64,
                    params32[0] as u64,
                    params32[1] as u64,
                    params32[2] as u64,
                ],
            )
            &&& encode_regs(
                version,
                Interface::MsgSendDirectReq {
                    src_id,
                    dst_id,
                    args: DirectMsgArgs::PowerPsciReq64 { function_id, params: params64 },
                },
            ) =~= then_zeros(
                seq![
                    0xc400006fu64,
                    ids,
                    0x8000_0000u64,
                    function_id as u64,
                    params64[0],
                    params64[1],
                    params64[2],
                ],
            )
            &&& encode_regs(
                version,
                Interface::MsgSendDirectReq {
                    src_id,
                    dst_id,
                    args: DirectMsgArgs::PowerWarmBootReq { boot_type },
                },
            ) =~= then_zeros(seq![0x8400006fu64, ids, 0x8000_0001u64, boot_type.value() as u64])
            &&& encode_regs(
                version,
                Interface::MsgSendDirectReq {
                    src_id,
                    dst_id,
                    args: DirectMsgArgs::VmCreated { handle, vm_id },
                },
            ) =~= then_zeros(
                seq![
                    0x8400006fu64,
                    ids,
                    0x8000_0004u64,
                    handle.words()[0] as u64,
                    handle.words()[1] as u64,
                    vm_id as u64,
                ],
            )
            &&& encode_regs(
                version,
                Interface::MsgSendDirectReq {
                    src_id,
                    dst_id,
                    args: DirectMsgArgs::VmDestructed { handle, vm_id },
                },
            ) =~= then_zeros(
                seq![
                    0x8400006fu64,
                    ids,
                    0x8000_0006u64,
                    handle.words()[0] as u64,
                    handle.words()[1] as u64,
                    vm_id as u64,
                ],
            )
            &&& encode_regs(
                version,
                Interface::MsgSendDirectResp { src_id, dst_id, args: DirectMsgArgs::Args32(a32) },
            ) =~= then_zeros(
                seq![
                    0x84000070u64,
                    ids,
                    0u64,
                    a32[0] as u64,
                    a32[1] as u64,
                    a32[2] as u64,
                    a32[3] as u64,
                    a32[4] as u64,
                ],
            )
            &&& encode_regs(
                version,
                Interface::MsgSendDirectResp { src_id, dst_id, args: DirectMsgArgs::Args64(a64) },
            ) =~= then_zeros(
                seq![0xc4000070u64, ids, 0u64, a64[0], a64[1], a64[2], a64[3], a64[4]],
            )
            &&& encode_regs(
                version,
                Interface::MsgSendDirectResp {
                    src_id,
                    dst_id,
                    args: DirectMsgArgs::VersionResp { version: None },
                },
            ) =~= then_zeros(seq![0x84000070u64, ids, 0x8000_0009u64, 0xffff_ffff_ffff_ffffu64])
            &&& encode_regs(
                version,
                Interface::MsgSendDirectResp {
                    src_id,
                    dst_id,
                    args: DirectMsgArgs::VersionResp { version: Some(msg_version) },
                },
            ) =~= then_zeros(seq![0x84000070u64, ids, 0x8000_0009u64, msg_version.bits() as u64])
            &&& encode_regs(
                version,
                Interface::MsgSendDirectResp {
                    src_id,
                    dst_id,
                    args: DirectMsgArgs::PowerPsciResp { psci_status },
                },
            ) =~= then_zeros(seq![0x84000070u64, ids, 0x8000_0002u64, psci_status as u64])
            &&& encode_regs(
                version,
                Interface::MsgSendDirectResp {
                    src_id,
                    dst_id,
                    args: DirectMsgArgs::VmCreatedAck { sp_status },
                },
            ) =~= then_zeros(
                seq![0x84000070u64, ids, 0x8000_0005u64, 0u64, sp_status.code() as u64],
            )
            &&& encode_regs(
                version,
                Interface::MsgSendDirectResp {
                    src_id,
                    dst_id,
                    args: DirectMsgArgs::VmDestructedAck { sp_status },
                },
            ) =~= then_zeros(seq![0x84000070u64, ids, 0x8000_0007u64, sp_status.code() as u64])
            &&& encode_regs(
                version,
                Interface::MsgSendDirectReq2 { src_id, dst_id, uuid, args: args2 },
            ) =~= seq![
                0xc400008du64,
                ids,
                be_u64(uuid@.subrange(0, 8)),
                be_u64(uuid@.subrange(8, 16)),
            ] + args2.0@
            &&& encode_regs(version, Interface::MsgSendDirectResp2 { src_id, dst_id, args: args2 })
                =~= seq![0xc400008eu64, ids, 0u64, 0u64] + args2.0@
        }),
{
    crate::bits::lemma_low_half_minus_one(0);
}

/// Where the memory management and console interfaces keep their arguments: the function ID in
/// `x0` (the 64-bit one when an address is 64 bits wide), then each argument in the register that
/// the FF-A specification gives it, and zeros in every register that the interface does not use.
pub proof fn lemma_layout_memory_console(
    version: Version,
    total_len: u32,
    frag_len: u32,
    addr32: u32,
    addr64: u64,
    page_cnt: u32,
    handle: Handle,
    flags: u32,
    mem_perm: u32,
    char_cnt: u8,
    chars32: [u32; 6],
    chars64: [u64; 16],
)
    ensures
        ({
            let none = then_zeros(seq![0u64, total_len as u64, frag_len as u64]);
            let buf32 = Some(MemOpBuf::Buf32 { addr: addr32, page_cnt });
            let with32 = seq![total_len as u64, frag_len as u64, addr32 as u64, page_cnt as u64];
            let buf64 = Some(MemOpBuf::Buf64 { addr: addr64, page_cnt });
            let with64 = seq![total_len as u64, frag_len as u64, addr64, page_cnt as u64];
            &&& encode_regs(version, Interface::MemDonate { total_len, frag_len, buf: None })
                =~= none.update(0, 0x84000071u64)
            &&& encode_regs(version, Interface::MemDonate { total_len, frag_len, buf: buf32 })
                =~= then_zeros(seq![0x84000071u64] + with32)
            &&& encode_regs(version, Interface::MemDonate { total_len, frag_len, buf: buf64 })
                =~= then_zeros(seq![0xc4000071u64] + with64)
            &&& encode_regs(version, Interface::MemLend { total_len, frag_len, buf: None })
                =~= none.update(0, 0x84000072u64)
            &&& encode_regs(version, Interface::MemLend { total_len, frag_len, buf: buf32 })
                =~= then_zeros(seq![0x84000072u64] + with32)
            &&& encode_regs(version, Interface::MemLend { total_len, frag_len, buf: buf64 })
                =~= then_zeros(seq![0xc4000072u64] + with64)
            &&& encode_regs(version, Interface::MemShare { total_len, frag_len, buf: None })
                =~= none.update(0, 0x84000073u64)
            &&& encode_regs(version, Interface::MemShare { total_len, frag_len, buf: buf32 })
                =~= then_zeros(seq![0x84000073u64] + with32)
            &&& encode_regs(version, Interface::MemShare { total_len, frag_len, buf: buf64 })
                =~= then_zeros(seq![0xc4000073u64] + with64)
            &&& encode_regs(version, Interface::MemRetrieveReq { total_len, frag_len, buf: None })
                =~= none.update(0, 0x84000074u64)
            &&& encode_regs(version, Interface::MemRetrieveReq { total_len, frag_len, buf: buf32 })
                =~= then_zeros(seq![0x84000074u64] + with32)
            &&& encode_regs(version, Interface::MemRetrieveReq { total_len, frag_len, buf: buf64 })
                =~= then_zeros(seq![0xc4000074u64] + with64)
            &&& encode_regs(version, Interface::MemRetrieveResp { total_len, frag_len })
                =~= none.update(0, 0x84000075u64)
            &&& encode_regs(version, Interface::MemRelinquish) =~= then_zeros(seq![0x84000076u64])
            &&& encode_regs(version, Interface::MemReclaim { handle, flags }) =~= then_zeros(
                seq![
                    0x84000077u64,
                    handle.words()[0] as u64,
                    handle.words()[1] as u64,
                    flags as u64,
                ],
            )
            &&& version.spec_older_than(Version(1, 3)) ==> encode_regs(
                version,
                Interface::MemPermGet { addr: MemAddr::Addr32(addr32), page_cnt: None },
            ) =~= then_zeros(seq![0x84000088u64, addr32 as u64])
            &&& !version.spec_older_than(Version(1, 3)) ==> encode_regs(
                version,
                Interface::MemPermGet { addr: MemAddr::Addr32(addr32), page_cnt: Some(page_cnt) },
            ) =~= then_zeros(seq![0x84000088u64, addr32 as u64, page_cnt as u64])
            &&& !version.spec_older_than(Version(1, 3)) ==> encode_regs(
                version,
                Interface::MemPermGet { addr: MemAddr::Addr64(addr64), page_cnt: Some(page_cnt) },
            ) =~= then_zeros(seq![0xc4000088u64, addr64, page_cnt as u64])
            &&& encode_regs(
                version,
                Interface::MemPermSet { addr: MemAddr::Addr32(addr32), page_cnt, mem_perm },
            ) =~= then_zeros(seq![0x84000089u64, addr32 as u64, page_cnt as u64, mem_perm as u64])
            &&& encode_regs(
                version,
                Interface::MemPermSet { addr: MemAddr::Addr64(addr64), page_cnt, mem_perm },
            ) =~= then_zeros(seq![0xc4000089u64, addr64, page_cnt as u64, mem_perm as u64])
            &&& encode_regs(
                version,
                Interface::ConsoleLog { char_cnt, char_lists: ConsoleLogChars::Reg32(chars32) },
            ) =~= then_zeros(
                seq![
                    0x8400008au64,
                    char_cnt as u64,
                    chars32[0] as u64,
                    chars32[1] as u64,
                    chars32[2] as u64,
                    chars32[3] as u64,
                    chars32[4] as u64,
                    chars32[5] as u64,
                ],
            )
            &&& encode_regs(
                version,
                Interface::ConsoleLog { char_cnt, char_lists: ConsoleLogChars::Reg64(chars64) },
            ) =~= seq![0xc400008au64, char_cnt as u64] + chars64@
        }),
{
}

/// What `from_regs` reads from a 32-bit direct message (`w0` = 0x8400006f for a request,
/// 0x84000070 for a response): the source endpoint from bits [31:16] of `w1`, the destination
/// from bits [15:0]; plain arguments from `w3`..`w7` when bit 31 of `w2` is clear; otherwise the
/// framework message that `w2` names, and `UnrecognisedFwkMsg` for any kind it does not know.
pub proof fn lemma_read_direct_messages32(version: Version, regs: Seq<u64>)
    requires
        regs.len() >= 8,
        regs[0] as u32 == 0x8400006fu32 || regs[0] as u32 == 0x84000070u32,
    ensures
        ({
            let w2 = regs[2] as u32;
            let w3 = regs[3] as u32;
            let src_id = (regs[1] >> 16u64) as u16;
            let dst_id = regs[1] as u16;
            let plain = DirectMsgArgs::Args32(
                [w3, regs[4] as u32, regs[5] as u32, regs[6] as u32, regs[7] as u32],
            );
            let req = regs[0] as u32 == 0x8400006fu32;
            &&& w2 < 0x8000_0000u32 && req ==> decode_regs(version, regs) == Ok::<
                Interface,
                Error,
            >(Interface::MsgSendDirectReq { src_id, dst_id, args: plain })
            &&& w2 < 0x8000_0000u32 && !req ==> decode_regs(version, regs) == Ok::<
                Interface,
                Error,
            >(Interface::MsgSendDirectResp { src_id, dst_id, args: plain })
            &&& req && w2 == 0x8000_0008u32 && w3 < 0x8000_0000u32 ==> decode_regs(version, regs)
                == Ok::<Interface, Error>(
                Interface::MsgSendDirectReq {
                    src_id,
                    dst_id,
                    args: DirectMsgArgs::VersionReq {
                        version: Version((w3 >> 16u32) as u16, w3 as u16),
                    },
                },
            )
            &&& req && w2 == 0x8000_0008u32 && w3 >= 0x8000_0000u32 ==> decode_regs(version, regs)
                == Err::<Interface, Error>(Error::InvalidVersion(w3))
            &&& req && w2 == 0x8000_0000u32 ==> decode_regs(version, regs) == Ok::<
                Interface,
                Error,
            >(
                Interface::MsgSendDirectReq {
                    src_id,
                    dst_id,
                    args: DirectMsgArgs::PowerPsciReq32 {
                        function_id: w3,
                        params: [regs[4] as u32, regs[5] as u32, regs[6] as u32],
                    },
                },
            )
            &&& req && w2 == 0x8000_0004u32 ==> decode_regs(version, regs) == Ok::<
                Interface,
                Error,
            >(
                Interface::MsgSendDirectReq {
                    src_id,
                    dst_id,
                    args: DirectMsgArgs::VmCreated {
                        handle: Handle(((regs[4] as u32) * 0x1_0000_0000 + w3) as u64),
                        vm_id: regs[5] as u16,
                    },
                },
            )
            &&& req && w2 == 0x8000_0006u32 ==> decode_regs(version, regs) == Ok::<
                Interface,
                Error,
            >(
                Interface::MsgSendDirectReq {
                    src_id,
                    dst_id,
                    args: DirectMsgArgs::VmDestructed {
                        handle: Handle(((regs[4] as u32) * 0x1_0000_0000 + w3) as u64),
                        vm_id: regs[5] as u16,
                    },
                },
            )
            &&& !req && w2 == 0x8000_0009u32 && w3 != 0xffff_ffffu32 && w3 < 0x8000_0000u32
                ==> decode_regs(version, regs) == Ok::<Interface, Error>(
                Interface::MsgSendDirectResp {
                    src_id,
                    dst_id,
                    args: DirectMsgArgs::VersionResp {
                        version: Some(Version((w3 >> 16u32) as u16, w3 as u16)),
                    },
                },
            )
            &&& !req && w2 == 0x8000_0002u32 ==> decode_regs(version, regs) == Ok::<
                Interface,
                Error,
            >(
                Interface::MsgSendDirectResp {
                    src_id,
                    dst_id,
                    args: DirectMsgArgs::PowerPsciResp { psci_status: regs[3] as i32 },
                },
            )
            &&& req && w2 >= 0x8000_0000u32 && !(w2 == 0x8000_0000u32 || w2 == 0x8000_0001u32
                || w2 == 0x8000_0004u32 || w2 == 0x8000_0006u32 || w2 == 0x8000_0008u32)
                ==> decode_regs(version, regs) == Err::<Interface, Error>(
                Error::UnrecognisedFwkMsg(w2),
            )
            &&& !req && w2 >= 0x8000_0000u32 && !(w2 == 0x8000_0002u32 || w2 == 0x8000_0005u32
                || w2 == 0x8000_0007u32 || w2 == 0x8000_0009u32) ==> decode_regs(version, regs)
                == Err::<Interface, Error>(Error::UnrecognisedFwkMsg(w2))
        }),
{
    crate::bits::lemma_bit31_clear(regs[2] as u32);
    crate::bits::lemma_bit31_clear(regs[3] as u32);
    crate::bits::lemma_fwk_msg_kinds();
    crate::bits::lemma_handle_words(regs[3] as u32, regs[4] as u32);
    crate::bits::lemma_low_half_minus_one(regs[3]);
}

/// What `from_regs` reads from a memory transaction: the total length from `w1`, the fragment
/// length from `w2`, and a buffer only when both `x3` (its address) and `x4` (its page count)
/// are non-zero; the 32-bit functions take the low 32 bits of the address, the 64-bit ones all
/// of it.
pub proof fn lemma_read_memory_transactions(version: Version, regs: Seq<u64>)
    requires
        regs.len() >= 8,
    ensures
        ({
            let w0 = regs[0] as u32;
            let total_len = regs[1] as u32;
            let frag_len = regs[2] as u32;
            let given = regs[3] != 0 && regs[4] != 0;
            let buf32 = if given {
                Some(MemOpBuf::Buf32 { addr: regs[3] as u32, page_cnt: regs[4] as u32 })
            } else {
                None
            };
            let buf64 = if given {
                Some(MemOpBuf::Buf64 { addr: regs[3], page_cnt: regs[4] as u32 })
            } else {
                None
            };
            &&& w0 == 0x84000071u32 ==> decode_regs(version, regs) == Ok::<Interface, Error>(
                Interface::MemDonate { total_len, frag_len, buf: buf32 },
            )
            &&& w0 == 0xc4000071u32 ==> decode_regs(version, regs) == Ok::<Interface, Error>(
                Interface::MemDonate { total_len, frag_len, buf: buf64 },
            )
            &&& w0 == 0x84000072u32 ==> decode_regs(version, regs) == Ok::<Interface, Error>(
                Interface::MemLend { total_len, frag_len, buf: buf32 },
            )
            &&& w0 == 0xc4000072u32 ==> decode_regs(version, regs) == Ok::<Interface, Error>(
                Interface::MemLend { total_len, frag_len, buf: buf64 },
            )
            &&& w0 == 0x84000073u32 ==> decode_regs(version, regs) == Ok::<Interface, Error>(
                Interface::MemShare { total_len, frag_len, buf: buf32 },
            )
            &&& w0 == 0xc4000073u32 ==> decode_regs(version, regs) == Ok::<Interface, Error>(
                Interface::MemShare { total_len, frag_len, buf: buf64 },
            )
            &&& w0 == 0x84000074u32 ==> decode_regs(version, regs) == Ok::<Interface, Error>(
                Interface::MemRetrieveReq { total_len, frag_len, buf: buf32 },
            )
            &&& w0 == 0xc4000074u32 ==> decode_regs(version, regs) == Ok::<Interface, Error>(
                Interface::MemRetrieveReq { total_len, frag_len, buf: buf64 },
            )
            &&& w0 == 0x84000075u32 ==> decode_regs(version, regs) == Ok::<Interface, Error>(
                Interface::MemRetrieveResp { total_len, frag_len },
            )
        }),
{
}

/// A value in `w0` that names no FF-A function is refused as `UnrecognisedFunctionId`, with
/// that value.
pub proof fn lemma_read_unknown_function(version: Version, regs: Seq<u64>)
    requires
        regs.len() >= 1,
        !(exists|f: FuncId| #[trigger] f.value() == regs[0] as u32),
    ensures
        decode_regs(version, regs) == Err::<Interface, Error>(
            Error::UnrecognisedFunctionId(regs[0] as u32),
        ),
{
    crate::func_id::lemma_func_id_value_unique(regs[0] as u32);
}

/// Versions are ordered by major number, then minor number; from v1.2 on a 64-bit
/// `FFA_SUCCESS` carries its results in `x2`..`x17` rather than `x2`..`x7`, and from v1.3 on
/// `FFA_MEM_PERM_GET` carries a page count in `w2`. `to_regs` accepts each form exactly at the
/// versions that have it, and `from_regs` reads the form of the version it is given.
pub proof fn lemma_version_dependent_forms(
    version: Version,
    other: Version,
    target_info: u32,
    r32: [u32; 6],
    r64: [u64; 6],
    r64_2: [u64; 16],
    addr: MemAddr,
    page_cnt: Option<u32>,
    regs: Seq<u64>,
)
    requires
        regs.len() >= 18,
    ensures
        version.spec_older_than(other) <==> version.0 * 0x1_0000 + version.1 < other.0 * 0x1_0000
            + other.1,
        (Interface::Success { target_info, args: SuccessArgs::Result32(r32) }).encodable(version)
            <==> version.0 < 1 || (version.0 == 1 && version.1 < 2),
        (Interface::Success { target_info, args: SuccessArgs::Result64(r64) }).encodable(version)
            <==> version.0 < 1 || (version.0 == 1 && version.1 < 2),
        (Interface::Success { target_info, args: SuccessArgs::Result64_2(r64_2) }).encodable(version)
            <==> version.0 > 1 || (version.0 == 1 && version.1 >= 2),
        (Interface::MemPermGet { addr, page_cnt }).encodable(version) <==> (page_cnt is Some
            <==> (version.0 > 1 || (version.0 == 1 && version.1 >= 3))),
        regs[0] as u32 == 0xc4000061u32 && (version.0 < 1 || (version.0 == 1 && version.1 < 2))
            ==> decode_regs(version, regs) == Ok::<Interface, Error>(
            Interface::Success {
                target_info: regs[1] as u32,
                args: SuccessArgs::Result64([regs[2], regs[3], regs[4], regs[5], regs[6], regs[7]]),
            },
        ),
        regs[0] as u32 == 0xc4000061u32 && (version.0 > 1 || (version.0 == 1 && version.1 >= 2))
            ==> (decode_regs(version, regs) matches Ok(
            Interface::Success { target_info: t, args: SuccessArgs::Result64_2(r) },
        ) && t == regs[1] as u32 && r@ == regs.subrange(2, 18)),
        regs[0] as u32 == 0x84000088u32 ==> decode_regs(version, regs) == Ok::<Interface, Error>(
            Interface::MemPermGet {
                addr: MemAddr::Addr32(regs[1] as u32),
                page_cnt: if version.0 > 1 || (version.0 == 1 && version.1 >= 3) {
                    Some(regs[2] as u32)
                } else {
                    None
                },
            },
        ),
{
    if regs[0] as u32 == 0xc4000061u32 && (version.0 > 1 || (version.0 == 1 && version.1 >= 2)) {
        let r = crate::decode::regs_2_to_17(regs);
        assert(r@ =~= regs.subrange(2, 18));
    }
}

/// How a UUID's bytes go into registers: `FFA_PARTITION_INFO_GET` puts bytes `4k`..`4k+3` into
/// `w(k+1)` least significant first, and the v1.2 direct request puts bytes 0..7 into `x2` and
/// bytes 8..15 into `x3`, most significant first.
pub proof fn lemma_uuid_byte_order(uuid: Uuid, k: int)
    requires
        0 <= k < 4,
    ensures
        uuid.le_word_at(k) == uuid@[4 * k] + uuid@[4 * k + 1] * 0x100 + uuid@[4 * k + 2] * 0x1_0000
            + uuid@[4 * k + 3] * 0x100_0000,
        be_u64(uuid@.subrange(8 * (k % 2), 8 * (k % 2) + 8)) == uuid@[8 * (k % 2)]
            * 0x100_0000_0000_0000 + uuid@[8 * (k % 2) + 1] * 0x1_0000_0000_0000 + uuid@[8 * (k % 2)
            + 2] * 0x100_0000_0000 + uuid@[8 * (k % 2) + 3] * 0x1_0000_0000 + uuid@[8 * (k % 2) + 4]
            * 0x100_0000 + uuid@[8 * (k % 2) + 5] * 0x1_0000 + uuid@[8 * (k % 2) + 6] * 0x100
            + uuid@[8 * (k % 2) + 7],
{
    let b = uuid@;
    crate::bits::lemma_byte_weights(b[4 * k], b[4 * k + 1], b[4 * k + 2], b[4 * k + 3], 0, 0, 0, 0);
    let h = 8 * (k % 2);
    crate::bits::lemma_byte_weights(
        b[h],
        b[h + 1],
        b[h + 2],
        b[h + 3],
        b[h + 4],
        b[h + 5],
        b[h + 6],
        b[h + 7],
    );
}

} // verus!
