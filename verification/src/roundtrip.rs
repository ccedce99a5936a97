//! What parsing gives back of what was written into the registers.
use crate::args::{
    lemma_feature_roundtrip, lemma_vm_availability_roundtrip, lemma_warm_boot_type_roundtrip,
    ConsoleLogChars, DirectMsgArgs, MemOpBuf, SuccessArgs, VmAvailabilityStatus,
};
use crate::decode::{decode_fid, decode_regs, regs_readable};
use crate::encode::{encode_regs, regs_after_write};
use crate::error::{lemma_ffa_error_code_roundtrip, Error, FfaError};
use crate::func_id::lemma_func_id_roundtrip;
use crate::func_id::FuncId;
use crate::interface::Interface;
use crate::memory_management::lemma_handle_roundtrip;
use crate::uuid_repr::{be_u64, lemma_uuid_view_injective, Uuid};
use crate::version::{lemma_version_roundtrip, Version};
use vstd::prelude::*;

verus! {

/// Whether a memory transaction's buffer descriptor survives the registers: it is absent, or
/// both its address and its page count are non-zero (a zero in either reads back as no buffer).
pub open spec fn mem_buf_survives(buf: Option<MemOpBuf>) -> bool {
    match buf {
        Some(MemOpBuf::Buf32 { addr, page_cnt }) => addr != 0 && page_cnt != 0,
        Some(MemOpBuf::Buf64 { addr, page_cnt }) => addr != 0 && page_cnt != 0,
        None => true,
    }
}

/// Whether the interface reads back as itself from its registers. Three kinds do not:
/// `VersionOut`, whose `w0` holds a version rather than a function ID; a memory transaction
/// whose buffer has a zero address or page count; and a `VmCreatedAck` that reports an error,
/// whose status is written into `w4` but read from `w3`.
pub open spec fn survives_regs(i: Interface) -> bool {
    match i {
        Interface::VersionOut { .. } => false,
        Interface::MemDonate { buf, .. }
        | Interface::MemLend { buf, .. }
        | Interface::MemShare { buf, .. }
        | Interface::MemRetrieveReq { buf, .. } => mem_buf_survives(buf),
        Interface::MsgSendDirectResp { args, .. } => match args {
            DirectMsgArgs::VmCreatedAck { sp_status } => sp_status == VmAvailabilityStatus::Success,
            _ => true,
        },
        _ => true,
    }
}

/// Whether parsing the registers written for `i` at `version`, with the ID of `i`'s function in
/// `x0`, gives `i` back.
pub open spec fn reads_back(version: Version, i: Interface) -> bool {
    decode_fid(version, i.spec_function_id().unwrap(), encode_regs(version, i)) == Ok::<
        Interface,
        Error,
    >(i)
}

/// Writing an interface into registers with `to_regs` and parsing them with `from_regs` at the
/// same version gives the interface back, for every interface that `to_regs` accepts at that
/// version and that survives the registers; and `from_regs` accepts the registers written. An
/// 18-register buffer (`x0`..`x17`) holds exactly the encoding after `to_regs`.
pub proof fn lemma_regs_roundtrip(version: Version, i: Interface)
    requires
        i.encodable(version),
        survives_regs(i),
    ensures
        regs_after_write(version, i, 18) == encode_regs(version, i),
        regs_readable(version, encode_regs(version, i)),
        decode_regs(version, encode_regs(version, i)) == Ok::<Interface, Error>(i),
{
    let regs = encode_regs(version, i);
    assert(regs_after_write(version, i, 18) =~= regs);
    let f = i.spec_function_id().unwrap();
    lemma_func_id_roundtrip(f);
    assert(regs[0] as u32 == f.value());
    match i {
        Interface::Error { .. } => lemma_error_reads_back(version, i),
        Interface::Success { .. } => lemma_success_reads_back(version, i),
        Interface::Interrupt { .. } | Interface::Run { .. } => lemma_target_reads_back(version, i),
        Interface::Version { .. } | Interface::Features { .. } => lemma_version_features_reads_back(
            version,
            i,
        ),
        Interface::PartitionInfoGet { .. } => lemma_partition_info_reads_back(version, i),
        Interface::MsgSendDirectReq { .. } => lemma_direct_req_reads_back(version, i),
        Interface::MsgSendDirectResp { .. } => lemma_direct_resp_reads_back(version, i),
        Interface::MsgSendDirectReq2 { .. }
        | Interface::MsgSendDirectResp2 { .. } => lemma_direct2_reads_back(version, i),
        Interface::ConsoleLog { .. } => lemma_console_log_reads_back(version, i),
        Interface::MemDonate { .. }
        | Interface::MemLend { .. }
        | Interface::MemShare { .. }
        | Interface::MemRetrieveReq { .. }
        | Interface::MemRetrieveResp { .. }
        | Interface::MemRelinquish
        | Interface::MemReclaim { .. }
        | Interface::MemPermGet { .. }
        | Interface::MemPermSet { .. } => lemma_mem_reads_back(version, i),
        _ => lemma_simple_reads_back(version, i),
    }
}

proof fn lemma_error_reads_back(version: Version, i: Interface)
    requires
        i is Error,
    ensures
        reads_back(version, i),
{
    if let Interface::Error { target_info, error_code } = i {
        crate::bits::lemma_i32_through_register(error_code.code());
        lemma_ffa_error_code_roundtrip(error_code);
        crate::args::lemma_target_info_roundtrip(target_info, 0);
    }
}

proof fn lemma_success_reads_back(version: Version, i: Interface)
    requires
        i is Success,
        i.encodable(version),
    ensures
        reads_back(version, i),
{
    let regs = encode_regs(version, i);
    if let Interface::Success { target_info, args } = i {
        match args {
            SuccessArgs::Result32(r) => {
                let s = [
                    regs[2] as u32,
                    regs[3] as u32,
                    regs[4] as u32,
                    regs[5] as u32,
                    regs[6] as u32,
                    regs[7] as u32,
                ];
                assert(s@ =~= r@);
                vstd::array::axiom_array_ext_equal(s, r);
            },
            SuccessArgs::Result64(r) => {
                let s = [regs[2], regs[3], regs[4], regs[5], regs[6], regs[7]];
                assert(s@ =~= r@);
                vstd::array::axiom_array_ext_equal(s, r);
            },
            SuccessArgs::Result64_2(r) => {
                assert(crate::decode::regs_2_to_17(regs)@ =~= r@);
                vstd::array::axiom_array_ext_equal(crate::decode::regs_2_to_17(regs), r);
            },
        }
    }
}

proof fn lemma_target_reads_back(version: Version, i: Interface)
    requires
        i is Interrupt || i is Run,
    ensures
        reads_back(version, i),
{
    match i {
        Interface::Interrupt { target_info, .. } => {
            crate::args::lemma_target_info_roundtrip(target_info, 0);
        },
        Interface::Run { target_info } => {
            crate::args::lemma_target_info_roundtrip(target_info, 0);
        },
        _ => {},
    }
}

proof fn lemma_version_features_reads_back(version: Version, i: Interface)
    requires
        i is Version || i is Features,
        i.encodable(version),
    ensures
        reads_back(version, i),
{
    match i {
        Interface::Version { input_version } => {
            lemma_version_roundtrip(input_version);
        },
        Interface::Features { feat_id, .. } => {
            lemma_feature_roundtrip(feat_id);
        },
        _ => {},
    }
}

proof fn lemma_partition_info_reads_back(version: Version, i: Interface)
    requires
        i is PartitionInfoGet,
    ensures
        reads_back(version, i),
{
    if let Interface::PartitionInfoGet { uuid, .. } = i {
        lemma_uuid_le_words_roundtrip(uuid);
    }
}

proof fn lemma_direct2_reads_back(version: Version, i: Interface)
    requires
        i is MsgSendDirectReq2 || i is MsgSendDirectResp2,
    ensures
        reads_back(version, i),
{
    let regs = encode_regs(version, i);
    match i {
        Interface::MsgSendDirectReq2 { src_id, dst_id, uuid, args } => {
            crate::bits::lemma_u64_id_halves(src_id, dst_id);
            lemma_uuid_u64_pair_roundtrip(uuid);
            assert(crate::decode::regs_4_to_17(regs)@ =~= args.0@);
            vstd::array::axiom_array_ext_equal(crate::decode::regs_4_to_17(regs), args.0);
        },
        Interface::MsgSendDirectResp2 { src_id, dst_id, args } => {
            crate::bits::lemma_u64_id_halves(src_id, dst_id);
            assert(crate::decode::regs_4_to_17(regs)@ =~= args.0@);
            vstd::array::axiom_array_ext_equal(crate::decode::regs_4_to_17(regs), args.0);
        },
        _ => {},
    }
}

proof fn lemma_console_log_reads_back(version: Version, i: Interface)
    requires
        i is ConsoleLog,
    ensures
        reads_back(version, i),
{
    let regs = encode_regs(version, i);
    if let Interface::ConsoleLog { char_lists, .. } = i {
        match char_lists {
            ConsoleLogChars::Reg32(r) => {
                let s = [
                    regs[2] as u32,
                    regs[3] as u32,
                    regs[4] as u32,
                    regs[5] as u32,
                    regs[6] as u32,
                    regs[7] as u32,
                ];
                assert(s@ =~= r@);
                vstd::array::axiom_array_ext_equal(s, r);
            },
            ConsoleLogChars::Reg64(r) => {
                assert(crate::decode::regs_2_to_17(regs)@ =~= r@);
                vstd::array::axiom_array_ext_equal(crate::decode::regs_2_to_17(regs), r);
            },
        }
    }
}

proof fn lemma_mem_reads_back(version: Version, i: Interface)
    requires
        i is MemDonate || i is MemLend || i is MemShare || i is MemRetrieveReq
            || i is MemRetrieveResp || i is MemRelinquish || i is MemReclaim || i is MemPermGet
            || i is MemPermSet,
        i.encodable(version),
        survives_regs(i),
    ensures
        reads_back(version, i),
{
    if let Interface::MemReclaim { handle, .. } = i {
        lemma_handle_roundtrip(handle);
    }
}

proof fn lemma_simple_reads_back(version: Version, i: Interface)
    requires
        i is RxAcquire || i is RxRelease || i is RxTxMap || i is RxTxUnmap || i is IdGet
            || i is SpmIdGet || i is MsgWait || i is Yield || i is NormalWorldResume
            || i is SecondaryEpRegister || i is MsgSend2,
    ensures
        reads_back(version, i),
{
}

proof fn lemma_direct_req_reads_back(version: Version, i: Interface)
    requires
        i is MsgSendDirectReq,
        i.encodable(version),
    ensures
        reads_back(version, i),
{
    let regs = encode_regs(version, i);
    crate::bits::lemma_fwk_msg_kinds();
    if let Interface::MsgSendDirectReq { src_id, dst_id, args } = i {
        crate::bits::lemma_u64_id_halves(src_id, dst_id);
        match args {
            DirectMsgArgs::Args32(a) => {
                let s = [
                    regs[3] as u32,
                    regs[4] as u32,
                    regs[5] as u32,
                    regs[6] as u32,
                    regs[7] as u32,
                ];
                assert(s@ =~= a@);
                vstd::array::axiom_array_ext_equal(s, a);
            },
            DirectMsgArgs::Args64(a) => {
                let s = [regs[3], regs[4], regs[5], regs[6], regs[7]];
                assert(s@ =~= a@);
                vstd::array::axiom_array_ext_equal(s, a);
            },
            DirectMsgArgs::VersionReq { version: v } => {
                lemma_version_roundtrip(v);
            },
            DirectMsgArgs::PowerPsciReq32 { params, .. } => {
                let s = [regs[4] as u32, regs[5] as u32, regs[6] as u32];
                assert(s@ =~= params@);
                vstd::array::axiom_array_ext_equal(s, params);
            },
            DirectMsgArgs::PowerPsciReq64 { params, .. } => {
                let s = [regs[4], regs[5], regs[6]];
                assert(s@ =~= params@);
                vstd::array::axiom_array_ext_equal(s, params);
            },
            DirectMsgArgs::PowerWarmBootReq { boot_type } => {
                lemma_warm_boot_type_roundtrip(boot_type);
            },
            DirectMsgArgs::VmCreated { handle, .. } | DirectMsgArgs::VmDestructed { handle, .. } => {
                let s = [regs[3] as u32, regs[4] as u32];
                assert(s@ =~= handle.words()@);
                vstd::array::axiom_array_ext_equal(s, handle.words());
                lemma_handle_roundtrip(handle);
            },
            _ => {},
        }
    }
}

proof fn lemma_direct_resp_reads_back(version: Version, i: Interface)
    requires
        i is MsgSendDirectResp,
        i.encodable(version),
        survives_regs(i),
    ensures
        reads_back(version, i),
{
    let regs = encode_regs(version, i);
    crate::bits::lemma_fwk_msg_kinds();
    if let Interface::MsgSendDirectResp { src_id, dst_id, args } = i {
        crate::bits::lemma_u64_id_halves(src_id, dst_id);
        match args {
            DirectMsgArgs::Args32(a) => {
                let s = [
                    regs[3] as u32,
                    regs[4] as u32,
                    regs[5] as u32,
                    regs[6] as u32,
                    regs[7] as u32,
                ];
                assert(s@ =~= a@);
                vstd::array::axiom_array_ext_equal(s, a);
            },
            DirectMsgArgs::Args64(a) => {
                let s = [regs[3], regs[4], regs[5], regs[6], regs[7]];
                assert(s@ =~= a@);
                vstd::array::axiom_array_ext_equal(s, a);
            },
            DirectMsgArgs::VersionResp { version: v } => {
                crate::bits::lemma_i32_through_register(FfaError::NotSupported.code());
                match v {
                    Some(ver) => {
                        lemma_version_roundtrip(ver);
                        crate::bits::lemma_bit31_clear(ver.bits());
                    },
                    None => {},
                }
            },
            DirectMsgArgs::PowerPsciResp { psci_status } => {
                crate::bits::lemma_i32_through_register(psci_status);
            },
            DirectMsgArgs::VmCreatedAck { sp_status } => {},
            DirectMsgArgs::VmDestructedAck { sp_status } => {
                crate::bits::lemma_i32_through_register(sp_status.code());
                lemma_vm_availability_roundtrip(sp_status);
            },
            _ => {},
        }
    }
}

/// The four little-endian words of a UUID, read back as bytes, give the UUID.
pub proof fn lemma_uuid_le_words_roundtrip(u: Uuid)
    ensures
        Uuid::spec_from_le_words(u.le_word_at(0), u.le_word_at(1), u.le_word_at(2), u.le_word_at(3))
            == u,
{
    let b = u.0;
    crate::bits::lemma_le_word_bytes(b[0], b[1], b[2], b[3]);
    crate::bits::lemma_le_word_bytes(b[4], b[5], b[6], b[7]);
    crate::bits::lemma_le_word_bytes(b[8], b[9], b[10], b[11]);
    crate::bits::lemma_le_word_bytes(b[12], b[13], b[14], b[15]);
    let v = Uuid::spec_from_le_words(
        u.le_word_at(0),
        u.le_word_at(1),
        u.le_word_at(2),
        u.le_word_at(3),
    );
    assert(v.0@ =~= u.0@);
    lemma_uuid_view_injective(v, u);
}

/// The two big-endian halves of a UUID, joined again, give the UUID.
pub proof fn lemma_uuid_u64_pair_roundtrip(u: Uuid)
    ensures
        Uuid::spec_from_u64_pair(be_u64(u@.subrange(0, 8)), be_u64(u@.subrange(8, 16))) == u,
{
    let b = u.0;
    crate::bits::lemma_be_u64_bytes(b[0], b[1], b[2], b[3], b[4], b[5], b[6], b[7]);
    crate::bits::lemma_be_u64_bytes(b[8], b[9], b[10], b[11], b[12], b[13], b[14], b[15]);
    let v = Uuid::spec_from_u64_pair(be_u64(u@.subrange(0, 8)), be_u64(u@.subrange(8, 16)));
    assert(v.0@ =~= u.0@);
    lemma_uuid_view_injective(v, u);
}

/// Parsing reads only the registers that the function's arguments take: registers past those
/// may be cut off without changing what `from_regs` gives.
pub proof fn lemma_decode_reads_prefix(version: Version, regs: Seq<u64>, n: int)
    requires
        regs.len() >= 18,
        1 <= n <= regs.len(),
        regs_readable(version, regs.take(n)),
    ensures
        decode_regs(version, regs.take(n)) == decode_regs(version, regs),
{
    let t = regs.take(n);
    assert(t[0] == regs[0]);
    if let Ok(fid) = crate::func_id::FuncId::from_value(regs[0] as u32) {
        assert forall|k: int| 0 <= k < crate::decode::regs_needed(version, fid) implies t[k] == regs[k] by {}
        assert(crate::decode::decode_mem_buf32(t) == crate::decode::decode_mem_buf32(regs));
        assert(crate::decode::decode_mem_buf64(t) == crate::decode::decode_mem_buf64(regs));
        assert(crate::decode::decode_direct_req32(t) == crate::decode::decode_direct_req32(regs));
        assert(crate::decode::decode_direct_req64(t) == crate::decode::decode_direct_req64(regs));
        assert(crate::decode::decode_direct_resp32(t) == crate::decode::decode_direct_resp32(regs));
        assert(crate::decode::decode_direct_resp64(t) == crate::decode::decode_direct_resp64(regs));
        assert(crate::decode::direct_ids(t) == crate::decode::direct_ids(regs));
        if crate::decode::uses_18_regs(version, fid) {
            assert(t =~= regs.take(n));
        }
    }
}

/// What `to_regs` leaves in a buffer of any length that holds the registers the interface takes
/// (8, or 18 for the v1.2 wide interfaces) is read back by `from_regs` as the interface, for
/// every interface that `to_regs` accepts at that version and that survives the registers.
pub proof fn lemma_to_regs_from_regs(version: Version, i: Interface, len: nat)
    requires
        i.encodable(version),
        survives_regs(i),
        len >= crate::decode::regs_needed(version, i.spec_function_id().unwrap()),
    ensures
        regs_readable(version, regs_after_write(version, i, len)),
        decode_regs(version, regs_after_write(version, i, len)) == Ok::<Interface, Error>(i),
{
    lemma_regs_roundtrip(version, i);
    let enc = encode_regs(version, i);
    let after = regs_after_write(version, i, len);
    if len >= 18 {
        assert(after.take(18) =~= enc);
        lemma_decode_reads_prefix(version, after, 18);
    } else {
        assert(after =~= enc.take(len as int));
        lemma_decode_reads_prefix(version, enc, len as int);
    }
}

/// The registers `x0`..`x7` cut to their low 32 bits (the `w` registers of the SMC32 calling
/// convention), the others left as they are.
pub open spec fn low_halves(regs: Seq<u64>) -> Seq<u64> {
    Seq::new(regs.len(), |k: int| if k < 8 { (regs[k] as u32) as u64 } else { regs[k] })
}

/// A 32-bit direct response (`w0` = 0x84000070) whose `w2` is the VERSION_RESP kind
/// (0x80000009) and whose `w3` holds NOT_SUPPORTED (-1) parses as a version response without a
/// version, with the source endpoint from bits [31:16] of `w1` and the destination from bits
/// [15:0], whatever the upper halves of the registers hold.
pub proof fn lemma_version_resp_not_supported(version: Version, regs: Seq<u64>)
    requires
        regs.len() >= 8,
        regs[0] as u32 == 0x8400_0070u32,
        regs[2] as u32 == 0x8000_0009u32,
        regs[3] as u32 == 0xffff_ffffu32,
    ensures
        decode_regs(version, regs) == Ok::<Interface, Error>(
            Interface::MsgSendDirectResp {
                src_id: (regs[1] >> 16u64) as u16,
                dst_id: regs[1] as u16,
                args: DirectMsgArgs::VersionResp { version: None },
            },
        ),
{
    crate::bits::lemma_low_half_minus_one(regs[3]);
    crate::bits::lemma_fwk_msg_kinds();
}

/// The 64-bit function IDs all have bit 30 set.
proof fn lemma_smc64_bit()
    ensures
        0xc4000061u32 & 0x4000_0000u32 != 0,
        0xc4000066u32 & 0x4000_0000u32 != 0,
        0xc400008bu32 & 0x4000_0000u32 != 0,
        0xc400008au32 & 0x4000_0000u32 != 0,
        0xc400006fu32 & 0x4000_0000u32 != 0,
        0xc400008du32 & 0x4000_0000u32 != 0,
        0xc4000070u32 & 0x4000_0000u32 != 0,
        0xc400008eu32 & 0x4000_0000u32 != 0,
        0xc4000083u32 & 0x4000_0000u32 != 0,
        0xc4000087u32 & 0x4000_0000u32 != 0,
        0xc4000071u32 & 0x4000_0000u32 != 0,
        0xc4000072u32 & 0x4000_0000u32 != 0,
        0xc4000073u32 & 0x4000_0000u32 != 0,
        0xc4000074u32 & 0x4000_0000u32 != 0,
        0xc4000088u32 & 0x4000_0000u32 != 0,
        0xc4000089u32 & 0x4000_0000u32 != 0,
{
    assert(0xc4000061u32 & 0x4000_0000u32 != 0 && 0xc4000066u32 & 0x4000_0000u32 != 0
        && 0xc400008bu32 & 0x4000_0000u32 != 0 && 0xc400008au32 & 0x4000_0000u32 != 0
        && 0xc400006fu32 & 0x4000_0000u32 != 0 && 0xc400008du32 & 0x4000_0000u32 != 0
        && 0xc4000070u32 & 0x4000_0000u32 != 0 && 0xc400008eu32 & 0x4000_0000u32 != 0
        && 0xc4000083u32 & 0x4000_0000u32 != 0 && 0xc4000087u32 & 0x4000_0000u32 != 0
        && 0xc4000071u32 & 0x4000_0000u32 != 0 && 0xc4000072u32 & 0x4000_0000u32 != 0
        && 0xc4000073u32 & 0x4000_0000u32 != 0 && 0xc4000074u32 & 0x4000_0000u32 != 0
        && 0xc4000088u32 & 0x4000_0000u32 != 0 && 0xc4000089u32 & 0x4000_0000u32 != 0)
        by (bit_vector);
}

/// Two register files that agree in the low 32 bits of `x0`..`x7` hold the same 32-bit
/// interface, for the functions that read no register in full.
proof fn lemma_decode_fid_low_halves(version: Version, f: FuncId, regs: Seq<u64>, l: Seq<u64>)
    requires
        regs.len() >= 8,
        l.len() == regs.len(),
        forall|k: int|
            0 <= k < 8 ==> (#[trigger] l[k]) as u32 == regs[k] as u32 && l[k] as i32 == regs[k] as i32
                && l[k] as u16 == regs[k] as u16 && l[k] as u8 == regs[k] as u8 && (l[k] >> 16u64) as u16
                == (regs[k] >> 16u64) as u16,
        f.spec_is_32bit(),
        !(f is MemDonate32 || f is MemLend32 || f is MemShare32 || f is MemRetrieveReq32),
    ensures
        decode_fid(version, f, l) == decode_fid(version, f, regs),
{
    lemma_smc64_bit();
    assert(l[1] as u32 == regs[1] as u32 && l[2] as u32 == regs[2] as u32 && l[3] as u32
        == regs[3] as u32 && l[4] as u32 == regs[4] as u32 && l[5] as u32 == regs[5] as u32
        && l[6] as u32 == regs[6] as u32 && l[7] as u32 == regs[7] as u32);
    assert(l[1] as u16 == regs[1] as u16 && l[1] as u8 == regs[1] as u8 && l[3] as i32
        == regs[3] as i32 && l[2] as i32 == regs[2] as i32 && (l[1] >> 16u64) as u16 == (regs[1]
        >> 16u64) as u16);
    match f {
        FuncId::MsgSendDirectReq32 => {
            assert(crate::decode::direct_ids(l) == crate::decode::direct_ids(regs));
            assert(crate::decode::decode_direct_req32(l) == crate::decode::decode_direct_req32(
                regs,
            ));
        },
        FuncId::MsgSendDirectResp32 => {
            assert(crate::decode::direct_ids(l) == crate::decode::direct_ids(regs));
            assert(crate::decode::decode_direct_resp32(l) == crate::decode::decode_direct_resp32(
                regs,
            ));
        },
        _ => {},
    }
}

/// Functions of the SMC32 calling convention (bit 30 of the ID clear) read only the low 32 bits
/// of `x0`..`x7`: cutting those registers to their low halves does not change what `from_regs`
/// gives. The 32-bit memory transactions are the exception: they test all 64 bits of `x3` and
/// `x4` for zero to tell whether a buffer is given.
pub proof fn lemma_smc32_reads_low_halves(version: Version, regs: Seq<u64>)
    requires
        regs.len() >= 8,
        FuncId::from_value(regs[0] as u32) matches Ok(f) && f.spec_is_32bit() && !(
        f is MemDonate32 || f is MemLend32 || f is MemShare32 || f is MemRetrieveReq32),
    ensures
        decode_regs(version, low_halves(regs)) == decode_regs(version, regs),
{
    let l = low_halves(regs);
    assert forall|k: int| 0 <= k < 8 implies (#[trigger] l[k]) as u32 == regs[k] as u32 && l[k] as i32
        == regs[k] as i32 && l[k] as u16 == regs[k] as u16 && l[k] as u8 == regs[k] as u8 && (l[k]
        >> 16u64) as u16 == (regs[k] >> 16u64) as u16 by {
        crate::bits::lemma_low_half(regs[k]);
    }
    assert(l[0] as u32 == regs[0] as u32);
    let f = FuncId::from_value(regs[0] as u32).unwrap();
    lemma_decode_fid_low_halves(version, f, regs, l);
}

} // verus!
