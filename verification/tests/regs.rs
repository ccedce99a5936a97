use arm_ffa::memory_management::Handle;
use arm_ffa::{
    ConsoleLogChars, DirectMsg2Args, DirectMsgArgs, Error, Feature, FeatureId, FfaError, FuncId,
    Interface, MemAddr, MemOpBuf, RxTxAddr, SecondaryEpRegisterAddr, SuccessArgs, TargetInfo,
    Uuid, Version, VmAvailabilityStatus, WarmBootType,
};

fn roundtrip(version: Version, i: Interface) -> Result<Interface, Error> {
    assert!(i.is_encodable(version));
    let mut regs = [0xdead_beefu64; 18];
    i.to_regs(version, &mut regs);
    assert!(Interface::can_parse(version, &regs));
    Interface::from_regs(version, &regs)
}

fn sample_interfaces() -> Vec<Interface> {
    let uuid = Uuid::from_bytes([1, 2, 3, 4, 5, 6, 7, 8, 9, 10, 11, 12, 13, 14, 15, 16]);
    vec![
        Interface::Error {
            target_info: TargetInfo { endpoint_id: 0x8001, vcpu_id: 3 },
            error_code: FfaError::NoData,
        },
        Interface::Success {
            target_info: 7,
            args: SuccessArgs::Result32([1, 2, 3, 4, 5, 0xffff_ffff]),
        },
        Interface::Interrupt {
            target_info: TargetInfo { endpoint_id: 2, vcpu_id: 1 },
            interrupt_id: 42,
        },
        Interface::Version { input_version: Version(1, 2) },
        Interface::Features { feat_id: Feature::FuncId(FuncId::MemShare64), input_properties: 5 },
        Interface::Features {
            feat_id: Feature::FeatureId(FeatureId::ManagedExitInterrupt),
            input_properties: 0,
        },
        Interface::RxAcquire { vm_id: 9 },
        Interface::RxRelease { vm_id: 0xffff },
        Interface::RxTxMap { addr: RxTxAddr::Addr32 { rx: 0x1000, tx: 0x2000 }, page_cnt: 1 },
        Interface::RxTxMap {
            addr: RxTxAddr::Addr64 { rx: 0x1_0000_0000, tx: 0x2_0000_0000 },
            page_cnt: 2,
        },
        Interface::RxTxUnmap { id: 3 },
        Interface::PartitionInfoGet { uuid, flags: 1 },
        Interface::IdGet,
        Interface::SpmIdGet,
        Interface::MsgWait,
        Interface::Yield,
        Interface::Run { target_info: TargetInfo { endpoint_id: 5, vcpu_id: 6 } },
        Interface::NormalWorldResume,
        Interface::SecondaryEpRegister { entrypoint: SecondaryEpRegisterAddr::Addr32(0x8000) },
        Interface::SecondaryEpRegister {
            entrypoint: SecondaryEpRegisterAddr::Addr64(0x8000_0000_0000),
        },
        Interface::MsgSend2 { sender_vm_id: 4, flags: 2 },
        Interface::MsgSendDirectReq {
            src_id: 0x8002,
            dst_id: 0x8003,
            args: DirectMsgArgs::Args32([1, 2, 3, 4, 5]),
        },
        Interface::MsgSendDirectReq {
            src_id: 1,
            dst_id: 2,
            args: DirectMsgArgs::Args64([u64::MAX, 2, 3, 4, 5]),
        },
        Interface::MsgSendDirectReq {
            src_id: 1,
            dst_id: 2,
            args: DirectMsgArgs::VersionReq { version: Version(1, 1) },
        },
        Interface::MsgSendDirectReq {
            src_id: 1,
            dst_id: 2,
            args: DirectMsgArgs::PowerPsciReq32 { function_id: 0x8400_0001, params: [1, 2, 3] },
        },
        Interface::MsgSendDirectReq {
            src_id: 1,
            dst_id: 2,
            args: DirectMsgArgs::PowerPsciReq64 { function_id: 0xc400_0001, params: [4, 5, 6] },
        },
        Interface::MsgSendDirectReq {
            src_id: 1,
            dst_id: 2,
            args: DirectMsgArgs::PowerWarmBootReq { boot_type: WarmBootType::ExitFromLowPower },
        },
        Interface::MsgSendDirectReq {
            src_id: 1,
            dst_id: 2,
            args: DirectMsgArgs::VmCreated { handle: Handle(0x1234_5678_9abc_def0), vm_id: 7 },
        },
        Interface::MsgSendDirectReq {
            src_id: 1,
            dst_id: 2,
            args: DirectMsgArgs::VmDestructed { handle: Handle(Handle::INVALID), vm_id: 8 },
        },
        Interface::MsgSendDirectResp {
            src_id: 2,
            dst_id: 1,
            args: DirectMsgArgs::VersionResp { version: None },
        },
        Interface::MsgSendDirectResp {
            src_id: 2,
            dst_id: 1,
            args: DirectMsgArgs::VersionResp { version: Some(Version(1, 2)) },
        },
        Interface::MsgSendDirectResp {
            src_id: 2,
            dst_id: 1,
            args: DirectMsgArgs::PowerPsciResp { psci_status: -3 },
        },
        Interface::MsgSendDirectResp {
            src_id: 2,
            dst_id: 1,
            args: DirectMsgArgs::VmCreatedAck { sp_status: VmAvailabilityStatus::Success },
        },
        Interface::MsgSendDirectResp {
            src_id: 2,
            dst_id: 1,
            args: DirectMsgArgs::VmDestructedAck {
                sp_status: VmAvailabilityStatus::Error(FfaError::Denied),
            },
        },
        Interface::MsgSendDirectResp {
            src_id: 2,
            dst_id: 1,
            args: DirectMsgArgs::Args64([9, 8, 7, 6, 5]),
        },
        Interface::MemDonate { total_len: 100, frag_len: 50, buf: None },
        Interface::MemLend {
            total_len: 100,
            frag_len: 100,
            buf: Some(MemOpBuf::Buf32 { addr: 0x4000, page_cnt: 2 }),
        },
        Interface::MemShare {
            total_len: 1,
            frag_len: 1,
            buf: Some(MemOpBuf::Buf64 { addr: 0x1_0000_4000, page_cnt: 3 }),
        },
        Interface::MemRetrieveReq { total_len: 8, frag_len: 8, buf: None },
        Interface::MemRetrieveResp { total_len: 8, frag_len: 4 },
        Interface::MemRelinquish,
        Interface::MemReclaim { handle: Handle(0xffff_0000_0000_0001), flags: 1 },
        Interface::MemPermGet { addr: MemAddr::Addr64(0x8000_0000), page_cnt: None },
        Interface::MemPermSet { addr: MemAddr::Addr32(0x1000), page_cnt: 4, mem_perm: 3 },
        Interface::ConsoleLog {
            char_cnt: 5,
            char_lists: ConsoleLogChars::Reg32([0x6c6c6548, 0x6f, 0, 0, 0, 0]),
        },
    ]
}

#[test]
fn regs_roundtrip_v1_1() {
    for i in sample_interfaces() {
        assert_eq!(roundtrip(Version(1, 1), i), Ok(i), "{:?}", i);
    }
    let i = Interface::Success { target_info: 0, args: SuccessArgs::Result64([1, 2, 3, 4, 5, 6]) };
    assert_eq!(roundtrip(Version(1, 1), i), Ok(i));
}

#[test]
fn regs_roundtrip_v1_2_wide_interfaces() {
    let v = Version(1, 2);
    let uuid = Uuid::from_u64_pair(0xa1a2a3a4b1b2c1c2, 0xd1d2d3d4d5d6d7d8);
    let wide = vec![
        Interface::Success {
            target_info: 1,
            args: SuccessArgs::Result64_2(core::array::from_fn(|k| k as u64 * 3)),
        },
        Interface::MsgSendDirectReq2 {
            src_id: 1,
            dst_id: 2,
            uuid,
            args: DirectMsg2Args(core::array::from_fn(|k| 100 + k as u64)),
        },
        Interface::MsgSendDirectResp2 {
            src_id: 2,
            dst_id: 1,
            args: DirectMsg2Args(core::array::from_fn(|k| u64::MAX - k as u64)),
        },
        Interface::ConsoleLog {
            char_cnt: 128,
            char_lists: ConsoleLogChars::Reg64([0x4141414141414141; 16]),
        },
    ];
    for i in wide {
        assert_eq!(roundtrip(v, i), Ok(i), "{:?}", i);
    }
}

#[test]
fn regs_roundtrip_mem_perm_get_v1_3() {
    let i = Interface::MemPermGet { addr: MemAddr::Addr32(0x2000), page_cnt: Some(7) };
    assert_eq!(roundtrip(Version(1, 3), i), Ok(i));
    // Before v1.3 the page count is not in the registers.
    let i = Interface::MemPermGet { addr: MemAddr::Addr32(0x2000), page_cnt: None };
    assert_eq!(roundtrip(Version(1, 2), i), Ok(i));
}

#[test]
fn to_regs_exact_layout() {
    let i = Interface::MsgSendDirectReq {
        src_id: 0x8001,
        dst_id: 0x8002,
        args: DirectMsgArgs::VersionReq { version: Version(1, 2) },
    };
    let mut regs = [7u64; 20];
    i.to_regs(Version(1, 1), &mut regs);
    let mut expected = [0u64; 20];
    expected[0] = 0x8400006f;
    expected[1] = 0x8001_8002;
    expected[2] = 0x8000_0008;
    expected[3] = 0x0001_0002;
    assert_eq!(regs, expected);

    let i = Interface::Error {
        target_info: TargetInfo { endpoint_id: 1, vcpu_id: 2 },
        error_code: FfaError::NotSupported,
    };
    let mut regs = [7u64; 8];
    i.to_regs(Version(1, 1), &mut regs);
    assert_eq!(regs, [0x84000060, 0x0001_0002, 0xffff_ffff, 0, 0, 0, 0, 0]);
}

#[test]
fn to_regs_version_out_puts_version_in_x0() {
    let i = Interface::VersionOut { output_version: Version(1, 2) };
    let mut regs = [5u64; 8];
    i.to_regs(Version(1, 2), &mut regs);
    assert_eq!(regs, [0x0001_0002, 0, 0, 0, 0, 0, 0, 0]);
    // The version in x0 is no function ID, so the registers do not read back.
    assert_eq!(
        Interface::from_regs(Version(1, 2), &regs),
        Err(Error::UnrecognisedFunctionId(0x0001_0002))
    );
}

#[test]
fn partition_info_uuid_words_are_little_endian() {
    let regs = [0x84000068u64, 0x04030201, 0x08070605, 0x0c0b0a09, 0x100f0e0d, 9, 0, 0];
    let i = Interface::from_regs(Version(1, 1), &regs).unwrap();
    assert_eq!(
        i,
        Interface::PartitionInfoGet {
            uuid: Uuid::from_bytes([1, 2, 3, 4, 5, 6, 7, 8, 9, 10, 11, 12, 13, 14, 15, 16]),
            flags: 9,
        }
    );
}

#[test]
fn direct_req2_uuid_is_big_endian_pair() {
    // A wrapper that handed back its argument unchanged would not give these bytes.
    let u = Uuid::from_u64_pair(0xa1a2a3a4b1b2c1c2, 0xd1d2d3d4d5d6d7d8);
    assert_eq!(
        u.into_bytes(),
        [
            0xa1, 0xa2, 0xa3, 0xa4, 0xb1, 0xb2, 0xc1, 0xc2, 0xd1, 0xd2, 0xd3, 0xd4, 0xd5, 0xd6,
            0xd7, 0xd8
        ]
    );
    assert_eq!(u.as_u64_pair(), (0xa1a2a3a4b1b2c1c2, 0xd1d2d3d4d5d6d7d8));
    let mut regs = [0u64; 18];
    regs[0] = 0xc400008d;
    regs[1] = 0x0001_0002;
    regs[2] = 0xa1a2a3a4b1b2c1c2;
    regs[3] = 0xd1d2d3d4d5d6d7d8;
    let i = Interface::from_regs(Version(1, 2), &regs).unwrap();
    assert_eq!(
        i,
        Interface::MsgSendDirectReq2 { src_id: 1, dst_id: 2, uuid: u, args: DirectMsg2Args([0; 14]) }
    );
}

#[test]
fn from_regs_errors() {
    let v = Version(1, 1);
    assert_eq!(
        Interface::from_regs(v, &[0x1234, 0, 0, 0, 0, 0, 0, 0]),
        Err(Error::UnrecognisedFunctionId(0x1234))
    );
    assert_eq!(
        Interface::from_regs(v, &[0x84000060, 0, 5, 0, 0, 0, 0, 0]),
        Err(Error::UnrecognisedErrorCode(5))
    );
    assert_eq!(
        Interface::from_regs(v, &[0x84000063, 0x8000_0000, 0, 0, 0, 0, 0, 0]),
        Err(Error::InvalidVersion(0x8000_0000))
    );
    assert_eq!(
        Interface::from_regs(v, &[0x8400006f, 0, 0x8000_0003, 0, 0, 0, 0, 0]),
        Err(Error::UnrecognisedFwkMsg(0x8000_0003))
    );
    assert_eq!(
        Interface::from_regs(v, &[0x8400006f, 0, 0x8000_0001, 2, 0, 0, 0, 0]),
        Err(Error::UnrecognisedWarmBootType(2))
    );
    assert_eq!(
        Interface::from_regs(v, &[0xc4000070, 0, 0x8000_0000, 0, 0, 0, 0, 0]),
        Err(Error::UnrecognisedFwkMsg(0x8000_0000))
    );
    assert_eq!(
        Interface::from_regs(v, &[0xc400006f, 0, 0x8000_0001, 0, 0, 0, 0, 0]),
        Err(Error::UnrecognisedFwkMsg(0x8000_0001))
    );
    assert_eq!(
        Interface::from_regs(v, &[0x84000070, 0, 0x8000_0005, 10, 0, 0, 0, 0]),
        Err(Error::UnrecognisedErrorCode(10))
    );
    // Notification functions have no parser.
    assert!(!Interface::can_parse(v, &[0x8400007d, 0, 0, 0, 0, 0, 0, 0]));
    // Too few registers for an 18-register interface.
    assert!(!Interface::can_parse(Version(1, 2), &[0xc400008a, 0, 0, 0, 0, 0, 0, 0]));
    assert!(Interface::can_parse(Version(1, 1), &[0xc4000061, 0, 0, 0, 0, 0, 0, 0]));
}

#[test]
fn from_regs_reads_low_bits_only() {
    let regs = [0xffff_ffff_8400_0084u64, 0xffff_0000_0001_0007, 0, 0, 0, 0, 0, 0];
    assert_eq!(Interface::from_regs(Version(1, 1), &regs), Ok(Interface::RxAcquire { vm_id: 7 }));
    let regs = [0x84000064u64, 0x101, 3, 0, 0, 0, 0, 0];
    assert_eq!(
        Interface::from_regs(Version(1, 1), &regs),
        Ok(Interface::Features {
            feat_id: Feature::FeatureId(FeatureId::NotificationPendingInterrupt),
            input_properties: 3,
        })
    );
    let regs = [0x84000064u64, 0x104, 3, 0, 0, 0, 0, 0];
    assert_eq!(
        Interface::from_regs(Version(1, 1), &regs),
        Ok(Interface::Features { feat_id: Feature::Unknown(0x104), input_properties: 3 })
    );
}

#[test]
fn mem_buf_with_zero_field_reads_as_none() {
    let i = Interface::MemShare {
        total_len: 1,
        frag_len: 1,
        buf: Some(MemOpBuf::Buf32 { addr: 0, page_cnt: 3 }),
    };
    assert_eq!(
        roundtrip(Version(1, 1), i),
        Ok(Interface::MemShare { total_len: 1, frag_len: 1, buf: None })
    );
}

#[test]
fn vm_created_ack_error_status_does_not_read_back() {
    let i = Interface::MsgSendDirectResp {
        src_id: 1,
        dst_id: 2,
        args: DirectMsgArgs::VmCreatedAck { sp_status: VmAvailabilityStatus::Error(FfaError::Busy) },
    };
    let mut regs = [0u64; 8];
    i.to_regs(Version(1, 1), &mut regs);
    // The status is written into w4 but read from w3.
    assert_eq!(regs[4], (-4i32) as u64);
    assert_eq!(
        Interface::from_regs(Version(1, 1), &regs),
        Ok(Interface::MsgSendDirectResp {
            src_id: 1,
            dst_id: 2,
            args: DirectMsgArgs::VmCreatedAck { sp_status: VmAvailabilityStatus::Success },
        })
    );
}

#[test]
fn encodable_checks() {
    let v11 = Version(1, 1);
    let v12 = Version(1, 2);
    assert!(!Interface::Success {
        target_info: 0,
        args: SuccessArgs::Result64_2([0; 16])
    }
    .is_encodable(v11));
    assert!(!Interface::success32_noargs().is_encodable(v12));
    assert!(!Interface::Version { input_version: Version(0x8000, 0) }.is_encodable(v11));
    assert!(!Interface::Features { feat_id: Feature::Unknown(9), input_properties: 0 }
        .is_encodable(v11));
    assert!(!Interface::MsgSendDirectReq {
        src_id: 0,
        dst_id: 0,
        args: DirectMsgArgs::PowerPsciResp { psci_status: 0 }
    }
    .is_encodable(v11));
    assert!(!Interface::MemPermGet { addr: MemAddr::Addr32(0), page_cnt: Some(1) }
        .is_encodable(v12));
    assert!(!Interface::MemPermGet { addr: MemAddr::Addr32(0), page_cnt: None }
        .is_encodable(Version(1, 3)));
}

#[test]
fn function_ids_and_widths() {
    assert_eq!(Interface::success32_noargs().function_id(), Some(FuncId::Success32));
    assert_eq!(Interface::success64_noargs().function_id(), Some(FuncId::Success64));
    assert!(Interface::success32_noargs().is_32bit());
    assert!(!Interface::success64_noargs().is_32bit());
    assert_eq!(
        Interface::error(FfaError::Busy),
        Interface::Error {
            target_info: TargetInfo { endpoint_id: 0, vcpu_id: 0 },
            error_code: FfaError::Busy
        }
    );
    assert_eq!(Interface::VersionOut { output_version: Version(1, 0) }.function_id(), None);
    assert_eq!(
        Interface::MsgSendDirectReq {
            src_id: 0,
            dst_id: 0,
            args: DirectMsgArgs::VersionResp { version: None }
        }
        .function_id(),
        None
    );
    assert_eq!(
        Interface::MemDonate {
            total_len: 0,
            frag_len: 0,
            buf: Some(MemOpBuf::Buf64 { addr: 1, page_cnt: 1 })
        }
        .function_id(),
        Some(FuncId::MemDonate64)
    );
    assert_eq!(
        Interface::ConsoleLog { char_cnt: 1, char_lists: ConsoleLogChars::Reg64([0; 16]) }
            .function_id(),
        Some(FuncId::ConsoleLog64)
    );
}

#[test]
fn regs_roundtrip_in_8_registers() {
    let v = Version(1, 1);
    for i in sample_interfaces() {
        let mut regs = [0x5555u64; 8];
        i.to_regs(v, &mut regs);
        assert_eq!(Interface::from_regs(v, &regs), Ok(i), "{:?}", i);
    }
}
