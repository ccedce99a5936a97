use arm_ffa::memory_management::Handle;
use arm_ffa::{
    Error, Feature, FeatureId, FfaError, FuncId, TargetInfo, Version, VmAvailabilityStatus,
    WarmBootType,
};

#[test]
fn version_encoding() {
    assert_eq!(Version::try_from(0x0001_0002u32), Ok(Version(1, 2)));
    assert_eq!(Version::try_from(0x8001_0002u32), Err(Error::InvalidVersion(0x8001_0002)));
    assert_eq!(Version(1, 2).to_bits(), 0x0001_0002);
    assert_eq!(Version(0x7fff, 0xffff).to_bits(), 0x7fff_ffff);
    assert!(Version(0x7fff, 0).fits_encoding());
    assert!(!Version(0x8000, 0).fits_encoding());
    // Law: a valid version read back from its encoding is the same version.
    for v in [Version(0, 0), Version(1, 0), Version(1, 3), Version(0x7fff, 0xffff)] {
        assert_eq!(Version::try_from(v.to_bits()), Ok(v));
    }
}

#[test]
fn version_compatibility_and_order() {
    assert!(Version(1, 1).is_compatible_to(&Version(1, 2)));
    assert!(Version(1, 2).is_compatible_to(&Version(1, 2)));
    assert!(!Version(1, 2).is_compatible_to(&Version(1, 1)));
    assert!(!Version(1, 0).is_compatible_to(&Version(2, 0)));
    assert!(Version(1, 1).older_than(&Version(1, 2)));
    assert!(Version(0, 9).older_than(&Version(1, 0)));
    assert!(!Version(1, 2).older_than(&Version(1, 2)));
    assert!(!Version(2, 0).older_than(&Version(1, 9)));
}

#[test]
fn target_info_encoding() {
    let t = TargetInfo::from(0x8001_0003u32);
    assert_eq!(t, TargetInfo { endpoint_id: 0x8001, vcpu_id: 3 });
    assert_eq!(u32::from(t), 0x8001_0003);
}

#[test]
fn func_id_values_and_width() {
    assert_eq!(FuncId::try_from(0x84000061u32), Ok(FuncId::Success32));
    assert_eq!(FuncId::try_from(0xc4000061u32), Ok(FuncId::Success64));
    assert_eq!(FuncId::try_from(0x84000000u32), Err(Error::UnrecognisedFunctionId(0x84000000)));
    assert_eq!(u32::from(FuncId::MemPermSet64), 0xc4000089);
    assert!(FuncId::Success32.is_32bit());
    assert!(FuncId::Error.is_32bit());
    assert!(!FuncId::Success64.is_32bit());
    assert!(!FuncId::ConsoleLog64.is_32bit());
}

#[test]
fn ffa_error_codes() {
    assert_eq!(FfaError::try_from(-1i32), Ok(FfaError::NotSupported));
    assert_eq!(FfaError::try_from(-9i32), Ok(FfaError::NoData));
    assert_eq!(FfaError::try_from(0i32), Err(Error::UnrecognisedErrorCode(0)));
    assert_eq!(FfaError::try_from(-10i32), Err(Error::UnrecognisedErrorCode(-10)));
    assert_eq!(i32::from(FfaError::Aborted), -8);
}

#[test]
fn error_to_ffa_error() {
    assert_eq!(FfaError::try_from(Error::UnrecognisedFunctionId(1)), Ok(FfaError::NotSupported));
    assert_eq!(FfaError::try_from(Error::UnrecognisedFeatureId(1)), Ok(FfaError::NotSupported));
    assert_eq!(
        FfaError::try_from(Error::InvalidVersion(1)),
        Ok(FfaError::InvalidParameters)
    );
    assert_eq!(
        FfaError::try_from(Error::UnrecognisedWarmBootType(3)),
        Ok(FfaError::InvalidParameters)
    );
    assert_eq!(FfaError::try_from(Error::ConsoleAlreadyInitialized), Err(()));
}

#[test]
fn feature_encoding() {
    assert_eq!(Feature::from(0x84000064u32), Feature::FuncId(FuncId::Features));
    assert_eq!(Feature::from(2u32), Feature::FeatureId(FeatureId::ScheduleReceiverInterrupt));
    assert_eq!(Feature::from(0x42u32), Feature::Unknown(0x42));
    assert_eq!(Feature::FuncId(FuncId::Features).to_bits(), 0x84000064);
    assert_eq!(Feature::FeatureId(FeatureId::ManagedExitInterrupt).to_bits(), 3);
    assert_eq!(FeatureId::try_from(4u8), Err(Error::UnrecognisedFeatureId(4)));
    assert_eq!(u8::from(FeatureId::NotificationPendingInterrupt), 1);
}

#[test]
fn vm_availability_status_codes() {
    assert_eq!(VmAvailabilityStatus::try_from(0i32), Ok(VmAvailabilityStatus::Success));
    assert_eq!(
        VmAvailabilityStatus::try_from(-6i32),
        Ok(VmAvailabilityStatus::Error(FfaError::Denied))
    );
    assert_eq!(VmAvailabilityStatus::try_from(3i32), Err(Error::UnrecognisedErrorCode(3)));
    assert_eq!(i32::from(VmAvailabilityStatus::Error(FfaError::Retry)), -7);
    assert_eq!(i32::from(VmAvailabilityStatus::Success), 0);
}

#[test]
fn warm_boot_type_values() {
    assert_eq!(WarmBootType::try_from(0u32), Ok(WarmBootType::ExitFromSuspend));
    assert_eq!(WarmBootType::try_from(1u32), Ok(WarmBootType::ExitFromLowPower));
    assert_eq!(WarmBootType::try_from(2u32), Err(Error::UnrecognisedWarmBootType(2)));
    assert_eq!(u32::from(WarmBootType::ExitFromLowPower), 1);
}

#[test]
fn handle_halves() {
    let h = Handle::from([0x9abc_def0u32, 0x1234_5678]);
    assert_eq!(h, Handle(0x1234_5678_9abc_def0));
    let w: [u32; 2] = h.into();
    assert_eq!(w, [0x9abc_def0, 0x1234_5678]);
}
