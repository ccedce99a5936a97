//! The arguments that FF-A interfaces carry, and their encodings.
use crate::error::{Error, FfaError};
use crate::func_id::FuncId;
use crate::memory_management::Handle;
use crate::version::Version;
use vstd::prelude::*;

verus! {

/// Constant for 4K page size. On many occasions the FF-A spec defines memory size as count of 4K
/// pages, regardless of the current translation granule.
pub const FFA_PAGE_SIZE_4K: usize = 4096;

/// An FF-A instance is a valid combination of two FF-A components at an exception level boundary.
#[derive(PartialEq, Clone, Copy, Debug)]
pub enum Instance {
    /// The instance between the SPMC and SPMD.
    SecurePhysical,
    /// The instance between the SPMC and a physical SP (contains the SP's endpoint ID).
    SecureVirtual(u16),
}

/// Endpoint ID and vCPU ID pair, used by `FFA_ERROR`, `FFA_INTERRUPT` and `FFA_RUN` interfaces.
#[derive(Debug, Eq, PartialEq, Clone, Copy)]
pub struct TargetInfo {
    pub endpoint_id: u16,
    pub vcpu_id: u16,
}

impl TargetInfo {
    /// The pair that a 32-bit value encodes: endpoint ID in bits [31:16], vCPU ID in bits [15:0].
    pub open spec fn from_bits(v: u32) -> TargetInfo {
        TargetInfo { endpoint_id: (v >> 16u32) as u16, vcpu_id: v as u16 }
    }

    /// The 32-bit encoding of the pair.
    pub open spec fn bits(self) -> u32 {
        ((self.endpoint_id as u32) << 16u32) | (self.vcpu_id as u32)
    }
}

impl From<u32> for TargetInfo {
    fn from(value: u32) -> (r: Self)
        ensures
            r == TargetInfo::from_bits(value),
    {
        TargetInfo { endpoint_id: (value >> 16u32) as u16, vcpu_id: value as u16 }
    }
}

impl vstd::std_specs::convert::FromSpecImpl<u32> for TargetInfo {
    open spec fn obeys_from_spec() -> bool {
        true
    }

    open spec fn from_spec(v: u32) -> TargetInfo {
        TargetInfo::from_bits(v)
    }
}

impl From<TargetInfo> for u32 {
    fn from(value: TargetInfo) -> (r: u32)
        ensures
            r == value.bits(),
    {
        ((value.endpoint_id as u32) << 16u32) | (value.vcpu_id as u32)
    }
}

impl vstd::std_specs::convert::FromSpecImpl<TargetInfo> for u32 {
    open spec fn obeys_from_spec() -> bool {
        true
    }

    open spec fn from_spec(t: TargetInfo) -> u32 {
        t.bits()
    }
}

/// Arguments for the `FFA_SUCCESS` interface.
#[derive(Debug, Eq, PartialEq, Clone, Copy)]
pub enum SuccessArgs {
    Result32([u32; 6]),
    Result64([u64; 6]),
    Result64_2([u64; 16]),
}

/// Entrypoint address argument for `FFA_SECONDARY_EP_REGISTER` interface.
#[derive(Debug, Eq, PartialEq, Clone, Copy)]
pub enum SecondaryEpRegisterAddr {
    Addr32(u32),
    Addr64(u64),
}

/// Feature IDs used by the `FFA_FEATURES` interface.
#[derive(Clone, Copy, Debug, Eq, PartialEq)]
pub enum FeatureId {
    NotificationPendingInterrupt,
    ScheduleReceiverInterrupt,
    ManagedExitInterrupt,
}

impl FeatureId {
    /// The 8-bit value of the feature ID.
    pub open spec fn value(self) -> u8 {
        match self {
            FeatureId::NotificationPendingInterrupt => 1u8,
            FeatureId::ScheduleReceiverInterrupt => 2u8,
            FeatureId::ManagedExitInterrupt => 3u8,
        }
    }

    /// The feature whose ID is `v`, or `UnrecognisedFeatureId` if there is none.
    pub open spec fn from_value(v: u8) -> Result<FeatureId, Error> {
        if v == 1 {
            Ok(FeatureId::NotificationPendingInterrupt)
        } else if v == 2 {
            Ok(FeatureId::ScheduleReceiverInterrupt)
        } else if v == 3 {
            Ok(FeatureId::ManagedExitInterrupt)
        } else {
            Err(Error::UnrecognisedFeatureId(v))
        }
    }
}

impl TryFrom<u8> for FeatureId {
    type Error = Error;

    fn try_from(v: u8) -> (r: Result<Self, Error>)
        ensures
            r == FeatureId::from_value(v),
    {
        if v == 1 {
            Ok(FeatureId::NotificationPendingInterrupt)
        } else if v == 2 {
            Ok(FeatureId::ScheduleReceiverInterrupt)
        } else if v == 3 {
            Ok(FeatureId::ManagedExitInterrupt)
        } else {
            Err(Error::UnrecognisedFeatureId(v))
        }
    }
}

impl vstd::std_specs::convert::TryFromSpecImpl<u8> for FeatureId {
    open spec fn obeys_try_from_spec() -> bool {
        true
    }

    open spec fn try_from_spec(v: u8) -> Result<Self, Error> {
        FeatureId::from_value(v)
    }
}

impl From<FeatureId> for u8 {
    fn from(f: FeatureId) -> (r: u8)
        ensures
            r == f.value(),
    {
        match f {
            FeatureId::NotificationPendingInterrupt => 1,
            FeatureId::ScheduleReceiverInterrupt => 2,
            FeatureId::ManagedExitInterrupt => 3,
        }
    }
}

impl vstd::std_specs::convert::FromSpecImpl<FeatureId> for u8 {
    open spec fn obeys_from_spec() -> bool {
        true
    }

    open spec fn from_spec(f: FeatureId) -> u8 {
        f.value()
    }
}

/// Arguments for the `FFA_FEATURES` interface.
#[derive(Debug, Eq, PartialEq, Clone, Copy)]
pub enum Feature {
    FuncId(FuncId),
    FeatureId(FeatureId),
    Unknown(u32),
}

impl Feature {
    /// The feature that a 32-bit value names: a function ID if it is one, else a feature ID
    /// read from its low byte, else `Unknown`.
    pub open spec fn from_bits(v: u32) -> Feature {
        match FuncId::from_value(v) {
            Ok(f) => Feature::FuncId(f),
            Err(_) => match FeatureId::from_value(v as u8) {
                Ok(f) => Feature::FeatureId(f),
                Err(_) => Feature::Unknown(v),
            },
        }
    }

    /// The 32-bit value of a known feature.
    pub open spec fn bits(self) -> u32 {
        match self {
            Feature::FuncId(f) => 0x8000_0000u32 | f.value(),
            Feature::FeatureId(f) => f.value() as u32,
            Feature::Unknown(id) => id,
        }
    }

    /// Encodes a known feature as a 32-bit value. An `Unknown` feature cannot be encoded.
    pub fn to_bits(&self) -> (r: u32)
        requires
            !(self is Unknown),
        ensures
            r == self.bits(),
    {
        match self {
            Feature::FuncId(f) => 0x8000_0000u32 | u32::from(*f),
            Feature::FeatureId(f) => u8::from(*f) as u32,
            Feature::Unknown(id) => *id,
        }
    }
}

impl From<u32> for Feature {
    fn from(value: u32) -> (r: Self)
        ensures
            r == Feature::from_bits(value),
    {
        // Bit[31] is set for all valid FF-A function IDs so we don't have to check it separately
        match FuncId::try_from(value) {
            Ok(func_id) => Feature::FuncId(func_id),
            Err(_) => match FeatureId::try_from(value as u8) {
                Ok(feat_id) => Feature::FeatureId(feat_id),
                Err(_) => Feature::Unknown(value),
            },
        }
    }
}

impl vstd::std_specs::convert::FromSpecImpl<u32> for Feature {
    open spec fn obeys_from_spec() -> bool {
        true
    }

    open spec fn from_spec(v: u32) -> Feature {
        Feature::from_bits(v)
    }
}

/// RXTX buffer descriptor, used by `FFA_RXTX_MAP`.
#[allow(inconsistent_fields)]
#[derive(Debug, Eq, PartialEq, Clone, Copy)]
pub enum RxTxAddr {
    Addr32 { rx: u32, tx: u32 },
    Addr64 { rx: u64, tx: u64 },
}

/// Composite type for capturing success and error return codes for the VM availability messages.
///
/// Error codes are handled by the `FfaError` type. Having a separate type for errors helps using
/// `Result<(), FfaError>`. If a single type would include both success and error values,
/// then `Err(FfaError::Success)` would be incomprehensible.
#[derive(Debug, Eq, PartialEq, Clone, Copy)]
pub enum VmAvailabilityStatus {
    Success,
    Error(FfaError),
}

impl VmAvailabilityStatus {
    /// The status that a signed 32-bit code names: 0 is success, others are error codes.
    pub open spec fn from_code(v: i32) -> Result<VmAvailabilityStatus, Error> {
        if v == 0 {
            Ok(VmAvailabilityStatus::Success)
        } else {
            match FfaError::from_code(v) {
                Ok(e) => Ok(VmAvailabilityStatus::Error(e)),
                Err(e) => Err(e),
            }
        }
    }

    /// The signed 32-bit code of the status.
    pub open spec fn code(self) -> i32 {
        match self {
            VmAvailabilityStatus::Success => 0i32,
            VmAvailabilityStatus::Error(e) => e.code(),
        }
    }
}

impl TryFrom<i32> for VmAvailabilityStatus {
    type Error = Error;

    fn try_from(value: i32) -> (r: Result<Self, Error>)
        ensures
            r == VmAvailabilityStatus::from_code(value),
    {
        if value == 0 {
            Ok(VmAvailabilityStatus::Success)
        } else {
            let e = FfaError::try_from(value)?;
            Ok(VmAvailabilityStatus::Error(e))
        }
    }
}

impl vstd::std_specs::convert::TryFromSpecImpl<i32> for VmAvailabilityStatus {
    open spec fn obeys_try_from_spec() -> bool {
        true
    }

    open spec fn try_from_spec(v: i32) -> Result<Self, Error> {
        VmAvailabilityStatus::from_code(v)
    }
}

impl From<VmAvailabilityStatus> for i32 {
    fn from(value: VmAvailabilityStatus) -> (r: i32)
        ensures
            r == value.code(),
    {
        match value {
            VmAvailabilityStatus::Success => 0,
            VmAvailabilityStatus::Error(error_code) => i32::from(error_code),
        }
    }
}

impl vstd::std_specs::convert::FromSpecImpl<VmAvailabilityStatus> for i32 {
    open spec fn obeys_from_spec() -> bool {
        true
    }

    open spec fn from_spec(s: VmAvailabilityStatus) -> i32 {
        s.code()
    }
}

/// Arguments for the Power Warm Boot `FFA_MSG_SEND_DIRECT_REQ` interface.
#[derive(Clone, Copy, Debug, Eq, PartialEq)]
pub enum WarmBootType {
    ExitFromSuspend,
    ExitFromLowPower,
}

impl WarmBootType {
    /// The 32-bit value of the boot type.
    pub open spec fn value(self) -> u32 {
        match self {
            WarmBootType::ExitFromSuspend => 0u32,
            WarmBootType::ExitFromLowPower => 1u32,
        }
    }

    /// The boot type whose value is `v`, or `UnrecognisedWarmBootType` if there is none.
    pub open spec fn from_value(v: u32) -> Result<WarmBootType, Error> {
        if v == 0 {
            Ok(WarmBootType::ExitFromSuspend)
        } else if v == 1 {
            Ok(WarmBootType::ExitFromLowPower)
        } else {
            Err(Error::UnrecognisedWarmBootType(v))
        }
    }
}

impl TryFrom<u32> for WarmBootType {
    type Error = Error;

    fn try_from(v: u32) -> (r: Result<Self, Error>)
        ensures
            r == WarmBootType::from_value(v),
    {
        if v == 0 {
            Ok(WarmBootType::ExitFromSuspend)
        } else if v == 1 {
            Ok(WarmBootType::ExitFromLowPower)
        } else {
            Err(Error::UnrecognisedWarmBootType(v))
        }
    }
}

impl vstd::std_specs::convert::TryFromSpecImpl<u32> for WarmBootType {
    open spec fn obeys_try_from_spec() -> bool {
        true
    }

    open spec fn try_from_spec(v: u32) -> Result<Self, Error> {
        WarmBootType::from_value(v)
    }
}

impl From<WarmBootType> for u32 {
    fn from(b: WarmBootType) -> (r: u32)
        ensures
            r == b.value(),
    {
        match b {
            WarmBootType::ExitFromSuspend => 0,
            WarmBootType::ExitFromLowPower => 1,
        }
    }
}

impl vstd::std_specs::convert::FromSpecImpl<WarmBootType> for u32 {
    open spec fn obeys_from_spec() -> bool {
        true
    }

    open spec fn from_spec(b: WarmBootType) -> u32 {
        b.value()
    }
}

/// Arguments for the `FFA_MSG_SEND_DIRECT_{REQ,RESP}` interfaces.
#[allow(inconsistent_fields)]
#[derive(Debug, Eq, PartialEq, Clone, Copy)]
pub enum DirectMsgArgs {
    Args32([u32; 5]),
    Args64([u64; 5]),
    /// Message for forwarding FFA_VERSION call from Normal world to the SPMC
    VersionReq { version: Version },
    /// Response message to forwarded FFA_VERSION call from the Normal world
    /// Contains the version returned by the SPMC or None
    VersionResp { version: Option<Version> },
    /// Message for a power management operation initiated by a PSCI function
    PowerPsciReq32 {
        function_id: u32,
        // params[i]: Input parameter in w[i] in PSCI function invocation at EL3.
        params: [u32; 3],
    },
    /// Message for a power management operation initiated by a PSCI function
    PowerPsciReq64 {
        function_id: u32,
        // params[i]: Input parameter in x[i] in PSCI function invocation at EL3.
        params: [u64; 3],
    },
    /// Message for a warm boot
    PowerWarmBootReq { boot_type: WarmBootType },
    /// Response message to indicate return status of the last power management request message
    /// Return error code SUCCESS or DENIED as defined in PSCI spec. Caller is left to do the
    /// parsing of the return status.
    PowerPsciResp { psci_status: i32 },
    /// Message to signal creation of a VM
    VmCreated {
        // Globally unique Handle to identify a memory region that contains IMPLEMENTATION DEFINED
        // information associated with the created VM.
        // The invalid memory region handle must be specified by the Hypervisor if this field is not
        //  used.
        handle: Handle,
        vm_id: u16,
    },
    /// Message to acknowledge creation of a VM
    VmCreatedAck { sp_status: VmAvailabilityStatus },
    /// Message to signal destruction of a VM
    VmDestructed {
        // Globally unique Handle to identify a memory region that contains IMPLEMENTATION DEFINED
        // information associated with the created VM.
        // The invalid memory region handle must be specified by the Hypervisor if this field is not
        //  used.
        handle: Handle,
        vm_id: u16,
    },
    /// Message to acknowledge destruction of a VM
    VmDestructedAck { sp_status: VmAvailabilityStatus },
}

impl DirectMsgArgs {
    // Flags for the `FFA_MSG_SEND_DIRECT_{REQ,RESP}` interfaces.
    pub const FWK_MSG_BITS: u32 = 0x8000_0000;
    pub const VERSION_REQ: u32 = 0x8000_0008;
    pub const VERSION_RESP: u32 = 0x8000_0009;
    pub const POWER_PSCI_REQ: u32 = 0x8000_0000;
    pub const POWER_WARM_BOOT_REQ: u32 = 0x8000_0001;
    pub const POWER_PSCI_RESP: u32 = 0x8000_0002;
    pub const VM_CREATED: u32 = 0x8000_0004;
    pub const VM_CREATED_ACK: u32 = 0x8000_0005;
    pub const VM_DESTRUCTED: u32 = 0x8000_0006;
    pub const VM_DESTRUCTED_ACK: u32 = 0x8000_0007;
}

/// Arguments for the `FFA_MSG_SEND_DIRECT_{REQ,RESP}2` interfaces.
#[derive(Debug, Eq, PartialEq, Clone, Copy)]
pub struct DirectMsg2Args(pub [u64; 14]);

/// Descriptor for a dynamically allocated memory buffer that contains the memory transaction
/// descriptor.
///
/// Used by `FFA_MEM_{DONATE,LEND,SHARE,RETRIEVE_REQ}` interfaces, only when the TX buffer is not
/// used to transmit the transaction descriptor.
#[allow(inconsistent_fields)]
#[derive(Debug, Eq, PartialEq, Clone, Copy)]
pub enum MemOpBuf {
    Buf32 { addr: u32, page_cnt: u32 },
    Buf64 { addr: u64, page_cnt: u32 },
}

/// Memory address argument for `FFA_MEM_PERM_{GET,SET}` interfaces.
#[derive(Debug, Eq, PartialEq, Clone, Copy)]
pub enum MemAddr {
    Addr32(u32),
    Addr64(u64),
}

/// Argument for the `FFA_CONSOLE_LOG` interface.
#[derive(Debug, Eq, PartialEq, Clone, Copy)]
pub enum ConsoleLogChars {
    Reg32([u32; 6]),
    Reg64([u64; 16]),
}

/// Splitting a target info into a 32-bit value and back is lossless in both directions.
pub proof fn lemma_target_info_roundtrip(t: TargetInfo, v: u32)
    ensures
        TargetInfo::from_bits(t.bits()) == t,
        TargetInfo::from_bits(v).bits() == v,
{
    crate::bits::lemma_u32_halves(t.endpoint_id, t.vcpu_id, v);
}

/// A known feature read back from its encoding is the same feature.
pub proof fn lemma_feature_roundtrip(f: Feature)
    requires
        !(f is Unknown),
    ensures
        Feature::from_bits(f.bits()) == f,
{
    match f {
        Feature::FuncId(id) => {
            crate::func_id::lemma_func_id_value_unique(id.value());
            let x = id.value();
            assert(x & 0x8000_0000u32 != 0 ==> 0x8000_0000u32 | x == x) by (bit_vector);
        },
        Feature::FeatureId(id) => {
            crate::func_id::lemma_func_id_value_unique(id.value() as u32);
        },
        Feature::Unknown(_) => {},
    }
}

/// A feature ID read back from its value is the same feature ID, and its value names no function.
pub proof fn lemma_feature_id_roundtrip(f: FeatureId)
    ensures
        FeatureId::from_value(f.value()) == Ok::<FeatureId, Error>(f),
{
}

/// A VM availability status read back from its code is the same status.
pub proof fn lemma_vm_availability_roundtrip(s: VmAvailabilityStatus)
    ensures
        VmAvailabilityStatus::from_code(s.code()) == Ok::<VmAvailabilityStatus, Error>(s),
{
}

/// A warm boot type read back from its value is the same boot type.
pub proof fn lemma_warm_boot_type_roundtrip(b: WarmBootType)
    ensures
        WarmBootType::from_value(b.value()) == Ok::<WarmBootType, Error>(b),
{
}

} // verus!
