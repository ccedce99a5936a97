//! Function IDs of the FF-A interfaces.
use crate::error::Error;
use vstd::prelude::*;

verus! {

/// Function IDs of the various FF-A interfaces.
#[derive(Clone, Copy, Debug, Eq, PartialEq)]
pub enum FuncId {
    Error,
    Success32,
    Success64,
    Interrupt,
    Version,
    Features,
    RxAcquire,
    RxRelease,
    RxTxMap32,
    RxTxMap64,
    RxTxUnmap,
    PartitionInfoGet,
    PartitionInfoGetRegs,
    IdGet,
    SpmIdGet,
    ConsoleLog32,
    ConsoleLog64,
    MsgWait,
    Yield,
    Run,
    NormalWorldResume,
    MsgSend2,
    MsgSendDirectReq32,
    MsgSendDirectReq64,
    MsgSendDirectReq64_2,
    MsgSendDirectResp32,
    MsgSendDirectResp64,
    MsgSendDirectResp64_2,
    NotificationBitmapCreate,
    NotificationBitmapDestroy,
    NotificationBind,
    NotificationUnbind,
    NotificationSet,
    NotificationGet,
    NotificationInfoGet32,
    NotificationInfoGet64,
    El3IntrHandle,
    SecondaryEpRegister32,
    SecondaryEpRegister64,
    MemDonate32,
    MemDonate64,
    MemLend32,
    MemLend64,
    MemShare32,
    MemShare64,
    MemRetrieveReq32,
    MemRetrieveReq64,
    MemRetrieveResp,
    MemRelinquish,
    MemReclaim,
    MemPermGet32,
    MemPermGet64,
    MemPermSet32,
    MemPermSet64,
}

impl FuncId {
    /// The 32-bit value that identifies the function in register `x0`/`w0`.
    pub open spec fn value(self) -> u32 {
        match self {
            FuncId::Error => 0x84000060u32,
            FuncId::Success32 => 0x84000061u32,
            FuncId::Success64 => 0xc4000061u32,
            FuncId::Interrupt => 0x84000062u32,
            FuncId::Version => 0x84000063u32,
            FuncId::Features => 0x84000064u32,
            FuncId::RxAcquire => 0x84000084u32,
            FuncId::RxRelease => 0x84000065u32,
            FuncId::RxTxMap32 => 0x84000066u32,
            FuncId::RxTxMap64 => 0xc4000066u32,
            FuncId::RxTxUnmap => 0x84000067u32,
            FuncId::PartitionInfoGet => 0x84000068u32,
            FuncId::PartitionInfoGetRegs => 0xc400008bu32,
            FuncId::IdGet => 0x84000069u32,
            FuncId::SpmIdGet => 0x84000085u32,
            FuncId::ConsoleLog32 => 0x8400008au32,
            FuncId::ConsoleLog64 => 0xc400008au32,
            FuncId::MsgWait => 0x8400006bu32,
            FuncId::Yield => 0x8400006cu32,
            FuncId::Run => 0x8400006du32,
            FuncId::NormalWorldResume => 0x8400007cu32,
            FuncId::MsgSend2 => 0x84000086u32,
            FuncId::MsgSendDirectReq32 => 0x8400006fu32,
            FuncId::MsgSendDirectReq64 => 0xc400006fu32,
            FuncId::MsgSendDirectReq64_2 => 0xc400008du32,
            FuncId::MsgSendDirectResp32 => 0x84000070u32,
            FuncId::MsgSendDirectResp64 => 0xc4000070u32,
            FuncId::MsgSendDirectResp64_2 => 0xc400008eu32,
            FuncId::NotificationBitmapCreate => 0x8400007du32,
            FuncId::NotificationBitmapDestroy => 0x8400007eu32,
            FuncId::NotificationBind => 0x8400007fu32,
            FuncId::NotificationUnbind => 0x84000080u32,
            FuncId::NotificationSet => 0x84000081u32,
            FuncId::NotificationGet => 0x84000082u32,
            FuncId::NotificationInfoGet32 => 0x84000083u32,
            FuncId::NotificationInfoGet64 => 0xc4000083u32,
            FuncId::El3IntrHandle => 0x8400008cu32,
            FuncId::SecondaryEpRegister32 => 0x84000087u32,
            FuncId::SecondaryEpRegister64 => 0xc4000087u32,
            FuncId::MemDonate32 => 0x84000071u32,
            FuncId::MemDonate64 => 0xc4000071u32,
            FuncId::MemLend32 => 0x84000072u32,
            FuncId::MemLend64 => 0xc4000072u32,
            FuncId::MemShare32 => 0x84000073u32,
            FuncId::MemShare64 => 0xc4000073u32,
            FuncId::MemRetrieveReq32 => 0x84000074u32,
            FuncId::MemRetrieveReq64 => 0xc4000074u32,
            FuncId::MemRetrieveResp => 0x84000075u32,
            FuncId::MemRelinquish => 0x84000076u32,
            FuncId::MemReclaim => 0x84000077u32,
            FuncId::MemPermGet32 => 0x84000088u32,
            FuncId::MemPermGet64 => 0xc4000088u32,
            FuncId::MemPermSet32 => 0x84000089u32,
            FuncId::MemPermSet64 => 0xc4000089u32,
        }
    }

    /// The function whose ID is `v`, or `UnrecognisedFunctionId` if there is none.
    pub open spec fn from_value(v: u32) -> Result<FuncId, Error> {
        match v {
            0x84000060u32 => Ok(FuncId::Error),
            0x84000061u32 => Ok(FuncId::Success32),
            0xc4000061u32 => Ok(FuncId::Success64),
            0x84000062u32 => Ok(FuncId::Interrupt),
            0x84000063u32 => Ok(FuncId::Version),
            0x84000064u32 => Ok(FuncId::Features),
            0x84000084u32 => Ok(FuncId::RxAcquire),
            0x84000065u32 => Ok(FuncId::RxRelease),
            0x84000066u32 => Ok(FuncId::RxTxMap32),
            0xc4000066u32 => Ok(FuncId::RxTxMap64),
            0x84000067u32 => Ok(FuncId::RxTxUnmap),
            0x84000068u32 => Ok(FuncId::PartitionInfoGet),
            0xc400008bu32 => Ok(FuncId::PartitionInfoGetRegs),
            0x84000069u32 => Ok(FuncId::IdGet),
            0x84000085u32 => Ok(FuncId::SpmIdGet),
            0x8400008au32 => Ok(FuncId::ConsoleLog32),
            0xc400008au32 => Ok(FuncId::ConsoleLog64),
            0x8400006bu32 => Ok(FuncId::MsgWait),
            0x8400006cu32 => Ok(FuncId::Yield),
            0x8400006du32 => Ok(FuncId::Run),
            0x8400007cu32 => Ok(FuncId::NormalWorldResume),
            0x84000086u32 => Ok(FuncId::MsgSend2),
            0x8400006fu32 => Ok(FuncId::MsgSendDirectReq32),
            0xc400006fu32 => Ok(FuncId::MsgSendDirectReq64),
            0xc400008du32 => Ok(FuncId::MsgSendDirectReq64_2),
            0x84000070u32 => Ok(FuncId::MsgSendDirectResp32),
            0xc4000070u32 => Ok(FuncId::MsgSendDirectResp64),
            0xc400008eu32 => Ok(FuncId::MsgSendDirectResp64_2),
            0x8400007du32 => Ok(FuncId::NotificationBitmapCreate),
            0x8400007eu32 => Ok(FuncId::NotificationBitmapDestroy),
            0x8400007fu32 => Ok(FuncId::NotificationBind),
            0x84000080u32 => Ok(FuncId::NotificationUnbind),
            0x84000081u32 => Ok(FuncId::NotificationSet),
            0x84000082u32 => Ok(FuncId::NotificationGet),
            0x84000083u32 => Ok(FuncId::NotificationInfoGet32),
            0xc4000083u32 => Ok(FuncId::NotificationInfoGet64),
            0x8400008cu32 => Ok(FuncId::El3IntrHandle),
            0x84000087u32 => Ok(FuncId::SecondaryEpRegister32),
            0xc4000087u32 => Ok(FuncId::SecondaryEpRegister64),
            0x84000071u32 => Ok(FuncId::MemDonate32),
            0xc4000071u32 => Ok(FuncId::MemDonate64),
            0x84000072u32 => Ok(FuncId::MemLend32),
            0xc4000072u32 => Ok(FuncId::MemLend64),
            0x84000073u32 => Ok(FuncId::MemShare32),
            0xc4000073u32 => Ok(FuncId::MemShare64),
            0x84000074u32 => Ok(FuncId::MemRetrieveReq32),
            0xc4000074u32 => Ok(FuncId::MemRetrieveReq64),
            0x84000075u32 => Ok(FuncId::MemRetrieveResp),
            0x84000076u32 => Ok(FuncId::MemRelinquish),
            0x84000077u32 => Ok(FuncId::MemReclaim),
            0x84000088u32 => Ok(FuncId::MemPermGet32),
            0xc4000088u32 => Ok(FuncId::MemPermGet64),
            0x84000089u32 => Ok(FuncId::MemPermSet32),
            0xc4000089u32 => Ok(FuncId::MemPermSet64),
            _ => Err(Error::UnrecognisedFunctionId(v)),
        }
    }

    /// Whether the function uses the SMC32/HVC32 calling convention: bit 30 of its ID is clear.
    pub open spec fn spec_is_32bit(self) -> bool {
        self.value() & 0x4000_0000u32 == 0
    }

    /// Returns true if this is a 32-bit call, or false if it is a 64-bit call.
    pub fn is_32bit(&self) -> (r: bool)
        ensures
            r == self.spec_is_32bit(),
    {
        u32::from(*self) & 0x4000_0000u32 == 0
    }
}

impl TryFrom<u32> for FuncId {
    type Error = Error;

    fn try_from(v: u32) -> (r: Result<Self, Error>)
        ensures
            r == FuncId::from_value(v),
    {
        match v {
            0x84000060 => Ok(FuncId::Error),
            0x84000061 => Ok(FuncId::Success32),
            0xc4000061 => Ok(FuncId::Success64),
            0x84000062 => Ok(FuncId::Interrupt),
            0x84000063 => Ok(FuncId::Version),
            0x84000064 => Ok(FuncId::Features),
            0x84000084 => Ok(FuncId::RxAcquire),
            0x84000065 => Ok(FuncId::RxRelease),
            0x84000066 => Ok(FuncId::RxTxMap32),
            0xc4000066 => Ok(FuncId::RxTxMap64),
            0x84000067 => Ok(FuncId::RxTxUnmap),
            0x84000068 => Ok(FuncId::PartitionInfoGet),
            0xc400008b => Ok(FuncId::PartitionInfoGetRegs),
            0x84000069 => Ok(FuncId::IdGet),
            0x84000085 => Ok(FuncId::SpmIdGet),
            0x8400008a => Ok(FuncId::ConsoleLog32),
            0xc400008a => Ok(FuncId::ConsoleLog64),
            0x8400006b => Ok(FuncId::MsgWait),
            0x8400006c => Ok(FuncId::Yield),
            0x8400006d => Ok(FuncId::Run),
            0x8400007c => Ok(FuncId::NormalWorldResume),
            0x84000086 => Ok(FuncId::MsgSend2),
            0x8400006f => Ok(FuncId::MsgSendDirectReq32),
            0xc400006f => Ok(FuncId::MsgSendDirectReq64),
            0xc400008d => Ok(FuncId::MsgSendDirectReq64_2),
            0x84000070 => Ok(FuncId::MsgSendDirectResp32),
            0xc4000070 => Ok(FuncId::MsgSendDirectResp64),
            0xc400008e => Ok(FuncId::MsgSendDirectResp64_2),
            0x8400007d => Ok(FuncId::NotificationBitmapCreate),
            0x8400007e => Ok(FuncId::NotificationBitmapDestroy),
            0x8400007f => Ok(FuncId::NotificationBind),
            0x84000080 => Ok(FuncId::NotificationUnbind),
            0x84000081 => Ok(FuncId::NotificationSet),
            0x84000082 => Ok(FuncId::NotificationGet),
            0x84000083 => Ok(FuncId::NotificationInfoGet32),
            0xc4000083 => Ok(FuncId::NotificationInfoGet64),
            0x8400008c => Ok(FuncId::El3IntrHandle),
            0x84000087 => Ok(FuncId::SecondaryEpRegister32),
            0xc4000087 => Ok(FuncId::SecondaryEpRegister64),
            0x84000071 => Ok(FuncId::MemDonate32),
            0xc4000071 => Ok(FuncId::MemDonate64),
            0x84000072 => Ok(FuncId::MemLend32),
            0xc4000072 => Ok(FuncId::MemLend64),
            0x84000073 => Ok(FuncId::MemShare32),
            0xc4000073 => Ok(FuncId::MemShare64),
            0x84000074 => Ok(FuncId::MemRetrieveReq32),
            0xc4000074 => Ok(FuncId::MemRetrieveReq64),
            0x84000075 => Ok(FuncId::MemRetrieveResp),
            0x84000076 => Ok(FuncId::MemRelinquish),
            0x84000077 => Ok(FuncId::MemReclaim),
            0x84000088 => Ok(FuncId::MemPermGet32),
            0xc4000088 => Ok(FuncId::MemPermGet64),
            0x84000089 => Ok(FuncId::MemPermSet32),
            0xc4000089 => Ok(FuncId::MemPermSet64),
            _ => Err(Error::UnrecognisedFunctionId(v)),
        }
    }
}

impl vstd::std_specs::convert::TryFromSpecImpl<u32> for FuncId {
    open spec fn obeys_try_from_spec() -> bool {
        true
    }

    open spec fn try_from_spec(v: u32) -> Result<Self, Error> {
        FuncId::from_value(v)
    }
}

impl From<FuncId> for u32 {
    fn from(f: FuncId) -> (r: u32)
        ensures
            r == f.value(),
    {
        match f {
            FuncId::Error => 0x84000060,
            FuncId::Success32 => 0x84000061,
            FuncId::Success64 => 0xc4000061,
            FuncId::Interrupt => 0x84000062,
            FuncId::Version => 0x84000063,
            FuncId::Features => 0x84000064,
            FuncId::RxAcquire => 0x84000084,
            FuncId::RxRelease => 0x84000065,
            FuncId::RxTxMap32 => 0x84000066,
            FuncId::RxTxMap64 => 0xc4000066,
            FuncId::RxTxUnmap => 0x84000067,
            FuncId::PartitionInfoGet => 0x84000068,
            FuncId::PartitionInfoGetRegs => 0xc400008b,
            FuncId::IdGet => 0x84000069,
            FuncId::SpmIdGet => 0x84000085,
            FuncId::ConsoleLog32 => 0x8400008a,
            FuncId::ConsoleLog64 => 0xc400008a,
            FuncId::MsgWait => 0x8400006b,
            FuncId::Yield => 0x8400006c,
            FuncId::Run => 0x8400006d,
            FuncId::NormalWorldResume => 0x8400007c,
            FuncId::MsgSend2 => 0x84000086,
            FuncId::MsgSendDirectReq32 => 0x8400006f,
            FuncId::MsgSendDirectReq64 => 0xc400006f,
            FuncId::MsgSendDirectReq64_2 => 0xc400008d,
            FuncId::MsgSendDirectResp32 => 0x84000070,
            FuncId::MsgSendDirectResp64 => 0xc4000070,
            FuncId::MsgSendDirectResp64_2 => 0xc400008e,
            FuncId::NotificationBitmapCreate => 0x8400007d,
            FuncId::NotificationBitmapDestroy => 0x8400007e,
            FuncId::NotificationBind => 0x8400007f,
            FuncId::NotificationUnbind => 0x84000080,
            FuncId::NotificationSet => 0x84000081,
            FuncId::NotificationGet => 0x84000082,
            FuncId::NotificationInfoGet32 => 0x84000083,
            FuncId::NotificationInfoGet64 => 0xc4000083,
            FuncId::El3IntrHandle => 0x8400008c,
            FuncId::SecondaryEpRegister32 => 0x84000087,
            FuncId::SecondaryEpRegister64 => 0xc4000087,
            FuncId::MemDonate32 => 0x84000071,
            FuncId::MemDonate64 => 0xc4000071,
            FuncId::MemLend32 => 0x84000072,
            FuncId::MemLend64 => 0xc4000072,
            FuncId::MemShare32 => 0x84000073,
            FuncId::MemShare64 => 0xc4000073,
            FuncId::MemRetrieveReq32 => 0x84000074,
            FuncId::MemRetrieveReq64 => 0xc4000074,
            FuncId::MemRetrieveResp => 0x84000075,
            FuncId::MemRelinquish => 0x84000076,
            FuncId::MemReclaim => 0x84000077,
            FuncId::MemPermGet32 => 0x84000088,
            FuncId::MemPermGet64 => 0xc4000088,
            FuncId::MemPermSet32 => 0x84000089,
            FuncId::MemPermSet64 => 0xc4000089,
        }
    }
}

impl vstd::std_specs::convert::FromSpecImpl<FuncId> for u32 {
    open spec fn obeys_from_spec() -> bool {
        true
    }

    open spec fn from_spec(f: FuncId) -> u32 {
        f.value()
    }
}

/// Reading back the ID of a function gives that function.
pub proof fn lemma_func_id_roundtrip(f: FuncId)
    ensures
        FuncId::from_value(f.value()) == Ok::<FuncId, Error>(f),
{
}

/// A recognised ID is the ID of the function it gives, and every ID has bit 31 set.
pub proof fn lemma_func_id_value_unique(v: u32)
    ensures
        FuncId::from_value(v) matches Ok(f) ==> f.value() == v && v & 0x8000_0000u32 != 0,
{
    assert(v >= 0x8000_0000u32 ==> v & 0x8000_0000u32 != 0) by (bit_vector);
}

} // verus!
