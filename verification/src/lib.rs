//! Arm Firmware Framework for A-profile (FF-A): the interfaces that FF-A components exchange,
//! their arguments, and their encoding in the general purpose registers, with contracts and laws
//! checked by Verus.
pub mod abi;
pub mod args;
pub mod bits;
pub mod console;
pub mod console_log;
pub mod decode;
pub mod encode;
pub mod error;
pub mod func_id;
pub mod interface;
pub mod memory_management;
pub mod roundtrip;
pub mod uuid_repr;
pub mod version;

pub use args::{
    ConsoleLogChars, DirectMsg2Args, DirectMsgArgs, Feature, FeatureId, Instance, MemAddr,
    MemOpBuf, RxTxAddr, SecondaryEpRegisterAddr, SuccessArgs, TargetInfo, VmAvailabilityStatus,
    WarmBootType, FFA_PAGE_SIZE_4K,
};
pub use console::CallFfa;
pub use console_log::{
    parse_console_log, CONSOLE_LOG_32_MAX_CHAR_CNT, CONSOLE_LOG_64_MAX_CHAR_CNT,
};
pub use error::{Error, FfaError};
pub use func_id::FuncId;
pub use interface::Interface;
pub use uuid_repr::Uuid;
pub use version::Version;
