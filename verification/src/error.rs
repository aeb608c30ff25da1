//! The error taxonomy of the CUDA driver API.
//!
//! Nearly every driver call can fail, and calls with no failure condition of
//! their own may still report the failure of an earlier asynchronous launch.
//! [`CudaError`] names each status the driver can report, plus the few
//! conditions this binding detects by itself.
use vstd::prelude::*;

verus! {

/// Largest discriminant that mirrors a status code of the driver.
pub const DRIVER_CODE_MAX: u32 = 999;

/// Smallest discriminant of a variant that this binding raises by itself.
/// The gap up to here keeps such variants clear of codes that later drivers
/// may introduce.
pub const BINDING_CODE_MIN: u32 = 100_000;

/// Every error that an operation of this binding can report.
///
/// The variants up to `UnknownError` mirror the driver's status codes one for
/// one; the remaining ones are raised by the binding itself. A value carries
/// no data besides its tag and owns nothing.
#[allow(missing_docs)]
#[non_exhaustive]
#[derive(Clone, Copy, Debug, PartialEq, Eq, Structural)]
pub enum CudaError {
    InvalidValue,
    OutOfMemory,
    NotInitialized,
    Deinitialized,
    ProfilerDisabled,
    ProfilerNotInitialized,
    ProfilerAlreadyStarted,
    ProfilerAlreadyStopped,
    StubLibrary,
    DeviceUnavailable,
    NoDevice,
    InvalidDevice,
    DeviceNotLicensed,
    InvalidImage,
    InvalidContext,
    ContextAlreadyCurrent,
    MapFailed,
    UnmapFailed,
    ArrayIsMapped,
    AlreadyMapped,
    NoBinaryForGpu,
    AlreadyAcquired,
    NotMapped,
    NotMappedAsArray,
    NotMappedAsPointer,
    EccUncorrectable,
    UnsupportedLimit,
    ContextAlreadyInUse,
    PeerAccessUnsupported,
    InvalidPtx,
    InvalidGraphicsContext,
    NvlinkUncorrectable,
    JitCompilerNotFound,
    UnsupportedPtxVersion,
    JitCompilationDisabled,
    UnsupportedExecAffinity,
    UnsupportedDevSideSync,
    InvalidSource,
    FileNotFound,
    SharedObjectSymbolNotFound,
    SharedObjectInitFailed,
    OperatingSystemError,
    InvalidHandle,
    IllegalState,
    LossyQuery,
    NotFound,
    NotReady,
    IllegalAddress,
    LaunchOutOfResources,
    LaunchTimeout,
    LaunchIncompatibleTexturing,
    PeerAccessAlreadyEnabled,
    PeerAccessNotEnabled,
    PrimaryContextActive,
    ContextIsDestroyed,
    AssertError,
    TooManyPeers,
    HostMemoryAlreadyRegistered,
    HostMemoryNotRegistered,
    HardwareStackError,
    IllegalInstruction,
    MisalignedAddress,
    InvalidAddressSpace,
    InvalidProgramCounter,
    LaunchFailed,
    CooperativeLaunchTooLarge,
    NotPermitted,
    NotSupported,
    SystemNotReady,
    SystemDriverMismatch,
    CompatNotSupportedOnDevice,
    MpsConnectionFailed,
    MpsRpcFailed,
    MpsServerNotReady,
    MpsMaxClientsReached,
    MpsMaxConnectionsReached,
    MpsClientTerminated,
    CdpNotSupported,
    CdpVersionMismatch,
    StreamCaptureUnsupported,
    StreamCaptureInvalid,
    StreamCaptureMerge,
    StreamCaptureUnmatched,
    StreamCaptureUnjoined,
    StreamCaptureIsolated,
    StreamCaptureImplicit,
    CapturedEvent,
    StreamCaptureWrongThread,
    Timeout,
    GraphExecUpdateFailure,
    ExternalDevice,
    InvalidClusterSize,
    FunctionNotLoaded,
    InvalidResourceType,
    InvalidResourceConfiguration,
    UnknownError,

    // Raised by this binding, never by the driver.
    InvalidMemoryAllocation,
    OptixError,
}

/// Result of a fallible operation.
pub type CudaResult<T> = Result<T, CudaError>;

/// Result of releasing a resource. A failed release hands the resource back
/// together with the error, so that the caller can retry or escalate.
pub type DropResult<T> = Result<(), (CudaError, T)>;

impl CudaError {
    /// The stable integer tag of a variant. For a variant that mirrors a
    /// driver status this is the driver's own number for that status.
    pub open spec fn discriminant(self) -> u32 {
        match self {
            CudaError::InvalidValue => 1,
            CudaError::OutOfMemory => 2,
            CudaError::NotInitialized => 3,
            CudaError::Deinitialized => 4,
            CudaError::ProfilerDisabled => 5,
            CudaError::ProfilerNotInitialized => 6,
            CudaError::ProfilerAlreadyStarted => 7,
            CudaError::ProfilerAlreadyStopped => 8,
            CudaError::StubLibrary => 34,
            CudaError::DeviceUnavailable => 46,
            CudaError::NoDevice => 100,
            CudaError::InvalidDevice => 101,
            CudaError::DeviceNotLicensed => 102,
            CudaError::InvalidImage => 200,
            CudaError::InvalidContext => 201,
            CudaError::ContextAlreadyCurrent => 202,
            CudaError::MapFailed => 205,
            CudaError::UnmapFailed => 206,
            CudaError::ArrayIsMapped => 207,
            CudaError::AlreadyMapped => 208,
            CudaError::NoBinaryForGpu => 209,
            CudaError::AlreadyAcquired => 210,
            CudaError::NotMapped => 211,
            CudaError::NotMappedAsArray => 212,
            CudaError::NotMappedAsPointer => 213,
            CudaError::EccUncorrectable => 214,
            CudaError::UnsupportedLimit => 215,
            CudaError::ContextAlreadyInUse => 216,
            CudaError::PeerAccessUnsupported => 217,
            CudaError::InvalidPtx => 218,
            CudaError::InvalidGraphicsContext => 219,
            CudaError::NvlinkUncorrectable => 220,
            CudaError::JitCompilerNotFound => 221,
            CudaError::UnsupportedPtxVersion => 222,
            CudaError::JitCompilationDisabled => 223,
            CudaError::UnsupportedExecAffinity => 224,
            CudaError::UnsupportedDevSideSync => 225,
            CudaError::InvalidSource => 300,
            CudaError::FileNotFound => 301,
            CudaError::SharedObjectSymbolNotFound => 302,
            CudaError::SharedObjectInitFailed => 303,
            CudaError::OperatingSystemError => 304,
            CudaError::InvalidHandle => 400,
            CudaError::IllegalState => 401,
            CudaError::LossyQuery => 402,
            CudaError::NotFound => 500,
            CudaError::NotReady => 600,
            CudaError::IllegalAddress => 700,
            CudaError::LaunchOutOfResources => 701,
            CudaError::LaunchTimeout => 702,
            CudaError::LaunchIncompatibleTexturing => 703,
            CudaError::PeerAccessAlreadyEnabled => 704,
            CudaError::PeerAccessNotEnabled => 705,
            CudaError::PrimaryContextActive => 708,
            CudaError::ContextIsDestroyed => 709,
            CudaError::AssertError => 710,
            CudaError::TooManyPeers => 711,
            CudaError::HostMemoryAlreadyRegistered => 712,
            CudaError::HostMemoryNotRegistered => 713,
            CudaError::HardwareStackError => 714,
            CudaError::IllegalInstruction => 715,
            CudaError::MisalignedAddress => 716,
            CudaError::InvalidAddressSpace => 717,
            CudaError::InvalidProgramCounter => 718,
            CudaError::LaunchFailed => 719,
            CudaError::CooperativeLaunchTooLarge => 720,
            CudaError::NotPermitted => 800,
            CudaError::NotSupported => 801,
            CudaError::SystemNotReady => 802,
            CudaError::SystemDriverMismatch => 803,
            CudaError::CompatNotSupportedOnDevice => 804,
            CudaError::MpsConnectionFailed => 805,
            CudaError::MpsRpcFailed => 806,
            CudaError::MpsServerNotReady => 807,
            CudaError::MpsMaxClientsReached => 808,
            CudaError::MpsMaxConnectionsReached => 809,
            CudaError::MpsClientTerminated => 810,
            CudaError::CdpNotSupported => 811,
            CudaError::CdpVersionMismatch => 812,
            CudaError::StreamCaptureUnsupported => 900,
            CudaError::StreamCaptureInvalid => 901,
            CudaError::StreamCaptureMerge => 902,
            CudaError::StreamCaptureUnmatched => 903,
            CudaError::StreamCaptureUnjoined => 904,
            CudaError::StreamCaptureIsolated => 905,
            CudaError::StreamCaptureImplicit => 906,
            CudaError::CapturedEvent => 907,
            CudaError::StreamCaptureWrongThread => 908,
            CudaError::Timeout => 909,
            CudaError::GraphExecUpdateFailure => 910,
            CudaError::ExternalDevice => 911,
            CudaError::InvalidClusterSize => 912,
            CudaError::FunctionNotLoaded => 913,
            CudaError::InvalidResourceType => 914,
            CudaError::InvalidResourceConfiguration => 915,
            CudaError::UnknownError => 999,
            CudaError::InvalidMemoryAllocation => 100_100,
            CudaError::OptixError => 100_101,
        }
    }

    /// Whether the variant mirrors a status code of the driver.
    pub open spec fn is_driver_error(self) -> bool {
        self.discriminant() <= DRIVER_CODE_MAX
    }

    /// The discriminant of this variant.
    pub fn code(self) -> (code: u32)
        ensures
            code == self.discriminant(),
    {
        match self {
            CudaError::InvalidValue => 1,
            CudaError::OutOfMemory => 2,
            CudaError::NotInitialized => 3,
            CudaError::Deinitialized => 4,
            CudaError::ProfilerDisabled => 5,
            CudaError::ProfilerNotInitialized => 6,
            CudaError::ProfilerAlreadyStarted => 7,
            CudaError::ProfilerAlreadyStopped => 8,
            CudaError::StubLibrary => 34,
            CudaError::DeviceUnavailable => 46,
            CudaError::NoDevice => 100,
            CudaError::InvalidDevice => 101,
            CudaError::DeviceNotLicensed => 102,
            CudaError::InvalidImage => 200,
            CudaError::InvalidContext => 201,
            CudaError::ContextAlreadyCurrent => 202,
            CudaError::MapFailed => 205,
            CudaError::UnmapFailed => 206,
            CudaError::ArrayIsMapped => 207,
            CudaError::AlreadyMapped => 208,
            CudaError::NoBinaryForGpu => 209,
            CudaError::AlreadyAcquired => 210,
            CudaError::NotMapped => 211,
            CudaError::NotMappedAsArray => 212,
            CudaError::NotMappedAsPointer => 213,
            CudaError::EccUncorrectable => 214,
            CudaError::UnsupportedLimit => 215,
            CudaError::ContextAlreadyInUse => 216,
            CudaError::PeerAccessUnsupported => 217,
            CudaError::InvalidPtx => 218,
            CudaError::InvalidGraphicsContext => 219,
            CudaError::NvlinkUncorrectable => 220,
            CudaError::JitCompilerNotFound => 221,
            CudaError::UnsupportedPtxVersion => 222,
            CudaError::JitCompilationDisabled => 223,
            CudaError::UnsupportedExecAffinity => 224,
            CudaError::UnsupportedDevSideSync => 225,
            CudaError::InvalidSource => 300,
            CudaError::FileNotFound => 301,
            CudaError::SharedObjectSymbolNotFound => 302,
            CudaError::SharedObjectInitFailed => 303,
            CudaError::OperatingSystemError => 304,
            CudaError::InvalidHandle => 400,
            CudaError::IllegalState => 401,
            CudaError::LossyQuery => 402,
            CudaError::NotFound => 500,
            CudaError::NotReady => 600,
            CudaError::IllegalAddress => 700,
            CudaError::LaunchOutOfResources => 701,
            CudaError::LaunchTimeout => 702,
            CudaError::LaunchIncompatibleTexturing => 703,
            CudaError::PeerAccessAlreadyEnabled => 704,
            CudaError::PeerAccessNotEnabled => 705,
            CudaError::PrimaryContextActive => 708,
            CudaError::ContextIsDestroyed => 709,
            CudaError::AssertError => 710,
            CudaError::TooManyPeers => 711,
            CudaError::HostMemoryAlreadyRegistered => 712,
            CudaError::HostMemoryNotRegistered => 713,
            CudaError::HardwareStackError => 714,
            CudaError::IllegalInstruction => 715,
            CudaError::MisalignedAddress => 716,
            CudaError::InvalidAddressSpace => 717,
            CudaError::InvalidProgramCounter => 718,
            CudaError::LaunchFailed => 719,
            CudaError::CooperativeLaunchTooLarge => 720,
            CudaError::NotPermitted => 800,
            CudaError::NotSupported => 801,
            CudaError::SystemNotReady => 802,
            CudaError::SystemDriverMismatch => 803,
            CudaError::CompatNotSupportedOnDevice => 804,
            CudaError::MpsConnectionFailed => 805,
            CudaError::MpsRpcFailed => 806,
            CudaError::MpsServerNotReady => 807,
            CudaError::MpsMaxClientsReached => 808,
            CudaError::MpsMaxConnectionsReached => 809,
            CudaError::MpsClientTerminated => 810,
            CudaError::CdpNotSupported => 811,
            CudaError::CdpVersionMismatch => 812,
            CudaError::StreamCaptureUnsupported => 900,
            CudaError::StreamCaptureInvalid => 901,
            CudaError::StreamCaptureMerge => 902,
            CudaError::StreamCaptureUnmatched => 903,
            CudaError::StreamCaptureUnjoined => 904,
            CudaError::StreamCaptureIsolated => 905,
            CudaError::StreamCaptureImplicit => 906,
            CudaError::CapturedEvent => 907,
            CudaError::StreamCaptureWrongThread => 908,
            CudaError::Timeout => 909,
            CudaError::GraphExecUpdateFailure => 910,
            CudaError::ExternalDevice => 911,
            CudaError::InvalidClusterSize => 912,
            CudaError::FunctionNotLoaded => 913,
            CudaError::InvalidResourceType => 914,
            CudaError::InvalidResourceConfiguration => 915,
            CudaError::UnknownError => 999,
            CudaError::InvalidMemoryAllocation => 100_100,
            CudaError::OptixError => 100_101,
        }
    }
}

/// Discriminants are unique: two errors are equal exactly when their
/// discriminants are.
pub proof fn lemma_discriminant_unique(a: CudaError, b: CudaError)
    ensures
        a.discriminant() == b.discriminant() <==> a == b,
{
}

/// No discriminant is zero, which is the driver's success value. A variant
/// either mirrors a driver status or lies at or above `BINDING_CODE_MIN`,
/// well clear of the driver's numbering.
pub proof fn lemma_discriminant_range(e: CudaError)
    ensures
        e.discriminant() != 0,
        e.is_driver_error() || e.discriminant() >= BINDING_CODE_MIN,
{
}

} // verus!
