//! Translation of raw driver status codes into typed results.
//!
//! Every call into the driver ends in a raw status code. The code is turned
//! into a [`CudaResult`] at once, so that the layers above only ever see
//! [`CudaError`].
use vstd::prelude::*;
use crate::error::CudaError;
use crate::error::CudaResult;
use crate::error::DropResult;
use crate::error::DRIVER_CODE_MAX;
use crate::error::lemma_discriminant_unique;

verus! {

/// The status code with which the driver reports success.
pub const CUDA_SUCCESS: u32 = 0;

/// Whether `raw` is the number of a failure status that [`CudaError`] mirrors.
pub open spec fn is_error_code(raw: u32) -> bool {
    exists|e: CudaError| e.is_driver_error() && #[trigger] e.discriminant() == raw
}

/// The error that stands for the failure status `raw`: the variant whose
/// discriminant is `raw` where the driver's numbering has one, and
/// `UnknownError` for a number that it lacks.
pub open spec fn error_of(raw: u32) -> CudaError {
    if is_error_code(raw) {
        choose|e: CudaError| e.is_driver_error() && #[trigger] e.discriminant() == raw
    } else {
        CudaError::UnknownError
    }
}

/// The typed result that stands for the raw status `raw`.
pub open spec fn translate(raw: u32) -> CudaResult<()> {
    if raw == CUDA_SUCCESS {
        Ok(())
    } else {
        Err(error_of(raw))
    }
}

/// A driver error is the error of its own discriminant.
pub proof fn lemma_error_of_discriminant(e: CudaError)
    requires
        e.is_driver_error(),
    ensures
        is_error_code(e.discriminant()),
        error_of(e.discriminant()) == e,
{
    let raw = e.discriminant();
    assert(is_error_code(raw));
    lemma_discriminant_unique(error_of(raw), e);
}

/// Every raw status has exactly one translation: success for the success
/// value alone, and otherwise a driver error, which carries the number of the
/// status wherever the driver's numbering has it.
pub proof fn lemma_translate_total(raw: u32)
    ensures
        translate(raw) is Ok <==> raw == CUDA_SUCCESS,
        translate(raw) matches Err(e) ==> e.is_driver_error(),
        translate(raw) matches Err(e) ==> (is_error_code(raw) ==> e.discriminant() == raw),
        translate(raw) matches Err(e) ==> (!is_error_code(raw) ==> e == CudaError::UnknownError),
{
}

/// Recovering the raw code of a driver error and translating that code gives
/// the same error again.
pub proof fn lemma_round_trip(e: CudaError)
    requires
        e.is_driver_error(),
    ensures
        e.spec_raw_code() == Some(e.discriminant()),
        translate(e.discriminant()) == Err::<(), CudaError>(e),
{
    lemma_error_of_discriminant(e);
}

impl CudaError {
    /// The raw status that this error mirrors; `None` for an error that the
    /// binding raises by itself.
    pub open spec fn spec_raw_code(self) -> Option<u32> {
        if self.is_driver_error() {
            Some(self.discriminant())
        } else {
            None
        }
    }

    /// Recovers the raw driver status behind this error, the number to ask
    /// the driver about. An error that the binding raises by itself has none.
    #[verifier::when_used_as_spec(spec_raw_code)]
    pub fn raw_code(self) -> (code: Option<u32>)
        ensures
            code == self.spec_raw_code(),
    {
        let code = self.code();
        if code <= DRIVER_CODE_MAX {
            Some(code)
        } else {
            None
        }
    }
}

/// Turns the raw status of a driver call into a typed result.
///
/// Success becomes `Ok(())`, and each failure status the variant that carries
/// its number. A number without a variant, as a later driver may report,
/// becomes `UnknownError`; it is never taken for success.
pub fn to_result(raw: u32) -> (r: CudaResult<()>)
    ensures
        r == translate(raw),
        r is Ok <==> raw == CUDA_SUCCESS,
{
    let r = match raw {
        0 => Ok(()),
        1 => Err(CudaError::InvalidValue),
        2 => Err(CudaError::OutOfMemory),
        3 => Err(CudaError::NotInitialized),
        4 => Err(CudaError::Deinitialized),
        5 => Err(CudaError::ProfilerDisabled),
        6 => Err(CudaError::ProfilerNotInitialized),
        7 => Err(CudaError::ProfilerAlreadyStarted),
        8 => Err(CudaError::ProfilerAlreadyStopped),
        34 => Err(CudaError::StubLibrary),
        46 => Err(CudaError::DeviceUnavailable),
        100 => Err(CudaError::NoDevice),
        101 => Err(CudaError::InvalidDevice),
        102 => Err(CudaError::DeviceNotLicensed),
        200 => Err(CudaError::InvalidImage),
        201 => Err(CudaError::InvalidContext),
        202 => Err(CudaError::ContextAlreadyCurrent),
        205 => Err(CudaError::MapFailed),
        206 => Err(CudaError::UnmapFailed),
        207 => Err(CudaError::ArrayIsMapped),
        208 => Err(CudaError::AlreadyMapped),
        209 => Err(CudaError::NoBinaryForGpu),
        210 => Err(CudaError::AlreadyAcquired),
        211 => Err(CudaError::NotMapped),
        212 => Err(CudaError::NotMappedAsArray),
        213 => Err(CudaError::NotMappedAsPointer),
        214 => Err(CudaError::EccUncorrectable),
        215 => Err(CudaError::UnsupportedLimit),
        216 => Err(CudaError::ContextAlreadyInUse),
        217 => Err(CudaError::PeerAccessUnsupported),
        218 => Err(CudaError::InvalidPtx),
        219 => Err(CudaError::InvalidGraphicsContext),
        220 => Err(CudaError::NvlinkUncorrectable),
        221 => Err(CudaError::JitCompilerNotFound),
        222 => Err(CudaError::UnsupportedPtxVersion),
        223 => Err(CudaError::JitCompilationDisabled),
        224 => Err(CudaError::UnsupportedExecAffinity),
        225 => Err(CudaError::UnsupportedDevSideSync),
        300 => Err(CudaError::InvalidSource),
        301 => Err(CudaError::FileNotFound),
        302 => Err(CudaError::SharedObjectSymbolNotFound),
        303 => Err(CudaError::SharedObjectInitFailed),
        304 => Err(CudaError::OperatingSystemError),
        400 => Err(CudaError::InvalidHandle),
        401 => Err(CudaError::IllegalState),
        402 => Err(CudaError::LossyQuery),
        500 => Err(CudaError::NotFound),
        600 => Err(CudaError::NotReady),
        700 => Err(CudaError::IllegalAddress),
        701 => Err(CudaError::LaunchOutOfResources),
        702 => Err(CudaError::LaunchTimeout),
        703 => Err(CudaError::LaunchIncompatibleTexturing),
        704 => Err(CudaError::PeerAccessAlreadyEnabled),
        705 => Err(CudaError::PeerAccessNotEnabled),
        708 => Err(CudaError::PrimaryContextActive),
        709 => Err(CudaError::ContextIsDestroyed),
        710 => Err(CudaError::AssertError),
        711 => Err(CudaError::TooManyPeers),
        712 => Err(CudaError::HostMemoryAlreadyRegistered),
        713 => Err(CudaError::HostMemoryNotRegistered),
        714 => Err(CudaError::HardwareStackError),
        715 => Err(CudaError::IllegalInstruction),
        716 => Err(CudaError::MisalignedAddress),
        717 => Err(CudaError::InvalidAddressSpace),
        718 => Err(CudaError::InvalidProgramCounter),
        719 => Err(CudaError::LaunchFailed),
        720 => Err(CudaError::CooperativeLaunchTooLarge),
        800 => Err(CudaError::NotPermitted),
        801 => Err(CudaError::NotSupported),
        802 => Err(CudaError::SystemNotReady),
        803 => Err(CudaError::SystemDriverMismatch),
        804 => Err(CudaError::CompatNotSupportedOnDevice),
        805 => Err(CudaError::MpsConnectionFailed),
        806 => Err(CudaError::MpsRpcFailed),
        807 => Err(CudaError::MpsServerNotReady),
        808 => Err(CudaError::MpsMaxClientsReached),
        809 => Err(CudaError::MpsMaxConnectionsReached),
        810 => Err(CudaError::MpsClientTerminated),
        811 => Err(CudaError::CdpNotSupported),
        812 => Err(CudaError::CdpVersionMismatch),
        900 => Err(CudaError::StreamCaptureUnsupported),
        901 => Err(CudaError::StreamCaptureInvalid),
        902 => Err(CudaError::StreamCaptureMerge),
        903 => Err(CudaError::StreamCaptureUnmatched),
        904 => Err(CudaError::StreamCaptureUnjoined),
        905 => Err(CudaError::StreamCaptureIsolated),
        906 => Err(CudaError::StreamCaptureImplicit),
        907 => Err(CudaError::CapturedEvent),
        908 => Err(CudaError::StreamCaptureWrongThread),
        909 => Err(CudaError::Timeout),
        910 => Err(CudaError::GraphExecUpdateFailure),
        911 => Err(CudaError::ExternalDevice),
        912 => Err(CudaError::InvalidClusterSize),
        913 => Err(CudaError::FunctionNotLoaded),
        914 => Err(CudaError::InvalidResourceType),
        915 => Err(CudaError::InvalidResourceConfiguration),
        999 => Err(CudaError::UnknownError),
        _ => Err(CudaError::UnknownError),
    };
    proof {
        if let Err(e) = r {
            if e.discriminant() == raw {
                lemma_error_of_discriminant(e);
            } else {
                assert(!is_error_code(raw));
            }
        }
    }
    r
}

/// Turns the raw status of a release into a [`DropResult`], for the resource
/// `value` that was to be released.
///
/// A failed release must not lose the resource: the error comes back together
/// with `value` itself, so that the caller can try again, leak it on purpose
/// or escalate. After a successful release nothing is left to hand back, and
/// `value` is dropped.
pub fn to_drop_result<T>(raw: u32, value: T) -> (r: DropResult<T>)
    ensures
        raw == CUDA_SUCCESS ==> r == Ok::<(), (CudaError, T)>(()),
        raw != CUDA_SUCCESS ==> r == Err::<(), (CudaError, T)>((error_of(raw), value)),
{
    match to_result(raw) {
        Ok(()) => Ok(()),
        Err(e) => Err((e, value)),
    }
}

} // verus!
