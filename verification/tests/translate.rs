use cust::error::CudaError;
use cust::error::CudaResult;
use cust::error::DropResult;
use cust::status::to_drop_result;
use cust::status::to_result;
use cust::status::CUDA_SUCCESS;

/// Every driver error, found by translating each raw code of the driver's range.
fn driver_errors() -> Vec<CudaError> {
    let mut found = Vec::new();
    for raw in 1u32..=999 {
        if let Err(e) = to_result(raw) {
            if e.code() == raw {
                found.push(e);
            }
        }
    }
    found
}

#[test]
fn success_code_is_ok() {
    assert_eq!(CUDA_SUCCESS, 0);
    assert_eq!(to_result(CUDA_SUCCESS), Ok(()));
    assert_eq!(to_result(0), Ok(()));
}

#[test]
fn out_of_memory_code_is_out_of_memory() {
    assert_eq!(to_result(2), Err(CudaError::OutOfMemory));
}

#[test]
fn first_and_last_driver_codes() {
    assert_eq!(to_result(1), Err(CudaError::InvalidValue));
    assert_eq!(to_result(999), Err(CudaError::UnknownError));
}

#[test]
fn sample_of_the_table() {
    assert_eq!(to_result(3), Err(CudaError::NotInitialized));
    assert_eq!(to_result(4), Err(CudaError::Deinitialized));
    assert_eq!(to_result(34), Err(CudaError::StubLibrary));
    assert_eq!(to_result(46), Err(CudaError::DeviceUnavailable));
    assert_eq!(to_result(100), Err(CudaError::NoDevice));
    assert_eq!(to_result(101), Err(CudaError::InvalidDevice));
    assert_eq!(to_result(200), Err(CudaError::InvalidImage));
    assert_eq!(to_result(201), Err(CudaError::InvalidContext));
    assert_eq!(to_result(218), Err(CudaError::InvalidPtx));
    assert_eq!(to_result(225), Err(CudaError::UnsupportedDevSideSync));
    assert_eq!(to_result(304), Err(CudaError::OperatingSystemError));
    assert_eq!(to_result(400), Err(CudaError::InvalidHandle));
    assert_eq!(to_result(500), Err(CudaError::NotFound));
    assert_eq!(to_result(600), Err(CudaError::NotReady));
    assert_eq!(to_result(700), Err(CudaError::IllegalAddress));
    assert_eq!(to_result(719), Err(CudaError::LaunchFailed));
    assert_eq!(to_result(720), Err(CudaError::CooperativeLaunchTooLarge));
    assert_eq!(to_result(801), Err(CudaError::NotSupported));
    assert_eq!(to_result(812), Err(CudaError::CdpVersionMismatch));
    assert_eq!(to_result(900), Err(CudaError::StreamCaptureUnsupported));
    assert_eq!(to_result(908), Err(CudaError::StreamCaptureWrongThread));
    assert_eq!(to_result(915), Err(CudaError::InvalidResourceConfiguration));
}

#[test]
fn code_outside_the_table_is_unknown_error() {
    assert_eq!(to_result(9), Err(CudaError::UnknownError));
    assert_eq!(to_result(203), Err(CudaError::UnknownError));
    assert_eq!(to_result(916), Err(CudaError::UnknownError));
    assert_eq!(to_result(1000), Err(CudaError::UnknownError));
    assert_eq!(to_result(12_345), Err(CudaError::UnknownError));
    assert_eq!(to_result(u32::MAX), Err(CudaError::UnknownError));
}

#[test]
fn codes_of_binding_errors_are_not_driver_codes() {
    assert_eq!(to_result(100_100), Err(CudaError::UnknownError));
    assert_eq!(to_result(100_101), Err(CudaError::UnknownError));
}

#[test]
fn translation_is_total() {
    let samples = (0u32..=2_000).chain([99_999, 100_000, 100_100, 100_101, 100_102, u32::MAX]);
    for raw in samples {
        match to_result(raw) {
            Ok(()) => assert_eq!(raw, 0),
            Err(e) => {
                assert_ne!(raw, 0);
                assert!(e.code() <= 999);
                assert!(e.code() == raw || e == CudaError::UnknownError);
            }
        }
        assert_eq!(to_result(raw), to_result(raw));
    }
}

#[test]
fn driver_range_holds_every_driver_variant() {
    assert_eq!(driver_errors().len(), 96);
}

#[test]
fn discriminants_are_unique() {
    let mut all = driver_errors();
    all.push(CudaError::InvalidMemoryAllocation);
    all.push(CudaError::OptixError);
    for (i, a) in all.iter().enumerate() {
        for (j, b) in all.iter().enumerate() {
            assert_eq!(a.code() == b.code(), i == j);
            assert_eq!(a == b, i == j);
        }
    }
}

#[test]
fn discriminants_are_nonzero_and_in_their_ranges() {
    for e in driver_errors() {
        assert!(1 <= e.code() && e.code() <= 999);
    }
    assert!(CudaError::InvalidMemoryAllocation.code() >= 100_000);
    assert!(CudaError::OptixError.code() >= 100_000);
}

#[test]
fn exact_discriminants() {
    assert_eq!(CudaError::InvalidValue.code(), 1);
    assert_eq!(CudaError::OutOfMemory.code(), 2);
    assert_eq!(CudaError::ProfilerAlreadyStopped.code(), 8);
    assert_eq!(CudaError::DeviceNotLicensed.code(), 102);
    assert_eq!(CudaError::NvlinkUncorrectable.code(), 220);
    assert_eq!(CudaError::LossyQuery.code(), 402);
    assert_eq!(CudaError::PrimaryContextActive.code(), 708);
    assert_eq!(CudaError::MpsClientTerminated.code(), 810);
    assert_eq!(CudaError::Timeout.code(), 909);
    assert_eq!(CudaError::UnknownError.code(), 999);
    assert_eq!(CudaError::InvalidMemoryAllocation.code(), 100_100);
    assert_eq!(CudaError::OptixError.code(), 100_101);
}

#[test]
fn raw_code_of_driver_errors() {
    assert_eq!(CudaError::OutOfMemory.raw_code(), Some(2));
    assert_eq!(CudaError::NotReady.raw_code(), Some(600));
    assert_eq!(CudaError::UnknownError.raw_code(), Some(999));
}

#[test]
fn raw_code_of_binding_errors_is_none() {
    assert_eq!(CudaError::InvalidMemoryAllocation.raw_code(), None);
    assert_eq!(CudaError::OptixError.raw_code(), None);
}

#[test]
fn round_trip_of_every_driver_error() {
    for e in driver_errors() {
        let raw = e.raw_code().expect("a driver error has a raw code");
        assert_eq!(raw, e.code());
        assert_eq!(to_result(raw), Err(e));
    }
}

#[test]
fn errors_are_plain_copyable_values() {
    let a = CudaError::LaunchTimeout;
    let b = a;
    let c = a.clone();
    assert_eq!(a, b);
    assert_eq!(a, c);
    assert_ne!(a, CudaError::LaunchFailed);
}

#[test]
fn result_alias_carries_value_or_error() {
    let ok: CudaResult<u8> = Ok(7);
    let failed: CudaResult<u8> = to_result(700).map(|()| 7);
    assert_eq!(ok, Ok(7));
    assert_eq!(failed, Err(CudaError::IllegalAddress));
}

#[test]
fn successful_release_is_ok() {
    let r: DropResult<u64> = to_drop_result(0, 0xdead_beef);
    assert_eq!(r, Ok(()));
}

#[test]
fn failed_release_hands_the_handle_back() {
    let handle: u64 = 0xdead_beef;
    let r = to_drop_result(201, handle);
    assert_eq!(r, Err((CudaError::InvalidContext, handle)));
}

#[test]
fn failed_release_can_be_retried() {
    let handle = String::from("stream 3");
    let first = to_drop_result(709, handle);
    let (error, handle) = first.expect_err("the release failed");
    assert_eq!(error, CudaError::ContextIsDestroyed);
    assert_eq!(handle, "stream 3");
    let second = to_drop_result(0, handle);
    assert_eq!(second, Ok(()));
}

#[test]
fn failed_release_keeps_the_very_value() {
    let buffer = vec![1u8, 2, 3];
    let address = buffer.as_ptr();
    match to_drop_result(2, buffer) {
        Ok(()) => panic!("the release failed"),
        Err((error, back)) => {
            assert_eq!(error, CudaError::OutOfMemory);
            assert_eq!(back, vec![1u8, 2, 3]);
            assert_eq!(back.as_ptr(), address);
        }
    }
}

#[test]
fn failed_release_with_unknown_code() {
    let r = to_drop_result(4_242, 5u8);
    assert_eq!(r, Err((CudaError::UnknownError, 5u8)));
}
