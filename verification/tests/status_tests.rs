use btmanager::FfiErrorCode;

#[test]
fn raw_values_round_trip() {
    let codes = [
        FfiErrorCode::Success,
        FfiErrorCode::NotInitialized,
        FfiErrorCode::InvalidParameter,
        FfiErrorCode::OperationFailed,
        FfiErrorCode::DeviceNotFound,
        FfiErrorCode::ConnectionFailed,
        FfiErrorCode::AudioInitFailed,
        FfiErrorCode::UnknownError,
    ];
    for code in codes {
        assert_eq!(FfiErrorCode::from_raw(code.raw()), code);
    }
}

#[test]
fn raw_values_match_native_table() {
    assert_eq!(FfiErrorCode::Success.raw(), 0);
    assert_eq!(FfiErrorCode::NotInitialized.raw(), 1);
    assert_eq!(FfiErrorCode::InvalidParameter.raw(), 2);
    assert_eq!(FfiErrorCode::OperationFailed.raw(), 3);
    assert_eq!(FfiErrorCode::DeviceNotFound.raw(), 4);
    assert_eq!(FfiErrorCode::ConnectionFailed.raw(), 5);
    assert_eq!(FfiErrorCode::AudioInitFailed.raw(), 6);
    assert_eq!(FfiErrorCode::UnknownError.raw(), 255);
}

#[test]
fn unknown_raw_values_decode_to_unknown_error() {
    assert_eq!(FfiErrorCode::from_raw(7), FfiErrorCode::UnknownError);
    assert_eq!(FfiErrorCode::from_raw(42), FfiErrorCode::UnknownError);
    assert_eq!(FfiErrorCode::from_raw(u32::MAX), FfiErrorCode::UnknownError);
}

#[test]
fn labels_spell_the_code_names() {
    assert_eq!(FfiErrorCode::Success.label(), "Success");
    assert_eq!(FfiErrorCode::ConnectionFailed.label(), "ConnectionFailed");
    assert_eq!(FfiErrorCode::UnknownError.label(), "UnknownError");
}
