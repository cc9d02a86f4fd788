use userop::errors::{UserOpBuilderError, UserOpMiddlewareError};

#[test]
fn builder_error_messages() {
    let e = UserOpBuilderError::MissingUserOperationField("sender".to_string());
    assert_eq!(
        e.message(),
        "The field in the UserOperation is not set. Call the set_uo_sender function to set"
            .to_string()
    );
    let e = UserOpBuilderError::UnsupportedWalletKind("nonexistent-kind".to_string());
    assert_eq!(e.message(), "nonexistent-kind wallet currently not supported".to_string());
    let e = UserOpBuilderError::UnsupportedFactoryKind("nonexistent-kind".to_string());
    assert_eq!(e.message(), "nonexistent-kind's factory not supported".to_string());
    let e = UserOpBuilderError::SmartContractWalletAddressNotSet;
    assert_eq!(e.message(), "Smart contract wallet address has not been set".to_string());
}

#[test]
fn middleware_error_messages_carry_figures() {
    let e = UserOpMiddlewareError::CallGasLimitError(100, 250);
    assert_eq!(
        e.message(),
        "Call gas limit not enough: calculated: 100, provided: 250".to_string()
    );
    let e = UserOpMiddlewareError::PreVerificationGasError(41200, 44564);
    assert_eq!(
        e.message(),
        "Pre-verification gas not enough: calculated: 41200, provided: 44564".to_string()
    );
    let e = UserOpMiddlewareError::VerificationGasLimitError;
    assert_eq!(e.message(), "Verification gas limit not enough".to_string());
}

#[test]
fn decimal_rendering_edges() {
    let e = UserOpMiddlewareError::CallGasLimitError(0, u64::MAX);
    assert_eq!(
        e.message(),
        "Call gas limit not enough: calculated: 0, provided: 18446744073709551615".to_string()
    );
    let e = UserOpMiddlewareError::CallGasLimitError(10, 1000000007);
    assert_eq!(
        e.message(),
        "Call gas limit not enough: calculated: 10, provided: 1000000007".to_string()
    );
}

#[test]
fn wrapped_builder_error_keeps_its_wording() {
    let inner = UserOpBuilderError::UnknownError;
    let e = UserOpMiddlewareError::UserOpBuilderError(inner);
    assert_eq!(e.message(), "Unknown error".to_string());
}
