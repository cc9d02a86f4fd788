use userop::classify::classify_relay_error;
use userop::errors::UserOpMiddlewareError;

#[test]
fn call_gas_limit_message_is_classified() {
    let r = classify_relay_error("Call gas limit 100 is lower than call gas estimation 250");
    assert!(matches!(r, UserOpMiddlewareError::CallGasLimitError(100, 250)));
}

#[test]
fn call_gas_limit_message_inside_larger_body() {
    let r = classify_relay_error(
        "error: {\"message\": \"Call gas limit 7 is lower than call gas estimation 99999\"}",
    );
    assert!(matches!(r, UserOpMiddlewareError::CallGasLimitError(7, 99999)));
}

#[test]
fn pre_verification_gas_message_is_classified() {
    let r = classify_relay_error(
        "Pre-verification gas 41200 is lower than calculated pre-verification gas 44564",
    );
    assert!(matches!(r, UserOpMiddlewareError::PreVerificationGasError(41200, 44564)));
}

#[test]
fn verification_gas_marker_is_classified() {
    let r = classify_relay_error("UserOperation reverted: AA40 over verificationGasLimit");
    assert!(matches!(r, UserOpMiddlewareError::VerificationGasLimitError));
}

#[test]
fn unrecognized_message_is_unknown() {
    let r = classify_relay_error("something else went wrong");
    assert!(matches!(r, UserOpMiddlewareError::UnknownError));
}

#[test]
fn call_gas_pattern_takes_priority_over_marker() {
    let r = classify_relay_error(
        "Call gas limit 1 is lower than call gas estimation 2; also AA40 over verificationGasLimit",
    );
    assert!(matches!(r, UserOpMiddlewareError::CallGasLimitError(1, 2)));
}

#[test]
fn incomplete_pattern_is_not_classified_as_gas_error() {
    let r = classify_relay_error("Call gas limit abc is lower than call gas estimation 250");
    assert!(matches!(r, UserOpMiddlewareError::UnknownError));
}

#[test]
fn leftmost_match_wins() {
    let r = classify_relay_error(
        "Call gas limit 1 is lower than call gas estimation 2 and Call gas limit 3 is lower than call gas estimation 4",
    );
    assert!(matches!(r, UserOpMiddlewareError::CallGasLimitError(1, 2)));
}

#[test]
fn oversized_numbers_stay_unknown() {
    let r = classify_relay_error(
        "Call gas limit 99999999999999999999999999 is lower than call gas estimation 2",
    );
    assert!(matches!(r, UserOpMiddlewareError::UnknownError));
}

#[test]
fn largest_fitting_number_is_parsed() {
    let r = classify_relay_error(
        "Call gas limit 18446744073709551615 is lower than call gas estimation 1",
    );
    assert!(matches!(r, UserOpMiddlewareError::CallGasLimitError(18446744073709551615, 1)));
}
