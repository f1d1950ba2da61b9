use clavy::error::{
    AccessibilityError, AX_API_DISABLED, AX_FAILURE, AX_NOT_ENOUGH_PRECISION, AX_NO_VALUE,
    AX_PARAMETERIZED_ATTRIBUTE_UNSUPPORTED, AX_SUCCESS,
};

#[test]
fn wrap_of_success_is_ok() {
    assert!(AccessibilityError::wrap(AX_SUCCESS).is_ok());
}

#[test]
fn wrap_classifies_failure_codes() {
    assert!(matches!(
        AccessibilityError::wrap(AX_API_DISABLED),
        Err(AccessibilityError::APIDisabled(c)) if c == AX_API_DISABLED
    ));
    assert!(matches!(
        AccessibilityError::wrap(AX_NO_VALUE),
        Err(AccessibilityError::NoValue(_))
    ));
    assert!(matches!(
        AccessibilityError::wrap(AX_FAILURE),
        Err(AccessibilityError::Failure(_))
    ));
    assert!(matches!(
        AccessibilityError::wrap(AX_PARAMETERIZED_ATTRIBUTE_UNSUPPORTED),
        Err(AccessibilityError::ParameterizedAttributeUnsupported(_))
    ));
}

#[test]
fn try_from_keeps_the_raw_code() {
    let e = AccessibilityError::try_from(AX_NOT_ENOUGH_PRECISION).unwrap();
    assert!(matches!(e, AccessibilityError::NotEnoughPrecision(_)));
    assert_eq!(e.code(), AX_NOT_ENOUGH_PRECISION);
}

#[test]
fn known_code_bounds() {
    assert!(AccessibilityError::is_known_code(AX_SUCCESS));
    assert!(AccessibilityError::is_known_code(AX_FAILURE));
    assert!(AccessibilityError::is_known_code(AX_NOT_ENOUGH_PRECISION));
    assert!(!AccessibilityError::is_known_code(AX_NOT_ENOUGH_PRECISION - 1));
    assert!(!AccessibilityError::is_known_code(AX_FAILURE + 1));
    assert!(!AccessibilityError::is_known_code(1));
}
