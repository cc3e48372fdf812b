use wasm_zeroize::ModuleError;

#[test]
fn test_error_handling() {
    let result: Result<(), ModuleError> =
        Err(ModuleError::InvalidInput(String::from("empty value")));
    assert!(matches!(result, Err(ModuleError::InvalidInput(_))));
}

#[test]
fn invalid_input_is_rendered_with_its_prefix() {
    let error = ModuleError::InvalidInput(String::from("value too long"));
    assert_eq!(error.to_string(), "Invalid input: value too long");
}

#[test]
fn operation_failed_is_rendered_with_its_prefix() {
    let error = ModuleError::OperationFailed(String::from("overwrite did not complete"));
    assert_eq!(error.to_string(), "Operation failed: overwrite did not complete");
}

#[test]
fn an_empty_message_leaves_the_prefix() {
    assert_eq!(ModuleError::InvalidInput(String::new()).to_string(), "Invalid input: ");
    assert_eq!(ModuleError::OperationFailed(String::new()).to_string(), "Operation failed: ");
}

#[test]
fn a_unicode_message_is_kept_exactly() {
    let error = ModuleError::OperationFailed(String::from("失敗 ✗"));
    assert_eq!(error.to_string(), "Operation failed: 失敗 ✗");
}

#[test]
fn the_variants_are_told_apart() {
    let invalid = ModuleError::InvalidInput(String::from("m"));
    let failed = ModuleError::OperationFailed(String::from("m"));
    assert!(matches!(invalid, ModuleError::InvalidInput(_)));
    assert!(!matches!(invalid, ModuleError::OperationFailed(_)));
    assert!(matches!(failed, ModuleError::OperationFailed(_)));
    assert_ne!(invalid.to_string(), failed.to_string());
}

#[test]
fn the_message_is_carried_by_the_variant() {
    match ModuleError::InvalidInput(String::from("carried")) {
        ModuleError::InvalidInput(message) => assert_eq!(message, "carried"),
        ModuleError::OperationFailed(_) => panic!("wrong variant"),
    }
}

#[test]
fn errors_have_a_debug_form() {
    let error = ModuleError::InvalidInput(String::from("x"));
    assert_eq!(format!("{:?}", error), "InvalidInput(\"x\")");
}
