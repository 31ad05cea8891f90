//! The host runtime's ABI constants and the pointer-status check.

use ring_codegen::abi::{
    ring_api_iscpointernotassigned, RING_API_BADPARACOUNT, RING_API_BADPARATYPE,
    RING_CPOINTERSTATUS_NOTASSIGNED, RING_CPOINTER_STATUS, RING_FALSE, RING_OUTPUT_RETLISTBYREF,
    RING_OUTPUT_RETNEWREF, RING_TRUE, RING_VM_CUSTOMMUTEX_COUNT, RING_VM_STACK_SIZE,
};

#[test]
fn test_stack_size_constant() {
    assert_eq!(RING_VM_STACK_SIZE, 1004);
}

#[test]
fn test_custommutex_count() {
    assert_eq!(RING_VM_CUSTOMMUTEX_COUNT, 5);
}

#[test]
fn test_boolean_constants() {
    assert_eq!(RING_FALSE, 0);
    assert_eq!(RING_TRUE, 1);
}

#[test]
fn test_api_error_constants() {
    // These should be valid null-terminated byte strings
    assert!(!RING_API_BADPARATYPE.is_empty());
    assert!(!RING_API_BADPARACOUNT.is_empty());
    assert!(RING_API_BADPARATYPE.as_bytes().ends_with(&[0]));
    assert!(RING_API_BADPARACOUNT.as_bytes().ends_with(&[0]));
}

#[test]
fn test_pointer_type_constants() {
    assert_eq!(RING_CPOINTER_STATUS, 3);
    assert_eq!(RING_CPOINTERSTATUS_NOTASSIGNED, 2);
}

#[test]
fn test_output_constants() {
    // These are flags used by the Ring VM
    assert_eq!(RING_OUTPUT_RETLISTBYREF, 1);
    assert_eq!(RING_OUTPUT_RETNEWREF, 2);
}

#[test]
fn pointer_status_check() {
    assert!(ring_api_iscpointernotassigned(2));
    assert!(!ring_api_iscpointernotassigned(0));
    assert!(!ring_api_iscpointernotassigned(3));
}
