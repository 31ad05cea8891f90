//! Constants of the host runtime's fixed ABI that the generated code and
//! its callers rely on.

use vstd::prelude::*;

verus! {

/// The depth of the runtime's call and scope stacks.
pub const RING_VM_STACK_SIZE: usize = 1004;

/// The number of custom mutex slots a runtime instance carries.
pub const RING_VM_CUSTOMMUTEX_COUNT: usize = 5;

/// The runtime's false value.
pub const RING_FALSE: i32 = 0;

/// The runtime's true value.
pub const RING_TRUE: i32 = 1;

/// Slot of the pointer status entry inside a runtime C-pointer list.
pub const RING_CPOINTER_STATUS: u32 = 3;

/// Status value of a C pointer that was never assigned.
pub const RING_CPOINTERSTATUS_NOTASSIGNED: i32 = 2;

/// Return mode: hand the list back by reference.
pub const RING_OUTPUT_RETLISTBYREF: i32 = 1;

/// Return mode: hand back a fresh reference.
pub const RING_OUTPUT_RETNEWREF: i32 = 2;

/// The runtime's parameter-type error message, NUL-terminated for the C
/// boundary.
pub const RING_API_BADPARATYPE: &'static str = "Bad parameter type!\0";

/// The runtime's parameter-count error message, NUL-terminated for the C
/// boundary.
pub const RING_API_BADPARACOUNT: &'static str = "Bad parameters count!\0";

/// Whether a C-pointer argument carries the never-assigned status.
pub fn ring_api_iscpointernotassigned(status: i32) -> (r: bool)
    ensures
        r == (status == RING_CPOINTERSTATUS_NOTASSIGNED),
{
    status == RING_CPOINTERSTATUS_NOTASSIGNED
}

} // verus!
