use vstd::prelude::*;

verus! {

/// Severity bits of a diagnostic message.
pub const SEVERITY_VERBOSE: u32 = 0x1;

pub const SEVERITY_INFO: u32 = 0x10;

pub const SEVERITY_WARNING: u32 = 0x100;

pub const SEVERITY_ERROR: u32 = 0x1000;

/// Terminal background colour for a message of the given severity: bright
/// white for verbose and informational messages, bright yellow for warnings,
/// bright red for errors and anything else.
pub open spec fn severity_color_of(severity: u32) -> u32 {
    if severity == SEVERITY_VERBOSE || severity == SEVERITY_INFO {
        107
    } else if severity == SEVERITY_WARNING {
        103
    } else {
        101
    }
}

pub fn severity_color(severity: u32) -> (r: u32)
    ensures
        r == severity_color_of(severity),
{
    if severity == SEVERITY_VERBOSE || severity == SEVERITY_INFO {
        107
    } else if severity == SEVERITY_WARNING {
        103
    } else {
        101
    }
}

} // verus!
