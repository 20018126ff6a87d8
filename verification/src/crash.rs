//! Text of crash reports: what a hard fault or a panic is written down as.

use vstd::prelude::*;

use crate::text::{decimal, hex_lower_prefixed, push_decimal, push_hex_lower_prefixed, push_str};

verus! {

/// Windows exception code of an access violation.
pub const EXCEPTION_ACCESS_VIOLATION: u32 = 0xC000_0005;

/// Windows exception code of a stack overflow.
pub const EXCEPTION_STACK_OVERFLOW: u32 = 0xC000_00FD;

/// Windows exception code of an illegal instruction.
pub const EXCEPTION_ILLEGAL_INSTRUCTION: u32 = 0xC000_001D;

/// What a fault is called: for an access violation `access` says how the
/// memory at `target` was used (1 write, 8 execute, else read); other
/// codes are named, or shown in hexadecimal.
pub open spec fn spec_exception_kind(code: u32, access: usize, target: usize) -> Seq<char> {
    if code == EXCEPTION_ACCESS_VIOLATION {
        let place = hex_lower_prefixed(target as nat, 16);
        if access == 1 {
            "access violation: write to "@ + place
        } else if access == 8 {
            "access violation: execute of "@ + place
        } else {
            "access violation: read of "@ + place
        }
    } else if code == EXCEPTION_STACK_OVERFLOW {
        "stack overflow"@
    } else if code == EXCEPTION_ILLEGAL_INSTRUCTION {
        "illegal instruction"@
    } else {
        "unhandled exception "@ + hex_lower_prefixed(code as nat, 8)
    }
}

pub fn exception_kind(code: u32, access: usize, target: usize) -> (r: String)
    ensures
        r@ == spec_exception_kind(code, access, target),
{
    if code == EXCEPTION_ACCESS_VIOLATION {
        let mut r = if access == 1 {
            "access violation: write to ".to_string()
        } else if access == 8 {
            "access violation: execute of ".to_string()
        } else {
            "access violation: read of ".to_string()
        };
        push_hex_lower_prefixed(&mut r, target as u64, 16);
        r
    } else if code == EXCEPTION_STACK_OVERFLOW {
        "stack overflow".to_string()
    } else if code == EXCEPTION_ILLEGAL_INSTRUCTION {
        "illegal instruction".to_string()
    } else {
        let mut r = "unhandled exception ".to_string();
        push_hex_lower_prefixed(&mut r, code as u64, 8);
        r
    }
}

/// The module a faulting address lies in: "{name} (offset +0x..)", the
/// offset from the module's base address.
pub fn module_description(name: &str, address: usize, base: usize) -> (r: String)
    requires
        base <= address,
    ensures
        r@ == name@ + " (offset +"@ + hex_lower_prefixed((address - base) as nat, 0) + ")"@,
{
    let mut r = name.to_string();
    push_str(&mut r, " (offset +");
    push_hex_lower_prefixed(&mut r, (address - base) as u64, 0);
    push_str(&mut r, ")");
    r
}

/// "{kind} at 0x{address:016x} (thread {thread}) in {module}".
pub fn exception_line(kind: &str, address: usize, thread: u32, module: &str) -> (r: String)
    ensures
        r@ == kind@ + " at "@ + hex_lower_prefixed(address as nat, 16) + " (thread "@ + decimal(
            thread as nat,
        ) + ") in "@ + module@,
{
    let mut r = kind.to_string();
    push_str(&mut r, " at ");
    push_hex_lower_prefixed(&mut r, address as u64, 16);
    push_str(&mut r, " (thread ");
    push_decimal(&mut r, thread as u64);
    push_str(&mut r, ") in ");
    push_str(&mut r, module);
    r
}

/// "{file}:{line}:{column}".
pub fn panic_location(file: &str, line: u32, column: u32) -> (r: String)
    ensures
        r@ == file@ + ":"@ + decimal(line as nat) + ":"@ + decimal(column as nat),
{
    let mut r = file.to_string();
    push_str(&mut r, ":");
    push_decimal(&mut r, line as u64);
    push_str(&mut r, ":");
    push_decimal(&mut r, column as u64);
    r
}

/// "panic at {location}: {message}".
pub fn panic_line(location: &str, message: &str) -> (r: String)
    ensures
        r@ == "panic at "@ + location@ + ": "@ + message@,
{
    let mut r = "panic at ".to_string();
    push_str(&mut r, location);
    push_str(&mut r, ": ");
    push_str(&mut r, message);
    r
}

/// "crash-{stamp}-{pid}.{extension}": the file a crash is written to.
pub fn crash_file_name(stamp: u64, pid: u32, extension: &str) -> (r: String)
    ensures
        r@ == "crash-"@ + decimal(stamp as nat) + "-"@ + decimal(pid as nat) + "."@ + extension@,
{
    let mut r = "crash-".to_string();
    push_decimal(&mut r, stamp);
    push_str(&mut r, "-");
    push_decimal(&mut r, pid as u64);
    push_str(&mut r, ".");
    push_str(&mut r, extension);
    r
}


/// The Windows exception codes are named as Windows defines them:
/// 0xC0000005 is an access violation (how the memory was used: 1 write,
/// 8 execute, anything else read), 0xC00000FD a stack overflow and
/// 0xC000001D an illegal instruction.
pub proof fn law_exception_codes(access: usize, target: usize)
    ensures
        spec_exception_kind(0xC000_0005u32, 1, target) == "access violation: write to "@ + hex_lower_prefixed(target as nat, 16),
        spec_exception_kind(0xC000_0005u32, 8, target) == "access violation: execute of "@ + hex_lower_prefixed(target as nat, 16),
        access != 1 && access != 8 ==> spec_exception_kind(0xC000_0005u32, access, target) == "access violation: read of "@
            + hex_lower_prefixed(target as nat, 16),
        spec_exception_kind(0xC000_00FDu32, access, target) == "stack overflow"@,
        spec_exception_kind(0xC000_001Du32, access, target) == "illegal instruction"@,
{
}

} // verus!
