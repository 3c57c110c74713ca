//! The key map: what each set-1 scancode the shell understands stands for.

use vstd::prelude::*;

verus! {

/// The character a key-down scancode stands for; 0 where the key is not mapped.
pub open spec fn key_char(scancode: u8) -> u8 {
    if scancode == 0x1E { 0x41 }
    else if scancode == 0x30 { 0x42 }
    else if scancode == 0x2E { 0x43 }
    else if scancode == 0x20 { 0x44 }
    else if scancode == 0x12 { 0x45 }
    else if scancode == 0x21 { 0x46 }
    else if scancode == 0x22 { 0x47 }
    else if scancode == 0x23 { 0x48 }
    else if scancode == 0x17 { 0x49 }
    else if scancode == 0x24 { 0x4A }
    else if scancode == 0x25 { 0x4B }
    else if scancode == 0x26 { 0x4C }
    else if scancode == 0x32 { 0x4D }
    else if scancode == 0x31 { 0x4E }
    else if scancode == 0x18 { 0x4F }
    else if scancode == 0x19 { 0x50 }
    else if scancode == 0x10 { 0x51 }
    else if scancode == 0x13 { 0x52 }
    else if scancode == 0x1F { 0x53 }
    else if scancode == 0x14 { 0x54 }
    else if scancode == 0x16 { 0x55 }
    else if scancode == 0x2F { 0x56 }
    else if scancode == 0x11 { 0x57 }
    else if scancode == 0x2D { 0x58 }
    else if scancode == 0x15 { 0x59 }
    else if scancode == 0x2C { 0x5A }
    else if scancode == 0x39 { 0x20 }
    else if scancode == 0x1C { 0x0A }
    else if scancode == 0x0E { 0x08 }
    else if 0x02 <= scancode <= 0x0A { (scancode + 0x2F) as u8 }
    else if scancode == 0x0B { 0x30 }
    else { 0 }
}

/// The upper-case ASCII character of a key-down scancode; 0 for a key without one.
pub fn scancode_to_ascii(scancode: u8) -> (ascii: u8)
    ensures
        ascii == key_char(scancode),
{
    match scancode {
        0x1E => 0x41, 0x30 => 0x42, 0x2E => 0x43, 0x20 => 0x44, 0x12 => 0x45,
        0x21 => 0x46, 0x22 => 0x47, 0x23 => 0x48, 0x17 => 0x49, 0x24 => 0x4A,
        0x25 => 0x4B, 0x26 => 0x4C, 0x32 => 0x4D, 0x31 => 0x4E, 0x18 => 0x4F,
        0x19 => 0x50, 0x10 => 0x51, 0x13 => 0x52, 0x1F => 0x53, 0x14 => 0x54,
        0x16 => 0x55, 0x2F => 0x56, 0x11 => 0x57, 0x2D => 0x58, 0x15 => 0x59,
        0x2C => 0x5A, 0x39 => 0x20, 0x1C => 0x0A, 0x0E => 0x08,
        0x0B => 0x30,
        0x02..=0x0A => scancode + 0x2F,
        _ => 0,
    }
}

} // verus!
