use vstd::prelude::*;
use crate::alu::{flag_c, flag_z, flags_byte, shift_flags, shift_value};
use crate::instructions::bit_of;

verus! {

/// Encodings that this CPU leaves undefined.
pub open spec fn is_illegal(op: u8) -> bool {
    op == 0xD3 || op == 0xDB || op == 0xDD || op == 0xE3 || op == 0xE4 || op == 0xEB || op
        == 0xEC || op == 0xED || op == 0xF4 || op == 0xFC || op == 0xFD
}

/// Relative jumps: JR e8 and JR cc,e8.
pub open spec fn is_jr(op: u8) -> bool {
    op == 0x18 || op == 0x20 || op == 0x28 || op == 0x30 || op == 0x38
}

/// Absolute jumps with an immediate target: JP nn and JP cc,nn.
pub open spec fn is_jp(op: u8) -> bool {
    op == 0xC3 || op == 0xC2 || op == 0xCA || op == 0xD2 || op == 0xDA
}

/// Calls: CALL nn and CALL cc,nn.
pub open spec fn is_call(op: u8) -> bool {
    op == 0xCD || op == 0xC4 || op == 0xCC || op == 0xD4 || op == 0xDC
}

/// Returns: RET, RETI and RET cc.
pub open spec fn is_ret(op: u8) -> bool {
    op == 0xC9 || op == 0xD9 || op == 0xC0 || op == 0xC8 || op == 0xD0 || op == 0xD8
}

/// Restarts: RST n.
pub open spec fn is_rst(op: u8) -> bool {
    op >= 0xC0 && op % 8 == 7
}

/// The instructions that may load PC with something other than the
/// address of the next instruction.
pub open spec fn is_branch(op: u8) -> bool {
    is_jr(op) || is_jp(op) || is_call(op) || is_ret(op) || is_rst(op) || op == 0xE9
}

/// The branches that test a condition.
pub open spec fn is_conditional(op: u8) -> bool {
    op == 0x20 || op == 0x28 || op == 0x30 || op == 0x38 || op == 0xC2 || op == 0xCA || op == 0xD2
        || op == 0xDA || op == 0xC4 || op == 0xCC || op == 0xD4 || op == 0xDC || op == 0xC0 || op
        == 0xC8 || op == 0xD0 || op == 0xD8
}

/// The condition in bits 3-4 of a conditional opcode: NZ, Z, NC, C.
pub open spec fn condition_holds(op: u8, f: u8) -> bool {
    let cc = (op / 8) % 4;
    if cc == 0 {
        !flag_z(f)
    } else if cc == 1 {
        flag_z(f)
    } else if cc == 2 {
        !flag_c(f)
    } else {
        flag_c(f)
    }
}

/// Whether a branch is taken: always for the unconditional ones.
pub open spec fn branch_taken(op: u8, f: u8) -> bool {
    !is_conditional(op) || condition_holds(op, f)
}

/// Length in bytes of an instruction, opcode included.
pub open spec fn instruction_length(op: u8) -> int {
    if op == 0x01 || op == 0x11 || op == 0x21 || op == 0x31 || op == 0x08 || is_jp(op) || is_call(
        op,
    ) || op == 0xEA || op == 0xFA {
        3
    } else if (op < 0x40 && op % 8 == 6) || op == 0x10 || is_jr(op) || (op >= 0xC0 && op % 8 == 6)
        || op == 0xE0 || op == 0xF0 || op == 0xE8 || op == 0xF8 || op == 0xCB {
        2
    } else {
        1
    }
}

/// Cycles of a CB-prefixed instruction.
pub open spec fn cb_cycles(cb: u8) -> i32 {
    if cb % 8 == 6 {
        if 0x40 <= cb < 0x80 {
            12
        } else {
            16
        }
    } else {
        8
    }
}

/// Cycles of an instruction; `taken` tells whether a conditional branch
/// is taken, `cb` is the byte after a 0xCB prefix.
pub open spec fn op_cycles(op: u8, taken: bool, cb: u8) -> i32 {
    if op == 0xCB {
        cb_cycles(cb)
    } else if is_conditional(op) {
        if is_jr(op) {
            if taken { 12 } else { 8 }
        } else if is_jp(op) {
            if taken { 16 } else { 12 }
        } else if is_call(op) {
            if taken { 24 } else { 12 }
        } else {
            if taken { 20 } else { 8 }
        }
    } else if 0x40 <= op < 0xC0 {
        if op == 0x76 {
            4
        } else if op % 8 == 6 || (op < 0x80 && (op / 8) % 8 == 6) {
            8
        } else {
            4
        }
    } else if op < 0x40 {
        let col = op % 16;
        if op == 0x08 {
            20
        } else if op == 0x18 {
            12
        } else if op == 0x34 || op == 0x35 || op == 0x36 {
            12
        } else if col == 1 {
            12
        } else if col == 0 || col == 4 || col == 5 || col == 7 || col == 0xC || col == 0xD || col
            == 0xF {
            4
        } else {
            8
        }
    } else {
        let col = op % 16;
        if op == 0xE9 || op == 0xF3 || op == 0xFB {
            4
        } else if op == 0xE2 || op == 0xF2 || op == 0xF9 || col == 6 || col == 0xE {
            8
        } else if col == 1 || op == 0xE0 || op == 0xF0 || op == 0xF8 {
            12
        } else if op == 0xCD {
            24
        } else {
            16
        }
    }
}

/// The value left by a CB-prefixed instruction on its operand `v`:
/// rotates and shifts (0x00-0x3F), BIT (0x40-0x7F, no change), RES
/// (0x80-0xBF), SET (0xC0-0xFF).
pub open spec fn cb_value(cb: u8, v: u8, f: u8) -> u8 {
    let b = (cb / 8) % 8;
    if cb < 0x40 {
        shift_value(b, v, flag_c(f))
    } else if cb < 0x80 {
        v
    } else if cb < 0xC0 {
        v & !(1u8 << b)
    } else {
        v | (1u8 << b)
    }
}

/// The flags left by a CB-prefixed instruction; RES and SET keep them.
pub open spec fn cb_flags(cb: u8, v: u8, f: u8) -> u8 {
    let b = (cb / 8) % 8;
    if cb < 0x40 {
        shift_flags(b, v, flag_c(f))
    } else if cb < 0x80 {
        flags_byte(!bit_of(v, b), false, true, flag_c(f))
    } else {
        f
    }
}

} // verus!
