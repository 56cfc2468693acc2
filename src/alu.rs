use vstd::prelude::*;

verus! {

// The flag register F keeps Z in bit 7, N in bit 6, H in bit 5 and C in
// bit 4; its low nibble is always zero.

/// The zero flag of a flag byte.
pub open spec fn flag_z(f: u8) -> bool {
    (f as int / 128) % 2 == 1
}

/// The subtract flag of a flag byte.
pub open spec fn flag_n(f: u8) -> bool {
    (f as int / 64) % 2 == 1
}

/// The half-carry flag of a flag byte.
pub open spec fn flag_h(f: u8) -> bool {
    (f as int / 32) % 2 == 1
}

/// The carry flag of a flag byte.
pub open spec fn flag_c(f: u8) -> bool {
    (f as int / 16) % 2 == 1
}

/// 1 for a set flag, 0 for a clear one.
pub open spec fn bit_value(b: bool) -> int {
    if b { 1 } else { 0 }
}

/// The flag byte with the four flags given and a zero low nibble.
pub open spec fn flags_byte(z: bool, n: bool, h: bool, c: bool) -> u8 {
    (128 * bit_value(z) + 64 * bit_value(n) + 32 * bit_value(h) + 16 * bit_value(c)) as u8
}

/// Each flag of a composed flag byte reads back as given, and the low nibble is zero.
pub proof fn lemma_flags_byte(z: bool, n: bool, h: bool, c: bool)
    ensures
        flag_z(flags_byte(z, n, h, c)) == z,
        flag_n(flags_byte(z, n, h, c)) == n,
        flag_h(flags_byte(z, n, h, c)) == h,
        flag_c(flags_byte(z, n, h, c)) == c,
        flags_byte(z, n, h, c) % 16 == 0,
{
}

/// A composed flag byte has a zero low nibble.
pub broadcast proof fn lemma_flags_byte_clean(z: bool, n: bool, h: bool, c: bool)
    ensures
        #[trigger] flags_byte(z, n, h, c) % 16 == 0,
{
    lemma_flags_byte(z, n, h, c);
}

/// Composes a flag byte from the four flags.
pub fn make_flags(z: bool, n: bool, h: bool, c: bool) -> (r: u8)
    ensures
        r == flags_byte(z, n, h, c),
{
    let mut f: u8 = 0;
    if z {
        f = f + 0x80;
    }
    if n {
        f = f + 0x40;
    }
    if h {
        f = f + 0x20;
    }
    if c {
        f = f + 0x10;
    }
    f
}

/// The eight accumulator operations, by their index in the opcode table:
/// ADD, ADC, SUB, SBC, AND, XOR, OR, CP.
pub open spec fn alu_value(op: u8, a: u8, n: u8, f: u8) -> u8 {
    let cin = if op == 1 || op == 3 { bit_value(flag_c(f)) } else { 0 };
    if op == 0 || op == 1 {
        ((a + n + cin) % 256) as u8
    } else if op == 2 || op == 3 {
        ((a - n - cin + 512) % 256) as u8
    } else if op == 4 {
        a & n
    } else if op == 5 {
        a ^ n
    } else if op == 6 {
        a | n
    } else {
        a
    }
}

/// The flags that an accumulator operation leaves.
pub open spec fn alu_flags(op: u8, a: u8, n: u8, f: u8) -> u8 {
    let cin = if op == 1 || op == 3 { bit_value(flag_c(f)) } else { 0 };
    if op == 0 || op == 1 {
        flags_byte(
            (a + n + cin) % 256 == 0,
            false,
            a % 16 + n % 16 + cin > 15,
            a + n + cin > 255,
        )
    } else if op == 2 || op == 3 || op == 7 {
        flags_byte((a - n - cin + 512) % 256 == 0, true, a % 16 < n % 16 + cin, a < n + cin)
    } else if op == 4 {
        flags_byte(a & n == 0, false, true, false)
    } else if op == 5 {
        flags_byte(a ^ n == 0, false, false, false)
    } else {
        flags_byte(a | n == 0, false, false, false)
    }
}

/// The value after INC.
pub open spec fn inc_value(v: u8) -> u8 {
    ((v + 1) % 256) as u8
}

/// The flags after INC: the carry flag is kept.
pub open spec fn inc_flags(v: u8, f: u8) -> u8 {
    flags_byte(inc_value(v) == 0, false, v % 16 == 15, flag_c(f))
}

/// The value after DEC.
pub open spec fn dec_value(v: u8) -> u8 {
    ((v + 255) % 256) as u8
}

/// The flags after DEC: the carry flag is kept.
pub open spec fn dec_flags(v: u8, f: u8) -> u8 {
    flags_byte(dec_value(v) == 0, true, v % 16 == 0, flag_c(f))
}

/// The flags after ADD HL,rr: the zero flag is kept.
pub open spec fn add16_flags(hl: u16, rr: u16, f: u8) -> u8 {
    flags_byte(flag_z(f), false, hl % 4096 + rr % 4096 > 4095, hl + rr > 65535)
}

/// The sum of a 16-bit value and a signed 8-bit offset, as in ADD SP,e8.
pub open spec fn offset_value(sp: u16, e: u8) -> u16 {
    ((((sp + (e as i8)) % 65536) + 65536) % 65536) as u16
}

/// The flags after ADD SP,e8 and LD HL,SP+e8: carries out of bits 3 and 7
/// of the unsigned low byte.
pub open spec fn offset_flags(sp: u16, e: u8) -> u8 {
    flags_byte(false, false, sp % 16 + e % 16 > 15, sp % 256 + e > 255)
}

/// The value after a rotate, shift or SWAP, by index in the CB table:
/// RLC, RRC, RL, RR, SLA, SRA, SWAP, SRL. `cin` is the old carry flag.
pub open spec fn shift_value(op: u8, v: u8, cin: bool) -> u8 {
    let c = bit_value(cin);
    (if op == 0 {
        (v * 2) % 256 + v / 128
    } else if op == 1 {
        v / 2 + (v % 2) * 128
    } else if op == 2 {
        (v * 2) % 256 + c
    } else if op == 3 {
        v / 2 + c * 128
    } else if op == 4 {
        (v * 2) % 256
    } else if op == 5 {
        v / 2 + (v / 128) * 128
    } else if op == 6 {
        (v % 16) * 16 + v / 16
    } else {
        v as int / 2
    }) as u8
}

/// The bit shifted out by a rotate or shift; SWAP clears the carry.
pub open spec fn shift_carry(op: u8, v: u8) -> bool {
    if op == 0 || op == 2 || op == 4 {
        v >= 128
    } else if op == 6 {
        false
    } else {
        v % 2 == 1
    }
}

/// The flags after a CB-table rotate, shift or SWAP.
pub open spec fn shift_flags(op: u8, v: u8, cin: bool) -> u8 {
    flags_byte(shift_value(op, v, cin) == 0, false, false, shift_carry(op, v))
}

/// The accumulator after DAA.
pub open spec fn daa_value(a: u8, f: u8) -> u8 {
    if !flag_n(f) {
        let hi = if flag_c(f) || a > 0x99 { 0x60int } else { 0 };
        let lo = if flag_h(f) || a % 16 > 9 { 6int } else { 0 };
        ((a + hi + lo) % 256) as u8
    } else {
        let hi = if flag_c(f) { 0x60int } else { 0 };
        let lo = if flag_h(f) { 6int } else { 0 };
        ((a - hi - lo + 256) % 256) as u8
    }
}

/// The flags after DAA.
pub open spec fn daa_flags(a: u8, f: u8) -> u8 {
    let c = if !flag_n(f) { flag_c(f) || a > 0x99 } else { flag_c(f) };
    flags_byte(daa_value(a, f) == 0, flag_n(f), false, c)
}

} // verus!
