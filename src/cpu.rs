use vstd::prelude::*;
use crate::alu::{
    alu_flags, alu_value, daa_flags, daa_value, dec_flags, dec_value, flag_c, flag_n, flag_h, flag_z,
    flags_byte, inc_flags, inc_value, make_flags, offset_flags, offset_value, shift_flags,
    shift_value, add16_flags, lemma_flags_byte, shift_carry, lemma_flags_byte_clean,
};
use crate::memory_manager::{plain_ram, write_leaves_others, write_then_read, MemoryManager};
use crate::opcodes::{
    branch_taken, cb_cycles, is_branch, is_conditional, cb_flags, cb_value, condition_holds, instruction_length, is_call,
    is_illegal, is_jp, is_jr, is_ret, is_rst, op_cycles,
};
use crate::register_pair::{word_of, RegisterPair};

verus! {

/// Why the interpreter stopped.
#[derive(PartialEq, Eq, Structural, Clone, Copy, Debug)]
pub enum CpuError {
    /// An encoding that this CPU does not define; the hardware locks up.
    IllegalOpcode(u8),
}

/// The processor state: four register pairs AF, BC, DE, HL, the stack
/// pointer and program counter, the interrupt master enable and the
/// halt flag.
pub struct Cpu {
    pub reg_af: RegisterPair,
    pub reg_bc: RegisterPair,
    pub reg_de: RegisterPair,
    pub reg_hl: RegisterPair,
    pub reg_sp: RegisterPair,
    pub reg_pc: u16,
    pub interrupts_enabled: bool,
    pub halted: bool,
}

/// `v` wrapped to 16 bits.
pub open spec fn wrap16(v: int) -> u16 {
    (((v % 0x10000) + 0x10000) % 0x10000) as u16
}

/// The low byte of a 16-bit value.
pub open spec fn lo_byte(v: u16) -> u8 {
    (v % 256) as u8
}

/// The high byte of a 16-bit value.
pub open spec fn hi_byte(v: u16) -> u8 {
    (v / 256) as u8
}

/// A flag byte with the bits of `mask` set or cleared.
pub open spec fn with_flag_bit(f: u8, mask: u8, on: bool) -> u8 {
    if on {
        f | mask
    } else {
        f & !mask
    }
}

/// The target of a relative jump: `pc` plus the signed offset `e`.
pub fn jr_target(pc: u16, e: u8) -> (r: u16)
    ensures
        r == wrap16(pc + (e as i8)),
{
    ((pc as i32 + (e as i8) as i32 + 0x10000) % 0x10000) as u16
}

/// Whether some interrupt is both requested (IF) and enabled (IE).
pub open spec fn interrupt_pending(bus: MemoryManager) -> bool {
    bus.mem(0xFF0F) & bus.mem(0xFFFF) & 0x1F != 0
}

/// Returns whether some interrupt is both requested (IF) and enabled (IE).
pub fn pending_interrupts(memory_manager: &MemoryManager) -> (r: bool)
    requires
        memory_manager.wf(),
    ensures
        r == interrupt_pending(*memory_manager),
{
    memory_manager.memory[0xFF0F] & memory_manager.memory[0xFFFF] & 0x1F != 0
}

impl Cpu {
    /// Register A.
    pub open spec fn a(&self) -> u8 {
        self.reg_af.hi
    }

    /// The flag register F.
    pub open spec fn f(&self) -> u8 {
        self.reg_af.lo
    }

    /// The 8-bit register with operand index `i` (0..=7 but 6):
    /// B, C, D, E, H, L, -, A.
    pub open spec fn reg8(&self, i: u8) -> u8 {
        if i == 0 {
            self.reg_bc.hi
        } else if i == 1 {
            self.reg_bc.lo
        } else if i == 2 {
            self.reg_de.hi
        } else if i == 3 {
            self.reg_de.lo
        } else if i == 4 {
            self.reg_hl.hi
        } else if i == 5 {
            self.reg_hl.lo
        } else {
            self.reg_af.hi
        }
    }

    /// The state with register `i` (0..=7 but 6) set to `v`.
    pub open spec fn with_reg8(self, i: u8, v: u8) -> Cpu {
        if i == 0 {
            Cpu { reg_bc: RegisterPair { hi: v, lo: self.reg_bc.lo }, ..self }
        } else if i == 1 {
            Cpu { reg_bc: RegisterPair { hi: self.reg_bc.hi, lo: v }, ..self }
        } else if i == 2 {
            Cpu { reg_de: RegisterPair { hi: v, lo: self.reg_de.lo }, ..self }
        } else if i == 3 {
            Cpu { reg_de: RegisterPair { hi: self.reg_de.hi, lo: v }, ..self }
        } else if i == 4 {
            Cpu { reg_hl: RegisterPair { hi: v, lo: self.reg_hl.lo }, ..self }
        } else if i == 5 {
            Cpu { reg_hl: RegisterPair { hi: self.reg_hl.hi, lo: v }, ..self }
        } else {
            Cpu { reg_af: RegisterPair { hi: v, lo: self.reg_af.lo }, ..self }
        }
    }

    /// The state with A and F replaced.
    pub open spec fn with_af(self, a: u8, f: u8) -> Cpu {
        Cpu { reg_af: RegisterPair { hi: a, lo: f }, ..self }
    }

    /// The state with F replaced.
    pub open spec fn with_f(self, f: u8) -> Cpu {
        Cpu { reg_af: RegisterPair { hi: self.reg_af.hi, lo: f }, ..self }
    }

    /// The state with the program counter replaced.
    pub open spec fn with_pc(self, pc: u16) -> Cpu {
        Cpu { reg_pc: pc, ..self }
    }

    /// The 8-bit operand with index `i`: a register, or the byte at HL for 6.
    pub open spec fn operand(&self, bus: &MemoryManager, i: u8) -> u8 {
        if i == 6 {
            bus.read_spec(self.reg_hl.value())
        } else {
            self.reg8(i)
        }
    }

    /// The register pair with index `i`: BC, DE, HL, SP.
    pub open spec fn pair(&self, i: u8) -> u16 {
        if i == 0 {
            self.reg_bc.value()
        } else if i == 1 {
            self.reg_de.value()
        } else if i == 2 {
            self.reg_hl.value()
        } else {
            self.reg_sp.value()
        }
    }

    /// The state with register pair `i` (BC, DE, HL, SP) set to `v`.
    pub open spec fn with_pair(self, i: u8, v: u16) -> Cpu {
        let p = RegisterPair { hi: hi_byte(v), lo: lo_byte(v) };
        if i == 0 {
            Cpu { reg_bc: p, ..self }
        } else if i == 1 {
            Cpu { reg_de: p, ..self }
        } else if i == 2 {
            Cpu { reg_hl: p, ..self }
        } else {
            Cpu { reg_sp: p, ..self }
        }
    }

    /// The power-on state: AF=0x01B0, BC=0x0013, DE=0x00D8, HL=0x014D,
    /// SP=0xFFFE, PC=0x0100, interrupts disabled, not halted.
    pub open spec fn power_on(&self) -> bool {
        &&& self.reg_af.value() == 0x01B0
        &&& self.reg_bc.value() == 0x0013
        &&& self.reg_de.value() == 0x00D8
        &&& self.reg_hl.value() == 0x014D
        &&& self.reg_sp.value() == 0xFFFE
        &&& self.reg_pc == 0x0100
        &&& !self.interrupts_enabled
        &&& !self.halted
    }

    /// Creates the processor in its power-on state: AF=0x01B0, BC=0x0013,
    /// DE=0x00D8, HL=0x014D, SP=0xFFFE, PC=0x0100.
    pub fn new() -> (r: Cpu)
        ensures
            r.power_on(),
    {
        Cpu {
            reg_af: RegisterPair::new(0x01B0),
            reg_bc: RegisterPair::new(0x0013),
            reg_de: RegisterPair::new(0x00D8),
            reg_hl: RegisterPair::new(0x014D),
            reg_sp: RegisterPair::new(0xFFFE),
            reg_pc: 0x0100,
            interrupts_enabled: false,
            halted: false,
        }
    }

    /// Returns the byte at PC and moves PC past it.
    pub fn get_byte(&mut self, memory_manager: &MemoryManager) -> (r: u8)
        requires
            memory_manager.wf(),
        ensures
            r == memory_manager.read_spec(old(self).reg_pc),
            *final(self) == old(self).with_pc(wrap16(old(self).reg_pc + 1)),
    {
        let byte = memory_manager.read_memory(self.reg_pc);
        self.reg_pc = self.reg_pc.wrapping_add(1);
        byte
    }

    /// Returns the little-endian word at PC and moves PC past it.
    pub fn get_word(&mut self, memory_manager: &MemoryManager) -> (r: u16)
        requires
            memory_manager.wf(),
        ensures
            r == word_of(
                memory_manager.read_spec(wrap16(old(self).reg_pc + 1)),
                memory_manager.read_spec(old(self).reg_pc),
            ),
            *final(self) == old(self).with_pc(wrap16(old(self).reg_pc + 2)),
    {
        let byte_lo = memory_manager.read_memory(self.reg_pc);
        let byte_hi = memory_manager.read_memory(self.reg_pc.wrapping_add(1));
        self.reg_pc = self.reg_pc.wrapping_add(2);
        (byte_hi as u16) * 256 + byte_lo as u16
    }

    /// Writes the flag register; its low nibble always reads zero.
    pub fn set_reg_f(&mut self, f: u8)
        ensures
            *final(self) == old(self).with_f((f / 16 * 16) as u8),
    {
        self.reg_af.lo = f / 16 * 16;
    }

    /// Writes AF as one 16-bit value; the low nibble of F always reads zero.
    pub fn set_reg_af(&mut self, af: u16)
        ensures
            *final(self) == old(self).with_af(hi_byte(af), (lo_byte(af) / 16 * 16) as u8),
    {
        self.reg_af.hi = (af / 256) as u8;
        self.reg_af.lo = ((af % 256) / 16 * 16) as u8;
    }

    /// Returns the program counter.
    pub fn get_reg_pc(&self) -> (r: u16)
        ensures
            r == self.reg_pc,
    {
        self.reg_pc
    }

    /// Sets the program counter.
    pub fn set_reg_pc(&mut self, reg_pc: u16)
        ensures
            *final(self) == old(self).with_pc(reg_pc),
    {
        self.reg_pc = reg_pc;
    }

    /// Sets the halt flag.
    pub fn set_halted(&mut self, halted: bool)
        ensures
            *final(self) == (Cpu { halted, ..*old(self) }),
    {
        self.halted = halted;
    }

    /// Returns the interrupt master enable.
    pub fn get_interrupts_enabled(&self) -> (r: bool)
        ensures
            r == self.interrupts_enabled,
    {
        self.interrupts_enabled
    }

    /// Sets the interrupt master enable.
    pub fn set_interrupts_enabled(&mut self, interrupts_enabled: bool)
        ensures
            *final(self) == (Cpu { interrupts_enabled, ..*old(self) }),
    {
        self.interrupts_enabled = interrupts_enabled;
    }

    /// The state of the bus after pushing `val` with SP at `sp`: the high
    /// byte goes to SP-1, then the low byte to SP-2.
    pub open spec fn push_effect(
        pre: MemoryManager,
        post: MemoryManager,
        sp: u16,
        val: u16,
    ) -> bool {
        exists|mid: MemoryManager|
            MemoryManager::write_effect(pre, mid, wrap16(sp - 1), hi_byte(val))
                && #[trigger] MemoryManager::write_effect(mid, post, wrap16(sp - 2), lo_byte(val))
    }

    /// Pushes a word: SP-1 gets the high byte, SP-2 the low byte, and SP
    /// moves down by 2.
    #[verifier::spinoff_prover]
    #[verifier::rlimit(40)]
    pub fn stack_push(&mut self, memory_manager: &mut MemoryManager, val: u16)
        requires
            old(memory_manager).wf(),
        ensures
            final(memory_manager).wf(),
            Cpu::push_effect(
                *old(memory_manager),
                *final(memory_manager),
                old(self).reg_sp.value(),
                val,
            ),
            *final(self) == old(self).with_pair(3, wrap16(old(self).reg_sp.value() - 2)),
    {
        let prev = self.reg_sp.get_pair();
        let sp1 = prev.wrapping_sub(1);
        let sp2 = prev.wrapping_sub(2);
        self.reg_sp.set_pair(sp1);
        memory_manager.write_memory(sp1, (val / 256) as u8);
        let ghost mid = *memory_manager;
        self.reg_sp.set_pair(sp2);
        memory_manager.write_memory(sp2, (val % 256) as u8);
        assert(MemoryManager::write_effect(mid, *memory_manager, wrap16(prev - 2), lo_byte(val)));
    }

    /// The word on top of the stack: low byte at SP, high byte at SP+1.
    pub open spec fn stack_top(&self, bus: &MemoryManager) -> u16 {
        word_of(
            bus.read_spec(wrap16(self.reg_sp.value() + 1)),
            bus.read_spec(self.reg_sp.value()),
        )
    }

    /// Pops a word: the low byte from SP, the high byte from SP+1; SP
    /// moves up by 2.
    pub fn stack_pop(&mut self, memory_manager: &MemoryManager) -> (r: u16)
        requires
            memory_manager.wf(),
        ensures
            r == old(self).stack_top(memory_manager),
            *final(self) == old(self).with_pair(3, wrap16(old(self).reg_sp.value() + 2)),
    {
        let prev = self.reg_sp.get_pair();
        let lo = memory_manager.read_memory(prev);
        let hi = memory_manager.read_memory(prev.wrapping_add(1));
        self.reg_sp.set_pair(prev.wrapping_add(2));
        (hi as u16) * 256 + lo as u16
    }

    /// Pushes PC and jumps to `address`.
    pub fn call_routine(&mut self, memory_manager: &mut MemoryManager, address: u16)
        requires
            old(memory_manager).wf(),
        ensures
            final(memory_manager).wf(),
            Cpu::push_effect(
                *old(memory_manager),
                *final(memory_manager),
                old(self).reg_sp.value(),
                old(self).reg_pc,
            ),
            *final(self) == old(self).with_pair(3, wrap16(old(self).reg_sp.value() - 2)).with_pc(
                address,
            ),
    {
        let pc = self.reg_pc;
        self.stack_push(memory_manager, pc);
        self.reg_pc = address;
    }

    /// The carry flag as 0 or 1.
    fn carry_bit(&self) -> (r: u8)
        ensures
            r == (if flag_c(self.f()) { 1u8 } else { 0u8 }),
    {
        if (self.reg_af.lo / 16) % 2 == 1 {
            1
        } else {
            0
        }
    }

    /// Sets or clears the zero flag (bit 7 of F).
    pub fn update_zero_flag(&mut self, result: bool)
        ensures
            *final(self) == old(self).with_f(with_flag_bit(old(self).f(), 0x80, result)),
    {
        self.reg_af.lo = if result {
            self.reg_af.lo | 0x80
        } else {
            self.reg_af.lo & !0x80u8
        };
    }

    /// Sets or clears the subtract flag (bit 6 of F).
    pub fn update_subtract_flag(&mut self, sub_occurred: bool)
        ensures
            *final(self) == old(self).with_f(with_flag_bit(old(self).f(), 0x40, sub_occurred)),
    {
        self.reg_af.lo = if sub_occurred {
            self.reg_af.lo | 0x40
        } else {
            self.reg_af.lo & !0x40u8
        };
    }

    /// Sets or clears the half-carry flag (bit 5 of F).
    pub fn update_half_carry_flag(&mut self, half_carry_occurred: bool)
        ensures
            *final(self) == old(self).with_f(
                with_flag_bit(old(self).f(), 0x20, half_carry_occurred),
            ),
    {
        self.reg_af.lo = if half_carry_occurred {
            self.reg_af.lo | 0x20
        } else {
            self.reg_af.lo & !0x20u8
        };
    }

    /// Sets or clears the carry flag (bit 4 of F).
    pub fn update_carry_flag(&mut self, carry_occurred: bool)
        ensures
            *final(self) == old(self).with_f(with_flag_bit(old(self).f(), 0x10, carry_occurred)),
    {
        self.reg_af.lo = if carry_occurred {
            self.reg_af.lo | 0x10
        } else {
            self.reg_af.lo & !0x10u8
        };
    }

    /// ADD A,src.
    pub fn add_u8_a(&mut self, src: u8)
        ensures
            *final(self) == old(self).with_af(
                alu_value(0, old(self).a(), src, old(self).f()),
                alu_flags(0, old(self).a(), src, old(self).f()),
            ),
    {
        let a = self.reg_af.hi;
        let sum: u16 = a as u16 + src as u16;
        let res = (sum % 256) as u8;
        self.reg_af.lo = make_flags(res == 0, false, a % 16 + src % 16 > 15, sum > 255);
        self.reg_af.hi = res;
    }

    /// ADC A,src: adds the carry flag too.
    pub fn adc_reg_a(&mut self, src: u8)
        ensures
            *final(self) == old(self).with_af(
                alu_value(1, old(self).a(), src, old(self).f()),
                alu_flags(1, old(self).a(), src, old(self).f()),
            ),
    {
        let a = self.reg_af.hi;
        let carry = self.carry_bit();
        let sum: u16 = a as u16 + src as u16 + carry as u16;
        let res = (sum % 256) as u8;
        self.reg_af.lo = make_flags(res == 0, false, a % 16 + src % 16 + carry > 15, sum > 255);
        self.reg_af.hi = res;
    }

    /// SUB A,src.
    pub fn sub_u8_a(&mut self, src: u8)
        ensures
            *final(self) == old(self).with_af(
                alu_value(2, old(self).a(), src, old(self).f()),
                alu_flags(2, old(self).a(), src, old(self).f()),
            ),
    {
        let a = self.reg_af.hi;
        let res = ((a as u16 + 512 - src as u16) % 256) as u8;
        self.reg_af.lo = make_flags(res == 0, true, a % 16 < src % 16, a < src);
        self.reg_af.hi = res;
    }

    /// SBC A,src: subtracts the carry flag too.
    pub fn sbc_reg_a(&mut self, src: u8)
        ensures
            *final(self) == old(self).with_af(
                alu_value(3, old(self).a(), src, old(self).f()),
                alu_flags(3, old(self).a(), src, old(self).f()),
            ),
    {
        let a = self.reg_af.hi;
        let carry = self.carry_bit();
        let res = ((a as u16 + 512 - src as u16 - carry as u16) % 256) as u8;
        self.reg_af.lo = make_flags(
            res == 0,
            true,
            a % 16 < src % 16 + carry,
            (a as u16) < src as u16 + carry as u16,
        );
        self.reg_af.hi = res;
    }

    /// AND A,src.
    pub fn and_reg_a(&mut self, src: u8)
        ensures
            *final(self) == old(self).with_af(
                alu_value(4, old(self).a(), src, old(self).f()),
                alu_flags(4, old(self).a(), src, old(self).f()),
            ),
    {
        let res = self.reg_af.hi & src;
        self.reg_af.lo = make_flags(res == 0, false, true, false);
        self.reg_af.hi = res;
    }

    /// XOR A,src.
    pub fn xor_reg_a(&mut self, src: u8)
        ensures
            *final(self) == old(self).with_af(
                alu_value(5, old(self).a(), src, old(self).f()),
                alu_flags(5, old(self).a(), src, old(self).f()),
            ),
    {
        let res = self.reg_af.hi ^ src;
        self.reg_af.lo = make_flags(res == 0, false, false, false);
        self.reg_af.hi = res;
    }

    /// OR A,src.
    pub fn or_reg_a(&mut self, src: u8)
        ensures
            *final(self) == old(self).with_af(
                alu_value(6, old(self).a(), src, old(self).f()),
                alu_flags(6, old(self).a(), src, old(self).f()),
            ),
    {
        let res = self.reg_af.hi | src;
        self.reg_af.lo = make_flags(res == 0, false, false, false);
        self.reg_af.hi = res;
    }

    /// CP A,src: the flags of SUB, with A kept.
    pub fn cp_reg_a(&mut self, src: u8)
        ensures
            *final(self) == old(self).with_af(
                alu_value(7, old(self).a(), src, old(self).f()),
                alu_flags(7, old(self).a(), src, old(self).f()),
            ),
    {
        let a = self.reg_af.hi;
        self.sub_u8_a(src);
        self.reg_af.hi = a;
    }

    /// The accumulator operation with index `op` (ADD, ADC, SUB, SBC, AND,
    /// XOR, OR, CP) on A and `src`.
    pub fn alu_a(&mut self, op: u8, src: u8)
        requires
            op < 8,
        ensures
            *final(self) == old(self).with_af(
                alu_value(op, old(self).a(), src, old(self).f()),
                alu_flags(op, old(self).a(), src, old(self).f()),
            ),
    {
        if op == 0 {
            self.add_u8_a(src);
        } else if op == 1 {
            self.adc_reg_a(src);
        } else if op == 2 {
            self.sub_u8_a(src);
        } else if op == 3 {
            self.sbc_reg_a(src);
        } else if op == 4 {
            self.and_reg_a(src);
        } else if op == 5 {
            self.xor_reg_a(src);
        } else if op == 6 {
            self.or_reg_a(src);
        } else {
            self.cp_reg_a(src);
        }
    }

    /// ADD HL,src: Z kept, H from bit 11, C from bit 15.
    pub fn add_u16_hl(&mut self, src: &mut u16)
        ensures
            *final(src) == *old(src),
            *final(self) == old(self).with_pair(
                2,
                ((old(self).reg_hl.value() + *old(src)) % 0x10000) as u16,
            ).with_f(add16_flags(old(self).reg_hl.value(), *old(src), old(self).f())),
    {
        let hl = self.reg_hl.get_pair();
        let v = *src;
        let z = (self.reg_af.lo / 128) % 2 == 1;
        self.reg_hl.set_pair(hl.wrapping_add(v));
        self.reg_af.lo = make_flags(z, false, hl % 4096 + v % 4096 > 4095, hl as u32 + v as u32 > 0xFFFF);
    }

    /// INC: the carry flag is kept.
    pub fn inc_u8(&mut self, dest: &mut u8)
        ensures
            *final(dest) == inc_value(*old(dest)),
            *final(self) == old(self).with_f(inc_flags(*old(dest), old(self).f())),
    {
        let v = *dest;
        let res = v.wrapping_add(1);
        let c = (self.reg_af.lo / 16) % 2 == 1;
        self.reg_af.lo = make_flags(res == 0, false, v % 16 == 15, c);
        *dest = res;
    }

    /// DEC: the carry flag is kept.
    pub fn dec_u8(&mut self, dest: &mut u8)
        ensures
            *final(dest) == dec_value(*old(dest)),
            *final(self) == old(self).with_f(dec_flags(*old(dest), old(self).f())),
    {
        let v = *dest;
        let res = v.wrapping_sub(1);
        let c = (self.reg_af.lo / 16) % 2 == 1;
        self.reg_af.lo = make_flags(res == 0, true, v % 16 == 0, c);
        *dest = res;
    }

    /// The rotate, shift or SWAP with CB-table index `op` (RLC, RRC, RL,
    /// RR, SLA, SRA, SWAP, SRL) on `byte`; sets the flags and returns the result.
    pub fn shift_u8(&mut self, op: u8, byte: u8) -> (r: u8)
        requires
            op < 8,
        ensures
            r == shift_value(op, byte, flag_c(old(self).f())),
            *final(self) == old(self).with_f(shift_flags(op, byte, flag_c(old(self).f()))),
    {
        let v = byte as u16;
        let c = self.carry_bit() as u16;
        let res: u16 = if op == 0 {
            (v * 2) % 256 + v / 128
        } else if op == 1 {
            v / 2 + (v % 2) * 128
        } else if op == 2 {
            (v * 2) % 256 + c
        } else if op == 3 {
            v / 2 + c * 128
        } else if op == 4 {
            (v * 2) % 256
        } else if op == 5 {
            v / 2 + (v / 128) * 128
        } else if op == 6 {
            (v % 16) * 16 + v / 16
        } else {
            v / 2
        };
        let carry = if op == 0 || op == 2 || op == 4 {
            byte >= 128
        } else if op == 6 {
            false
        } else {
            byte % 2 == 1
        };
        self.reg_af.lo = make_flags(res == 0, false, false, carry);
        res as u8
    }

    /// RL: rotates left through the carry flag.
    pub fn rl_u8(&mut self, src: &mut u8)
        ensures
            *final(src) == shift_value(2, *old(src), flag_c(old(self).f())),
            *final(self) == old(self).with_f(shift_flags(2, *old(src), flag_c(old(self).f()))),
    {
        *src = self.shift_u8(2, *src);
    }

    /// RLC: rotates left; bit 7 goes to bit 0 and to the carry flag.
    pub fn rlc_u8(&mut self, src: &mut u8)
        ensures
            *final(src) == shift_value(0, *old(src), flag_c(old(self).f())),
            *final(self) == old(self).with_f(shift_flags(0, *old(src), flag_c(old(self).f()))),
    {
        *src = self.shift_u8(0, *src);
    }

    /// RR: rotates right through the carry flag.
    pub fn rr_u8(&mut self, src: &mut u8)
        ensures
            *final(src) == shift_value(3, *old(src), flag_c(old(self).f())),
            *final(self) == old(self).with_f(shift_flags(3, *old(src), flag_c(old(self).f()))),
    {
        *src = self.shift_u8(3, *src);
    }

    /// RRC: rotates right; bit 0 goes to bit 7 and to the carry flag.
    pub fn rrc_u8(&mut self, src: &mut u8)
        ensures
            *final(src) == shift_value(1, *old(src), flag_c(old(self).f())),
            *final(self) == old(self).with_f(shift_flags(1, *old(src), flag_c(old(self).f()))),
    {
        *src = self.shift_u8(1, *src);
    }

    /// SLA: shifts left; bit 7 goes to the carry flag.
    pub fn sla_u8(&mut self, byte: u8) -> (r: u8)
        ensures
            r == shift_value(4, byte, flag_c(old(self).f())),
            *final(self) == old(self).with_f(shift_flags(4, byte, flag_c(old(self).f()))),
    {
        self.shift_u8(4, byte)
    }

    /// SRA: shifts right keeping bit 7; bit 0 goes to the carry flag.
    pub fn sra_u8(&mut self, byte: u8) -> (r: u8)
        ensures
            r == shift_value(5, byte, flag_c(old(self).f())),
            *final(self) == old(self).with_f(shift_flags(5, byte, flag_c(old(self).f()))),
    {
        self.shift_u8(5, byte)
    }

    /// SRL: shifts right with bit 7 cleared; bit 0 goes to the carry flag.
    pub fn srl_u8(&mut self, byte: u8) -> (r: u8)
        ensures
            r == shift_value(7, byte, flag_c(old(self).f())),
            *final(self) == old(self).with_f(shift_flags(7, byte, flag_c(old(self).f()))),
    {
        self.shift_u8(7, byte)
    }

    /// DAA: adjusts A to binary-coded decimal after an addition or subtraction.
    pub fn daa(&mut self)
        ensures
            *final(self) == old(self).with_af(
                daa_value(old(self).a(), old(self).f()),
                daa_flags(old(self).a(), old(self).f()),
            ),
    {
        let a = self.reg_af.hi;
        let f = self.reg_af.lo;
        let n = (f / 64) % 2 == 1;
        let h = (f / 32) % 2 == 1;
        let c = (f / 16) % 2 == 1;
        let res: u8;
        let carry: bool;
        if !n {
            carry = c || a > 0x99;
            let hi: u16 = if carry { 0x60 } else { 0 };
            let lo: u16 = if h || a % 16 > 9 { 6 } else { 0 };
            res = ((a as u16 + hi + lo) % 256) as u8;
        } else {
            carry = c;
            let hi: u16 = if c { 0x60 } else { 0 };
            let lo: u16 = if h { 6 } else { 0 };
            res = ((a as u16 + 256 - hi - lo) % 256) as u8;
        }
        self.reg_af.lo = make_flags(res == 0, n, false, carry);
        self.reg_af.hi = res;
    }

    /// Reads the 8-bit operand with index `i`: B, C, D, E, H, L, (HL), A.
    fn read_operand(&self, memory_manager: &MemoryManager, i: u8) -> (r: u8)
        requires
            memory_manager.wf(),
            i < 8,
        ensures
            r == self.operand(memory_manager, i),
    {
        if i == 0 {
            self.reg_bc.hi
        } else if i == 1 {
            self.reg_bc.lo
        } else if i == 2 {
            self.reg_de.hi
        } else if i == 3 {
            self.reg_de.lo
        } else if i == 4 {
            self.reg_hl.hi
        } else if i == 5 {
            self.reg_hl.lo
        } else if i == 6 {
            memory_manager.read_memory(self.reg_hl.get_pair())
        } else {
            self.reg_af.hi
        }
    }

    /// Writes the 8-bit operand with index `i`: B, C, D, E, H, L, (HL), A.
    fn write_operand(&mut self, memory_manager: &mut MemoryManager, i: u8, v: u8)
        requires
            old(memory_manager).wf(),
            i < 8,
        ensures
            final(memory_manager).wf(),
            i != 6 ==> *final(self) == old(self).with_reg8(i, v) && *final(memory_manager) == *old(
                memory_manager,
            ),
            i == 6 ==> *final(self) == *old(self) && MemoryManager::write_effect(
                *old(memory_manager),
                *final(memory_manager),
                old(self).reg_hl.value(),
                v,
            ),
    {
        if i == 0 {
            self.reg_bc.hi = v;
        } else if i == 1 {
            self.reg_bc.lo = v;
        } else if i == 2 {
            self.reg_de.hi = v;
        } else if i == 3 {
            self.reg_de.lo = v;
        } else if i == 4 {
            self.reg_hl.hi = v;
        } else if i == 5 {
            self.reg_hl.lo = v;
        } else if i == 6 {
            memory_manager.write_memory(self.reg_hl.get_pair(), v);
        } else {
            self.reg_af.hi = v;
        }
    }

    /// Returns register pair `i`: BC, DE, HL, SP.
    fn get_pair_at(&self, i: u8) -> (r: u16)
        ensures
            r == self.pair(i),
    {
        if i == 0 {
            self.reg_bc.get_pair()
        } else if i == 1 {
            self.reg_de.get_pair()
        } else if i == 2 {
            self.reg_hl.get_pair()
        } else {
            self.reg_sp.get_pair()
        }
    }

    /// Sets register pair `i`: BC, DE, HL, SP.
    fn set_pair_at(&mut self, i: u8, v: u16)
        ensures
            *final(self) == old(self).with_pair(i, v),
    {
        if i == 0 {
            self.reg_bc.set_pair(v);
        } else if i == 1 {
            self.reg_de.set_pair(v);
        } else if i == 2 {
            self.reg_hl.set_pair(v);
        } else {
            self.reg_sp.set_pair(v);
        }
    }

    /// Executes the CB-prefixed instruction at PC (the byte after 0xCB)
    /// and returns its cycles.
    pub fn extended_instruction(&mut self, memory_manager: &mut MemoryManager) -> (r: i32)
        requires
            old(memory_manager).wf(),
        ensures
            final(memory_manager).wf(),
            ({
                let cb = old(memory_manager).read_spec(old(self).reg_pc);
                let after = old(self).with_pc(wrap16(old(self).reg_pc + 1));
                let t = cb % 8;
                let v = after.operand(old(memory_manager), t);
                let value = cb_value(cb, v, after.f());
                let flags = cb_flags(cb, v, after.f());
                &&& r == cb_cycles(cb)
                &&& t != 6 ==> *final(self) == after.with_reg8(t, value).with_f(flags)
                    && *final(memory_manager) == *old(memory_manager)
                &&& t == 6 ==> *final(self) == after.with_f(flags)
                &&& t == 6 && 0x40 <= cb < 0x80 ==> *final(memory_manager) == *old(memory_manager)
                &&& t == 6 && !(0x40 <= cb < 0x80) ==> MemoryManager::write_effect(
                    *old(memory_manager),
                    *final(memory_manager),
                    after.reg_hl.value(),
                    value,
                )
            }),
    {
        let cb = self.get_byte(memory_manager);
        let t = cb % 8;
        let b = (cb / 8) % 8;
        let v = self.read_operand(memory_manager, t);
        if cb < 0x40 {
            let res = self.shift_u8(b, v);
            self.write_operand(memory_manager, t, res);
        } else if cb < 0x80 {
            let c = (self.reg_af.lo / 16) % 2 == 1;
            let set = crate::instructions::test_bit(v, b);
            self.reg_af.lo = make_flags(!set, false, true, c);
        } else if cb < 0xC0 {
            self.write_operand(memory_manager, t, v & !(1u8 << b));
        } else {
            self.write_operand(memory_manager, t, v | (1u8 << b));
        }
        if t == 6 {
            if 0x40 <= cb && cb < 0x80 {
                12
            } else {
                16
            }
        } else {
            8
        }
    }

    /// The program counter after the instruction `op`, in the state where
    /// PC already points past the opcode.
    pub open spec fn next_pc(op: u8, cpu: Cpu, bus: MemoryManager) -> u16 {
        let p1 = cpu.reg_pc;
        let imm8 = bus.read_spec(p1);
        let imm16 = word_of(bus.read_spec(wrap16(p1 + 1)), imm8);
        let taken = branch_taken(op, cpu.f());
        if is_jr(op) {
            if taken {
                wrap16(p1 + 1 + (imm8 as i8))
            } else {
                wrap16(p1 + 1)
            }
        } else if is_jp(op) || is_call(op) {
            if taken {
                imm16
            } else {
                wrap16(p1 + 2)
            }
        } else if op == 0xE9 {
            cpu.reg_hl.value()
        } else if is_ret(op) {
            if taken {
                cpu.stack_top(&bus)
            } else {
                p1
            }
        } else if is_rst(op) {
            (op - 0xC7) as u16
        } else {
            wrap16(p1 + instruction_length(op) - 1)
        }
    }

    /// Whether `op` (0x00..=0x3F) changes only registers and PC, and moves
    /// to the next instruction: every such opcode but the relative jumps,
    /// STOP, LD (a16),SP, the loads through BC, DE and HL, and the 8-bit
    /// operations on (HL).
    pub open spec fn is_low_register_op(op: u8) -> bool {
        let col = op % 16;
        &&& op < 0x40
        &&& !is_jr(op)
        &&& op != 0x10
        &&& op != 0x08
        &&& col != 2 && col != 0xA
        &&& (col == 4 || col == 5 || col == 6 || col == 0xC || col == 0xD || col == 0xE) ==> op
            / 8 != 6
    }

    /// The state after a register-only opcode of 0x00..=0x3F, from the
    /// state with PC past the opcode.
    pub open spec fn low_register_effect(op: u8, cpu: Cpu, bus: MemoryManager) -> Cpu {
        let p1 = cpu.reg_pc;
        let imm8 = bus.read_spec(p1);
        let imm16 = word_of(bus.read_spec(wrap16(p1 + 1)), imm8);
        let col = op % 16;
        let row = op / 16;
        let i = op / 8;
        let f = cpu.f();
        let a = cpu.a();
        let hl = cpu.reg_hl.value();
        if op == 0x00 {
            cpu
        } else if op == 0x07 || op == 0x0F || op == 0x17 || op == 0x1F {
            cpu.with_af(
                shift_value(i, a, flag_c(f)),
                flags_byte(false, false, false, shift_carry(i, a)),
            )
        } else if op == 0x27 {
            cpu.with_af(daa_value(a, f), daa_flags(a, f))
        } else if op == 0x2F {
            cpu.with_af(!a, flags_byte(flag_z(f), true, true, flag_c(f)))
        } else if op == 0x37 {
            cpu.with_f(flags_byte(flag_z(f), false, false, true))
        } else if op == 0x3F {
            cpu.with_f(flags_byte(flag_z(f), false, false, !flag_c(f)))
        } else if col == 1 {
            cpu.with_pc(wrap16(p1 + 2)).with_pair(row, imm16)
        } else if col == 3 {
            cpu.with_pair(row, wrap16(cpu.pair(row) + 1))
        } else if col == 0xB {
            cpu.with_pair(row, wrap16(cpu.pair(row) - 1))
        } else if col == 9 {
            cpu.with_pair(2, ((hl + cpu.pair(row)) % 0x10000) as u16).with_f(
                add16_flags(hl, cpu.pair(row), f),
            )
        } else if col == 4 || col == 0xC {
            cpu.with_reg8(i, inc_value(cpu.reg8(i))).with_f(inc_flags(cpu.reg8(i), f))
        } else if col == 5 || col == 0xD {
            cpu.with_reg8(i, dec_value(cpu.reg8(i))).with_f(dec_flags(cpu.reg8(i), f))
        } else {
            cpu.with_pc(wrap16(p1 + 1)).with_reg8(i, imm8)
        }
    }

    /// Whether `op` (0x00..=0x3F) reads or writes memory as data: the
    /// loads through BC, DE and HL, INC, DEC and LD on (HL), and
    /// LD (a16),SP.
    pub open spec fn is_low_memory_op(op: u8) -> bool {
        op < 0x40 && (op % 16 == 2 || op % 16 == 0xA || op == 0x34 || op == 0x35 || op == 0x36
            || op == 0x08)
    }

    /// The address that a load through BC, DE, HL+ or HL- uses.
    pub open spec fn indirect_address(op: u8, cpu: Cpu) -> u16 {
        let row = op / 16;
        if row < 2 {
            cpu.pair(row)
        } else {
            cpu.reg_hl.value()
        }
    }

    /// HL after a load through HL+ (incremented) or HL- (decremented).
    pub open spec fn adjust_hl(op: u8, cpu: Cpu) -> Cpu {
        let row = op / 16;
        if row == 2 {
            cpu.with_pair(2, wrap16(cpu.reg_hl.value() + 1))
        } else if row == 3 {
            cpu.with_pair(2, wrap16(cpu.reg_hl.value() - 1))
        } else {
            cpu
        }
    }

    /// The state after a memory opcode of 0x00..=0x3F, from the state with
    /// PC past the opcode.
    pub open spec fn low_memory_effect(op: u8, cpu: Cpu, bus: MemoryManager) -> Cpu {
        let hl = cpu.reg_hl.value();
        if op % 16 == 2 {
            Cpu::adjust_hl(op, cpu)
        } else if op % 16 == 0xA {
            Cpu::adjust_hl(op, cpu.with_af(bus.read_spec(Cpu::indirect_address(op, cpu)), cpu.f()))
        } else if op == 0x34 {
            cpu.with_f(inc_flags(bus.read_spec(hl), cpu.f()))
        } else if op == 0x35 {
            cpu.with_f(dec_flags(bus.read_spec(hl), cpu.f()))
        } else if op == 0x36 {
            cpu.with_pc(wrap16(cpu.reg_pc + 1))
        } else {
            cpu.with_pc(wrap16(cpu.reg_pc + 2))
        }
    }

    /// The bus after a memory opcode of 0x00..=0x3F: stores of A through
    /// BC, DE, HL+ or HL-, INC, DEC and LD on (HL), and SP stored low byte
    /// first at the immediate address.
    pub open spec fn low_memory_bus(op: u8, cpu: Cpu, pre: MemoryManager, post: MemoryManager) -> bool {
        let p1 = cpu.reg_pc;
        let hl = cpu.reg_hl.value();
        let imm16 = word_of(pre.read_spec(wrap16(p1 + 1)), pre.read_spec(p1));
        if op % 16 == 2 {
            MemoryManager::write_effect(pre, post, Cpu::indirect_address(op, cpu), cpu.a())
        } else if op % 16 == 0xA {
            post == pre
        } else if op == 0x34 {
            MemoryManager::write_effect(pre, post, hl, inc_value(pre.read_spec(hl)))
        } else if op == 0x35 {
            MemoryManager::write_effect(pre, post, hl, dec_value(pre.read_spec(hl)))
        } else if op == 0x36 {
            MemoryManager::write_effect(pre, post, hl, pre.read_spec(p1))
        } else {
            exists|mid: MemoryManager|
                MemoryManager::write_effect(pre, mid, imm16, cpu.reg_sp.lo)
                    && #[trigger] MemoryManager::write_effect(
                    mid,
                    post,
                    wrap16(imm16 + 1),
                    cpu.reg_sp.hi,
                )
        }
    }

    /// The state after a load, stack or interrupt-switch opcode of
    /// 0xC0..=0xFF, from the state with PC past the opcode.
    pub open spec fn high_transfer_effect(op: u8, cpu: Cpu, bus: MemoryManager) -> Cpu {
        let p1 = cpu.reg_pc;
        let imm8 = bus.read_spec(p1);
        let imm16 = word_of(bus.read_spec(wrap16(p1 + 1)), imm8);
        let col = op % 16;
        let row = ((op - 0xC0) / 16) as u8;
        let sp = cpu.reg_sp.value();
        let top = cpu.stack_top(&bus);
        if col == 1 {
            let popped = cpu.with_pair(3, wrap16(sp + 2));
            if row == 3 {
                popped.with_af(hi_byte(top), (lo_byte(top) / 16 * 16) as u8)
            } else {
                popped.with_pair(row, top)
            }
        } else if col == 5 {
            cpu.with_pair(3, wrap16(sp - 2))
        } else if op == 0xE0 {
            cpu.with_pc(wrap16(p1 + 1))
        } else if op == 0xF0 {
            cpu.with_pc(wrap16(p1 + 1)).with_af(bus.read_spec((0xFF00 + imm8) as u16), cpu.f())
        } else if op == 0xE2 {
            cpu
        } else if op == 0xF2 {
            cpu.with_af(bus.read_spec((0xFF00 + cpu.reg_bc.lo) as u16), cpu.f())
        } else if op == 0xE8 {
            cpu.with_pc(wrap16(p1 + 1)).with_pair(3, offset_value(sp, imm8)).with_f(
                offset_flags(sp, imm8),
            )
        } else if op == 0xF8 {
            cpu.with_pc(wrap16(p1 + 1)).with_pair(2, offset_value(sp, imm8)).with_f(
                offset_flags(sp, imm8),
            )
        } else if op == 0xEA {
            cpu.with_pc(wrap16(p1 + 2))
        } else if op == 0xFA {
            cpu.with_pc(wrap16(p1 + 2)).with_af(bus.read_spec(imm16), cpu.f())
        } else if op == 0xF3 || op == 0xFB {
            Cpu { interrupts_enabled: op == 0xFB, ..cpu }
        } else {
            cpu.with_pair(3, cpu.reg_hl.value())
        }
    }

    /// The bus after a load, stack or interrupt-switch opcode of
    /// 0xC0..=0xFF: PUSH stores a pair, LDH (a8),A, LD (C),A and
    /// LD (a16),A store A, the others leave the bus as it was.
    pub open spec fn high_transfer_bus(op: u8, cpu: Cpu, pre: MemoryManager, post: MemoryManager) -> bool {
        let p1 = cpu.reg_pc;
        let imm8 = pre.read_spec(p1);
        let imm16 = word_of(pre.read_spec(wrap16(p1 + 1)), imm8);
        let row = ((op - 0xC0) / 16) as u8;
        if op % 16 == 5 {
            Cpu::push_effect(
                pre,
                post,
                cpu.reg_sp.value(),
                if row == 3 { cpu.reg_af.value() } else { cpu.pair(row) },
            )
        } else if op == 0xE0 {
            MemoryManager::write_effect(pre, post, (0xFF00 + imm8) as u16, cpu.a())
        } else if op == 0xE2 {
            MemoryManager::write_effect(pre, post, (0xFF00 + cpu.reg_bc.lo) as u16, cpu.a())
        } else if op == 0xEA {
            MemoryManager::write_effect(pre, post, imm16, cpu.a())
        } else {
            post == pre
        }
    }

    /// The state after a jump, call, return or restart of 0xC0..=0xFF,
    /// from the state with PC past the opcode: calls and restarts push
    /// the return address, returns pop it, RETI also sets the master enable.
    pub open spec fn branch_effect(op: u8, cpu: Cpu, bus: MemoryManager) -> Cpu {
        let next = Cpu::next_pc(op, cpu, bus);
        let taken = branch_taken(op, cpu.f());
        let sp = cpu.reg_sp.value();
        if is_rst(op) || (is_call(op) && taken) {
            cpu.with_pair(3, wrap16(sp - 2)).with_pc(next)
        } else if is_ret(op) && taken {
            let popped = cpu.with_pair(3, wrap16(sp + 2)).with_pc(next);
            if op == 0xD9 {
                Cpu { interrupts_enabled: true, ..popped }
            } else {
                popped
            }
        } else {
            cpu.with_pc(next)
        }
    }

    /// The bus after a jump, call, return or restart: a restart pushes the
    /// address after it, a taken call the address after its operand.
    pub open spec fn branch_bus(op: u8, cpu: Cpu, pre: MemoryManager, post: MemoryManager) -> bool {
        let p1 = cpu.reg_pc;
        if is_rst(op) {
            Cpu::push_effect(pre, post, cpu.reg_sp.value(), p1)
        } else if is_call(op) && branch_taken(op, cpu.f()) {
            Cpu::push_effect(pre, post, cpu.reg_sp.value(), wrap16(p1 + 2))
        } else {
            post == pre
        }
    }

    /// Whether the condition coded in bits 3-4 of `op` holds.
    fn condition(&self, op: u8) -> (r: bool)
        ensures
            r == condition_holds(op, self.f()),
    {
        let cc = (op / 8) % 4;
        let z = (self.reg_af.lo / 128) % 2 == 1;
        let c = (self.reg_af.lo / 16) % 2 == 1;
        if cc == 0 {
            !z
        } else if cc == 1 {
            z
        } else if cc == 2 {
            !c
        } else {
            c
        }
    }

    /// Executes NOP, STOP, LD (a16),SP, the accumulator rotates, the
    /// relative jumps, DAA, CPL, SCF and CCF; PC points past the opcode.
    #[verifier::spinoff_prover]
    #[verifier::rlimit(100)]
    fn execute_low_special(&mut self, memory_manager: &mut MemoryManager, op: u8) -> (r: i32)
        requires
            old(memory_manager).wf(),
            op < 0x40,
            op % 8 == 0 || op % 8 == 7,
        ensures
            final(memory_manager).wf(),
            r == op_cycles(op, branch_taken(op, old(self).f()), 0),
            final(self).reg_pc == Cpu::next_pc(op, *old(self), *old(memory_manager)),
            Cpu::is_low_register_op(op) ==> *final(self) == Cpu::low_register_effect(
                op,
                *old(self),
                *old(memory_manager),
            ) && *final(memory_manager) == *old(memory_manager),
            Cpu::is_low_memory_op(op) ==> *final(self) == Cpu::low_memory_effect(
                op,
                *old(self),
                *old(memory_manager),
            ) && Cpu::low_memory_bus(op, *old(self), *old(memory_manager), *final(memory_manager)),
            is_jr(op) || op == 0x10 ==> *final(self) == old(self).with_pc(
                Cpu::next_pc(op, *old(self), *old(memory_manager)),
            ) && *final(memory_manager) == *old(memory_manager),
    {
        if op == 0x00 {
            4
        } else if op == 0x10 {
            let _ = self.get_byte(memory_manager);
            4
        } else if op == 0x08 {
            let address = self.get_word(memory_manager);
            memory_manager.write_memory(address, self.reg_sp.lo);
            let ghost mid = *memory_manager;
            memory_manager.write_memory(address.wrapping_add(1), self.reg_sp.hi);
            assert(MemoryManager::write_effect(mid, *memory_manager, wrap16(address + 1), self.reg_sp.hi));
            20
        } else if op == 0x07 || op == 0x0F || op == 0x17 || op == 0x1F {
            let a = self.reg_af.hi;
            let res = self.shift_u8(op / 8, a);
            proof {
                lemma_flags_byte(res == 0, false, false, shift_carry(op / 8, a));
            }
            let c = (self.reg_af.lo / 16) % 2 == 1;
            self.reg_af.hi = res;
            self.reg_af.lo = make_flags(false, false, false, c);
            4
        } else if op == 0x18 || op == 0x20 || op == 0x28 || op == 0x30 || op == 0x38 {
            let taken = op == 0x18 || self.condition(op);
            let e = self.get_byte(memory_manager);
            if taken {
                self.reg_pc = jr_target(self.reg_pc, e);
                12
            } else {
                8
            }
        } else if op == 0x27 {
            self.daa();
            4
        } else if op == 0x2F {
            let z = (self.reg_af.lo / 128) % 2 == 1;
            let c = (self.reg_af.lo / 16) % 2 == 1;
            self.reg_af.hi = !self.reg_af.hi;
            self.reg_af.lo = make_flags(z, true, true, c);
            4
        } else {
            let z = (self.reg_af.lo / 128) % 2 == 1;
            let c = (self.reg_af.lo / 16) % 2 == 1;
            self.reg_af.lo = make_flags(z, false, false, op == 0x37 || !c);
            4
        }
    }

    /// Executes LD rr,d16, INC rr, DEC rr and ADD HL,rr; PC points past the opcode.
    #[verifier::spinoff_prover]
    #[verifier::rlimit(60)]
    fn execute_low_pairs(&mut self, memory_manager: &mut MemoryManager, op: u8) -> (r: i32)
        requires
            old(memory_manager).wf(),
            op < 0x40,
            op % 16 == 1 || op % 16 == 3 || op % 16 == 9 || op % 16 == 0xB,
        ensures
            final(memory_manager).wf(),
            r == op_cycles(op, branch_taken(op, old(self).f()), 0),
            final(self).reg_pc == Cpu::next_pc(op, *old(self), *old(memory_manager)),
            Cpu::is_low_register_op(op) ==> *final(self) == Cpu::low_register_effect(
                op,
                *old(self),
                *old(memory_manager),
            ) && *final(memory_manager) == *old(memory_manager),
            Cpu::is_low_memory_op(op) ==> *final(self) == Cpu::low_memory_effect(
                op,
                *old(self),
                *old(memory_manager),
            ) && Cpu::low_memory_bus(op, *old(self), *old(memory_manager), *final(memory_manager)),
    {
        let col = op % 16;
        let row = op / 16;
        if col == 1 {
            let word = self.get_word(memory_manager);
            self.set_pair_at(row, word);
            12
        } else if col == 3 || col == 0xB {
            let v = self.get_pair_at(row);
            self.set_pair_at(
                row,
                if col == 3 {
                    v.wrapping_add(1)
                } else {
                    v.wrapping_sub(1)
                },
            );
            8
        } else {
            let mut v = self.get_pair_at(row);
            self.add_u16_hl(&mut v);
            8
        }
    }

    /// Executes the loads through BC, DE and HL, and INC, DEC and LD r,d8
    /// of 0x00..=0x3F; PC points past the opcode.
    #[verifier::spinoff_prover]
    #[verifier::rlimit(60)]
    fn execute_low_bytes(&mut self, memory_manager: &mut MemoryManager, op: u8) -> (r: i32)
        requires
            old(memory_manager).wf(),
            op < 0x40,
            op % 8 != 0 && op % 8 != 7,
            !(op % 16 == 1 || op % 16 == 3 || op % 16 == 9 || op % 16 == 0xB),
        ensures
            final(memory_manager).wf(),
            r == op_cycles(op, branch_taken(op, old(self).f()), 0),
            final(self).reg_pc == Cpu::next_pc(op, *old(self), *old(memory_manager)),
            Cpu::is_low_register_op(op) ==> *final(self) == Cpu::low_register_effect(
                op,
                *old(self),
                *old(memory_manager),
            ) && *final(memory_manager) == *old(memory_manager),
            Cpu::is_low_memory_op(op) ==> *final(self) == Cpu::low_memory_effect(
                op,
                *old(self),
                *old(memory_manager),
            ) && Cpu::low_memory_bus(op, *old(self), *old(memory_manager), *final(memory_manager)),
    {
        let col = op % 16;
        let row = op / 16;
        if col == 2 || col == 0xA {
            let address = if row < 2 {
                self.get_pair_at(row)
            } else {
                self.reg_hl.get_pair()
            };
            if col == 2 {
                memory_manager.write_memory(address, self.reg_af.hi);
            } else {
                self.reg_af.hi = memory_manager.read_memory(address);
            }
            if row == 2 {
                self.reg_hl.set_pair(address.wrapping_add(1));
            } else if row == 3 {
                self.reg_hl.set_pair(address.wrapping_sub(1));
            }
            8
        } else if col == 4 || col == 5 || col == 0xC || col == 0xD {
            let i = op / 8;
            let mut v = self.read_operand(memory_manager, i);
            if col == 4 || col == 0xC {
                self.inc_u8(&mut v);
            } else {
                self.dec_u8(&mut v);
            }
            self.write_operand(memory_manager, i, v);
            if i == 6 {
                12
            } else {
                4
            }
        } else {
            let i = op / 8;
            let v = self.get_byte(memory_manager);
            self.write_operand(memory_manager, i, v);
            if i == 6 {
                12
            } else {
                8
            }
        }
    }

    /// Executes the 16-bit loads and arithmetic, the loads through BC, DE
    /// and HL, and INC, DEC and LD r,d8 of 0x00..=0x3F; PC points past
    /// the opcode.
    fn execute_low_grid(&mut self, memory_manager: &mut MemoryManager, op: u8) -> (r: i32)
        requires
            old(memory_manager).wf(),
            op < 0x40,
            op % 8 != 0 && op % 8 != 7,
        ensures
            final(memory_manager).wf(),
            r == op_cycles(op, branch_taken(op, old(self).f()), 0),
            final(self).reg_pc == Cpu::next_pc(op, *old(self), *old(memory_manager)),
            Cpu::is_low_register_op(op) ==> *final(self) == Cpu::low_register_effect(
                op,
                *old(self),
                *old(memory_manager),
            ) && *final(memory_manager) == *old(memory_manager),
            Cpu::is_low_memory_op(op) ==> *final(self) == Cpu::low_memory_effect(
                op,
                *old(self),
                *old(memory_manager),
            ) && Cpu::low_memory_bus(op, *old(self), *old(memory_manager), *final(memory_manager)),
    {
        if op % 16 == 1 || op % 16 == 3 || op % 16 == 9 || op % 16 == 0xB {
            self.execute_low_pairs(memory_manager, op)
        } else {
            self.execute_low_bytes(memory_manager, op)
        }
    }

    /// Executes an opcode of 0x00..=0x3F; PC points past the opcode.
    fn execute_low(&mut self, memory_manager: &mut MemoryManager, op: u8) -> (r: i32)
        requires
            old(memory_manager).wf(),
            op < 0x40,
        ensures
            final(memory_manager).wf(),
            r == op_cycles(op, branch_taken(op, old(self).f()), 0),
            final(self).reg_pc == Cpu::next_pc(op, *old(self), *old(memory_manager)),
            Cpu::is_low_register_op(op) ==> *final(self) == Cpu::low_register_effect(
                op,
                *old(self),
                *old(memory_manager),
            ) && *final(memory_manager) == *old(memory_manager),
            Cpu::is_low_memory_op(op) ==> *final(self) == Cpu::low_memory_effect(
                op,
                *old(self),
                *old(memory_manager),
            ) && Cpu::low_memory_bus(op, *old(self), *old(memory_manager), *final(memory_manager)),
            is_jr(op) || op == 0x10 ==> *final(self) == old(self).with_pc(
                Cpu::next_pc(op, *old(self), *old(memory_manager)),
            ) && *final(memory_manager) == *old(memory_manager),
    {
        if op % 8 == 0 || op % 8 == 7 {
            self.execute_low_special(memory_manager, op)
        } else {
            self.execute_low_grid(memory_manager, op)
        }
    }

    /// Executes a jump, call, return or restart of 0xC0..=0xFF; PC points
    /// past the opcode.
    #[verifier::spinoff_prover]
    #[verifier::rlimit(80)]
    fn execute_branch(&mut self, memory_manager: &mut MemoryManager, op: u8) -> (r: i32)
        requires
            old(memory_manager).wf(),
            op >= 0xC0,
            is_jp(op) || is_call(op) || is_ret(op) || is_rst(op) || op == 0xE9,
        ensures
            final(memory_manager).wf(),
            r == op_cycles(op, branch_taken(op, old(self).f()), 0),
            final(self).reg_pc == Cpu::next_pc(op, *old(self), *old(memory_manager)),
            *final(self) == Cpu::branch_effect(op, *old(self), *old(memory_manager)),
            Cpu::branch_bus(op, *old(self), *old(memory_manager), *final(memory_manager)),
    {
        if op % 8 == 7 {
            self.call_routine(memory_manager, (op - 0xC7) as u16);
            16
        } else if op == 0xC0 || op == 0xC8 || op == 0xD0 || op == 0xD8 {
            if self.condition(op) {
                self.reg_pc = self.stack_pop(memory_manager);
                20
            } else {
                8
            }
        } else if op == 0xC9 || op == 0xD9 {
            self.reg_pc = self.stack_pop(memory_manager);
            if op == 0xD9 {
                self.interrupts_enabled = true;
            }
            16
        } else if op == 0xC2 || op == 0xCA || op == 0xD2 || op == 0xDA || op == 0xC3 {
            let taken = op == 0xC3 || self.condition(op);
            let target = self.get_word(memory_manager);
            if taken {
                self.reg_pc = target;
                16
            } else {
                12
            }
        } else if op == 0xE9 {
            self.reg_pc = self.reg_hl.get_pair();
            4
        } else {
            let taken = op == 0xCD || self.condition(op);
            let target = self.get_word(memory_manager);
            if taken {
                self.call_routine(memory_manager, target);
                24
            } else {
                12
            }
        }
    }

    /// Executes a load, stack or interrupt-switch opcode of 0xC0..=0xFF;
    /// PC points past the opcode.
    #[verifier::spinoff_prover]
    #[verifier::rlimit(80)]
    fn execute_transfer(&mut self, memory_manager: &mut MemoryManager, op: u8) -> (r: i32)
        requires
            old(memory_manager).wf(),
            op >= 0xC0,
            op % 8 != 6 && op != 0xCB,
            !is_illegal(op),
            !(is_jp(op) || is_call(op) || is_ret(op) || is_rst(op) || op == 0xE9),
        ensures
            final(memory_manager).wf(),
            r == op_cycles(op, branch_taken(op, old(self).f()), 0),
            final(self).reg_pc == Cpu::next_pc(op, *old(self), *old(memory_manager)),
            *final(self) == Cpu::high_transfer_effect(op, *old(self), *old(memory_manager)),
            Cpu::high_transfer_bus(op, *old(self), *old(memory_manager), *final(memory_manager)),
    {
        let col = op % 16;
        let row = (op - 0xC0) / 16;
        if col == 1 {
            let v = self.stack_pop(memory_manager);
            if row == 3 {
                self.set_reg_af(v);
            } else {
                self.set_pair_at(row, v);
            }
            12
        } else if col == 5 {
            let v = if row == 3 {
                self.reg_af.get_pair()
            } else {
                self.get_pair_at(row)
            };
            self.stack_push(memory_manager, v);
            16
        } else if op == 0xE0 || op == 0xF0 {
            let offset = self.get_byte(memory_manager);
            let address = 0xFF00 + offset as u16;
            if op == 0xE0 {
                memory_manager.write_memory(address, self.reg_af.hi);
            } else {
                self.reg_af.hi = memory_manager.read_memory(address);
            }
            12
        } else if op == 0xE2 || op == 0xF2 {
            let address = 0xFF00 + self.reg_bc.lo as u16;
            if op == 0xE2 {
                memory_manager.write_memory(address, self.reg_af.hi);
            } else {
                self.reg_af.hi = memory_manager.read_memory(address);
            }
            8
        } else if op == 0xE8 || op == 0xF8 {
            let e = self.get_byte(memory_manager);
            let sp = self.reg_sp.get_pair();
            let res = jr_target(sp, e);
            self.reg_af.lo = make_flags(
                false,
                false,
                sp % 16 + e as u16 % 16 > 15,
                sp % 256 + e as u16 > 255,
            );
            if op == 0xE8 {
                self.reg_sp.set_pair(res);
                16
            } else {
                self.reg_hl.set_pair(res);
                12
            }
        } else if op == 0xEA || op == 0xFA {
            let address = self.get_word(memory_manager);
            if op == 0xEA {
                memory_manager.write_memory(address, self.reg_af.hi);
            } else {
                self.reg_af.hi = memory_manager.read_memory(address);
            }
            16
        } else if op == 0xF3 || op == 0xFB {
            self.interrupts_enabled = op == 0xFB;
            4
        } else {
            self.reg_sp.set_pair(self.reg_hl.get_pair());
            8
        }
    }

    /// Executes an opcode of 0xC0..=0xFF other than the 0xCB prefix; PC
    /// points past the opcode.
    fn execute_high(&mut self, memory_manager: &mut MemoryManager, op: u8) -> (r: Result<
        i32,
        CpuError,
    >)
        requires
            old(memory_manager).wf(),
            op >= 0xC0,
            op != 0xCB,
        ensures
            final(memory_manager).wf(),
            r == if is_illegal(op) {
                Err::<i32, CpuError>(CpuError::IllegalOpcode(op))
            } else {
                Ok::<i32, CpuError>(op_cycles(op, branch_taken(op, old(self).f()), 0))
            },
            r.is_ok() ==> final(self).reg_pc == Cpu::next_pc(op, *old(self), *old(memory_manager)),
            is_illegal(op) ==> *final(self) == *old(self) && *final(memory_manager) == *old(
                memory_manager,
            ),
            !is_illegal(op) && op % 8 != 6 && is_branch(op) ==> *final(self) == Cpu::branch_effect(
                op,
                *old(self),
                *old(memory_manager),
            ) && Cpu::branch_bus(op, *old(self), *old(memory_manager), *final(memory_manager)),
            !is_illegal(op) && op % 8 != 6 && !is_branch(op) ==> *final(self)
                == Cpu::high_transfer_effect(op, *old(self), *old(memory_manager))
                && Cpu::high_transfer_bus(op, *old(self), *old(memory_manager), *final(memory_manager)),
            op % 8 == 6 ==> *final(self) == old(self).with_pc(wrap16(old(self).reg_pc + 1)).with_af(
                alu_value(
                    (op - 0xC0) as u8 / 8,
                    old(self).a(),
                    old(memory_manager).read_spec(old(self).reg_pc),
                    old(self).f(),
                ),
                alu_flags(
                    (op - 0xC0) as u8 / 8,
                    old(self).a(),
                    old(memory_manager).read_spec(old(self).reg_pc),
                    old(self).f(),
                ),
            ) && *final(memory_manager) == *old(memory_manager),
    {
        if op == 0xD3 || op == 0xDB || op == 0xDD || op == 0xE3 || op == 0xE4 || op == 0xEB || op
            == 0xEC || op == 0xED || op == 0xF4 || op == 0xFC || op == 0xFD {
            Err(CpuError::IllegalOpcode(op))
        } else if op % 8 == 6 {
            let v = self.get_byte(memory_manager);
            self.alu_a((op - 0xC0) / 8, v);
            Ok(8)
        } else if op % 8 == 7 || op == 0xC0 || op == 0xC8 || op == 0xD0 || op == 0xD8 || op == 0xC9
            || op == 0xD9 || op == 0xC2 || op == 0xCA || op == 0xD2 || op == 0xDA || op == 0xC3
            || op == 0xC4 || op == 0xCC || op == 0xD4 || op == 0xDC || op == 0xCD || op == 0xE9 {
            Ok(self.execute_branch(memory_manager, op))
        } else {
            Ok(self.execute_transfer(memory_manager, op))
        }
    }

    /// What executing opcode `op` does, from the state `after` with PC past
    /// the opcode and the bus `bus`, to the state `post` and bus
    /// `post_bus`, returning `r`: the cycles or the undefined-opcode error,
    /// the next PC, and the effect on registers and memory of each group
    /// of opcodes.
    pub open spec fn executes(
        op: u8,
        after: Cpu,
        bus: MemoryManager,
        post: Cpu,
        post_bus: MemoryManager,
        r: Result<i32, CpuError>,
    ) -> bool {
        let imm8 = bus.read_spec(after.reg_pc);
        &&& r == if is_illegal(op) {
            Err::<i32, CpuError>(CpuError::IllegalOpcode(op))
        } else {
            Ok::<i32, CpuError>(op_cycles(op, branch_taken(op, after.f()), imm8))
        }
        &&& r.is_ok() ==> post.reg_pc == Cpu::next_pc(
            op,
            after,
            bus,
        )
        &&& is_illegal(op) ==> post == after && post_bus == bus
        &&& op == 0x76 ==> post == (Cpu { halted: true, ..after }) && post_bus == bus
        &&& Cpu::is_low_register_op(op) ==> post == Cpu::low_register_effect(
            op,
            after,
            bus,
        ) && post_bus == bus
        &&& is_jr(op) || op == 0x10 ==> post == after.with_pc(
            Cpu::next_pc(op, after, bus),
        ) && post_bus == bus
        &&& Cpu::is_low_memory_op(op) ==> post == Cpu::low_memory_effect(
            op,
            after,
            bus,
        ) && Cpu::low_memory_bus(op, after, bus, post_bus)
        &&& op == 0xCB && imm8 % 8 == 6 ==> {
            let v = bus.read_spec(after.reg_hl.value());
            &&& post == after.with_pc(wrap16(after.reg_pc + 1)).with_f(
                cb_flags(imm8, v, after.f()),
            )
            &&& 0x40 <= imm8 < 0x80 ==> post_bus == bus
            &&& !(0x40 <= imm8 < 0x80) ==> MemoryManager::write_effect(
                bus,
                post_bus,
                after.reg_hl.value(),
                cb_value(imm8, v, after.f()),
            )
        }
        &&& op >= 0xC0 && op != 0xCB && !is_illegal(op) && op % 8 != 6 && is_branch(op)
            ==> post == Cpu::branch_effect(op, after, bus)
            && Cpu::branch_bus(op, after, bus, post_bus)
        &&& op >= 0xC0 && op != 0xCB && !is_illegal(op) && op % 8 != 6 && !is_branch(op)
            ==> post == Cpu::high_transfer_effect(op, after, bus)
            && Cpu::high_transfer_bus(
            op,
            after,
            bus,
            post_bus,
        )
        &&& 0x70 <= op < 0x78 && op != 0x76 ==> post == after
            && MemoryManager::write_effect(
            bus,
            post_bus,
            after.reg_hl.value(),
            after.reg8(op % 8),
        )
        &&& 0x40 <= op < 0x80 && op != 0x76 && (op / 8) % 8 != 6 ==> post
            == after.with_reg8((op / 8) % 8, after.operand(&bus, op % 8)) && post_bus == bus
        &&& 0x80 <= op < 0xC0 ==> post == after.with_af(
            alu_value((op - 0x80) as u8 / 8, after.a(), after.operand(&bus, op % 8), after.f()),
            alu_flags((op - 0x80) as u8 / 8, after.a(), after.operand(&bus, op % 8), after.f()),
        ) && post_bus == bus
        &&& op >= 0xC0 && op % 8 == 6 ==> post == after.with_pc(
            wrap16(after.reg_pc + 1),
        ).with_af(
            alu_value((op - 0xC0) as u8 / 8, after.a(), imm8, after.f()),
            alu_flags((op - 0xC0) as u8 / 8, after.a(), imm8, after.f()),
        ) && post_bus == bus
        &&& op == 0xCB && imm8 % 8 != 6 ==> post == after.with_pc(
            wrap16(after.reg_pc + 1),
        ).with_reg8(imm8 % 8, cb_value(imm8, after.reg8(imm8 % 8), after.f())).with_f(
            cb_flags(imm8, after.reg8(imm8 % 8), after.f()),
        ) && post_bus == bus
    }

    /// Executes opcode `op`; PC points past it.
    #[verifier::spinoff_prover]
    #[verifier::rlimit(100)]
    fn execute(&mut self, memory_manager: &mut MemoryManager, op: u8) -> (r: Result<i32, CpuError>)
        requires
            old(memory_manager).wf(),
            op == old(memory_manager).read_spec(wrap16(old(self).reg_pc - 1)),
        ensures
            final(memory_manager).wf(),
            r matches Ok(c) ==> 4 <= c <= 24,
            old(self).f() % 16 == 0 ==> final(self).f() % 16 == 0,
            Cpu::executes(op, *old(self), *old(memory_manager), *final(self), *final(memory_manager), r),
    {
        let opcode = op;
        proof {
            let after = *old(self);
            let bus = *old(memory_manager);
            if after.f() % 16 == 0 {
                effects_keep_flags_clean(opcode, after, bus);
                effects_keep_flags_clean(((opcode as int - 0x80) / 8) as u8, after, bus);
                effects_keep_flags_clean(((opcode as int - 0xC0) / 8) as u8, after, bus);
                effects_keep_flags_clean(bus.read_spec(after.reg_pc), after, bus);
            }
        }
        if opcode == 0x76 {
            self.halted = true;
            Ok(4)
        } else if 0x40 <= opcode && opcode < 0x80 {
            let v = self.read_operand(memory_manager, opcode % 8);
            self.write_operand(memory_manager, (opcode / 8) % 8, v);
            if opcode % 8 == 6 || (opcode / 8) % 8 == 6 {
                Ok(8)
            } else {
                Ok(4)
            }
        } else if 0x80 <= opcode && opcode < 0xC0 {
            let v = self.read_operand(memory_manager, opcode % 8);
            self.alu_a((opcode - 0x80) / 8, v);
            if opcode % 8 == 6 {
                Ok(8)
            } else {
                Ok(4)
            }
        } else if opcode == 0xCB {
            Ok(self.extended_instruction(memory_manager))
        } else if opcode < 0x40 {
            Ok(self.execute_low(memory_manager, opcode))
        } else {
            self.execute_high(memory_manager, opcode)
        }
    }

    /// What one call of the interpreter does from state `pre` and bus
    /// `bus`: a halted CPU with no enabled interrupt pending idles for 4
    /// cycles; otherwise the halt is left and the opcode at PC executes.
    pub open spec fn interprets(
        pre: Cpu,
        bus: MemoryManager,
        post: Cpu,
        post_bus: MemoryManager,
        r: Result<i32, CpuError>,
    ) -> bool {
        let idle = pre.halted && !interrupt_pending(bus);
        let running = Cpu { halted: false, ..pre };
        let op = bus.read_spec(running.reg_pc);
        let after = running.with_pc(wrap16(running.reg_pc + 1));
        &&& idle ==> r == Ok::<i32, CpuError>(4) && post == pre && post_bus == bus
        &&& !idle ==> Cpu::executes(op, after, bus, post, post_bus, r)
    }

    /// Executes the instruction at PC and returns the cycles it took.
    /// A halted CPU with no enabled interrupt pending idles for 4 cycles;
    /// with one pending it leaves the halt and executes. An undefined
    /// encoding stops with an error.
    pub fn interpret_opcode(&mut self, memory_manager: &mut MemoryManager) -> (r: Result<
        i32,
        CpuError,
    >)
        requires
            old(memory_manager).wf(),
        ensures
            final(memory_manager).wf(),
            r matches Ok(c) ==> 4 <= c <= 24,
            old(self).f() % 16 == 0 ==> final(self).f() % 16 == 0,
            Cpu::interprets(*old(self), *old(memory_manager), *final(self), *final(memory_manager), r),
    {
        if self.halted {
            if !pending_interrupts(memory_manager) {
                return Ok(4);
            }
            self.halted = false;
        }
        let opcode = self.get_byte(memory_manager);
        self.execute(memory_manager, opcode)
    }
}

/// The flags of the accumulator operations follow the rules: ADD and ADC
/// set H on a carry out of bit 3 and C on a carry out of bit 7, with ADC
/// adding the carry flag; SUB, SBC and CP set N, H on a borrow from bit 4
/// and C on a borrow, with SBC subtracting the carry flag; AND sets H and
/// clears N and C; OR and XOR clear N, H and C. Z is set when the result
/// is zero, and the low nibble of F stays zero.
pub proof fn alu_flags_follow_rules(op: u8, a: u8, n: u8, f: u8)
    requires
        op < 8,
    ensures
        ({
            let r = alu_flags(op, a, n, f);
            let c: int = if (op == 1 || op == 3) && flag_c(f) { 1 } else { 0 };
            &&& r % 16 == 0
            &&& (op == 0 || op == 1) ==> {
                &&& flag_z(r) == ((a + n + c) % 256 == 0)
                &&& !flag_n(r)
                &&& flag_h(r) == ((a % 16) + (n % 16) + c > 15)
                &&& flag_c(r) == (a + n + c > 255)
                &&& alu_value(op, a, n, f) == (a + n + c) % 256
            }
            &&& (op == 2 || op == 3 || op == 7) ==> {
                &&& flag_z(r) == ((a - n - c) % 256 == 0)
                &&& flag_n(r)
                &&& flag_h(r) == ((a % 16) < (n % 16) + c)
                &&& flag_c(r) == (a < n + c)
                &&& op != 7 ==> alu_value(op, a, n, f) == (a - n - c) % 256
                &&& op == 7 ==> alu_value(op, a, n, f) == a
            }
            &&& op == 4 ==> flag_z(r) == (a & n == 0) && !flag_n(r) && flag_h(r) && !flag_c(r)
            &&& op == 5 ==> flag_z(r) == (a ^ n == 0) && !flag_n(r) && !flag_h(r) && !flag_c(r)
            &&& op == 6 ==> flag_z(r) == (a | n == 0) && !flag_n(r) && !flag_h(r) && !flag_c(r)
        }),
{
    let c: int = if (op == 1 || op == 3) && flag_c(f) { 1 } else { 0 };
    if op == 0 || op == 1 {
        lemma_flags_byte((a + n + c) % 256 == 0, false, (a % 16) + (n % 16) + c > 15, a + n + c > 255);
    } else if op == 2 || op == 3 || op == 7 {
        assert((a - n - c + 512) % 256 == (a - n - c) % 256);
        lemma_flags_byte((a - n - c + 512) % 256 == 0, true, (a % 16) < (n % 16) + c, a < n + c);
    } else if op == 4 {
        lemma_flags_byte(a & n == 0, false, true, false);
    } else if op == 5 {
        lemma_flags_byte(a ^ n == 0, false, false, false);
    } else {
        lemma_flags_byte(a | n == 0, false, false, false);
    }
}

/// An instruction that is not a jump, call, return or restart moves PC
/// past itself: by its length of 1, 2 or 3 bytes.
pub proof fn pc_advances_by_length(op: u8, cpu: Cpu, bus: MemoryManager)
    requires
        !is_branch(op),
    ensures
        1 <= instruction_length(op) <= 3,
        Cpu::next_pc(op, cpu.with_pc(wrap16(cpu.reg_pc + 1)), bus) == wrap16(
            cpu.reg_pc + instruction_length(op),
        ),
{
}

/// The target of a taken branch, for the instruction at `pc`: PC-relative
/// for JR, the immediate word for JP and CALL, the stacked word for RET.
pub open spec fn branch_target(op: u8, cpu: Cpu, bus: MemoryManager) -> u16 {
    let pc = cpu.reg_pc;
    let imm8 = bus.read_spec(wrap16(pc + 1));
    if is_jr(op) {
        wrap16(pc + 2 + (imm8 as i8))
    } else if is_ret(op) {
        cpu.stack_top(&bus)
    } else {
        word_of(bus.read_spec(wrap16(pc + 2)), imm8)
    }
}

/// A conditional branch either goes to its target and costs the taken
/// cycles (JR 12, JP 16, CALL 24, RET 20), or falls through to the next
/// instruction and costs the untaken ones (JR 8, JP 12, CALL 12, RET 8).
#[verifier::spinoff_prover]
pub proof fn branch_target_or_fallthrough(op: u8, cpu: Cpu, bus: MemoryManager, cb: u8)
    requires
        is_conditional(op),
    ensures
        ({
            let next = Cpu::next_pc(op, cpu.with_pc(wrap16(cpu.reg_pc + 1)), bus);
            let taken = condition_holds(op, cpu.f());
            let cycles = op_cycles(op, taken, cb);
            &&& taken ==> next == branch_target(op, cpu, bus) && cycles == (if is_jr(op) {
                12i32
            } else if is_jp(op) {
                16
            } else if is_call(op) {
                24
            } else {
                20
            })
            &&& !taken ==> next == wrap16(cpu.reg_pc + instruction_length(op)) && cycles == (
            if is_jr(op) {
                8i32
            } else if is_ret(op) {
                8
            } else {
                12
            })
        }),
{
    let p1 = wrap16(cpu.reg_pc + 1);
    assert(wrap16(p1 + 1) == wrap16(cpu.reg_pc + 2));
    assert(wrap16(p1 + 2) == wrap16(cpu.reg_pc + 3));
}

/// A pushed word reads back from the stack when both stack bytes lie in
/// plain RAM: the high byte at SP-1, the low byte at SP-2.
pub proof fn pushed_bytes_read_back(pre: MemoryManager, post: MemoryManager, sp: u16, v: u16)
    requires
        pre.wf(),
        plain_ram(wrap16(sp - 1)),
        plain_ram(wrap16(sp - 2)),
        Cpu::push_effect(pre, post, sp, v),
    ensures
        post.read_spec(wrap16(sp - 1)) == hi_byte(v),
        post.read_spec(wrap16(sp - 2)) == lo_byte(v),
{
    let mid = choose|mid: MemoryManager|
        MemoryManager::write_effect(pre, mid, wrap16(sp - 1), hi_byte(v))
            && #[trigger] MemoryManager::write_effect(mid, post, wrap16(sp - 2), lo_byte(v));
    write_then_read(pre, mid, wrap16(sp - 1), hi_byte(v));
    write_then_read(mid, post, wrap16(sp - 2), lo_byte(v));
    write_leaves_others(mid, post, wrap16(sp - 2), lo_byte(v), wrap16(sp - 1));
}

/// Calls, plain and conditional: a taken CALL jumps to its operand,
/// moves SP down by 2 and leaves the return address (the instruction
/// after it) on the stack, high byte at SP-1 and low byte at SP-2, when
/// both lie in plain RAM; one not taken falls through to the next
/// instruction with SP and the bus unchanged.
#[verifier::spinoff_prover]
#[verifier::rlimit(60)]
pub proof fn call_stack_effect(op: u8, cpu: Cpu, bus: MemoryManager, post_bus: MemoryManager)
    requires
        bus.wf(),
        is_call(op),
        Cpu::branch_bus(op, cpu.with_pc(wrap16(cpu.reg_pc + 1)), bus, post_bus),
        plain_ram(wrap16(cpu.reg_sp.value() - 1)),
        plain_ram(wrap16(cpu.reg_sp.value() - 2)),
    ensures
        ({
            let post = Cpu::branch_effect(op, cpu.with_pc(wrap16(cpu.reg_pc + 1)), bus);
            let sp = cpu.reg_sp.value();
            let ret = wrap16(cpu.reg_pc + 3);
            if branch_taken(op, cpu.f()) {
                &&& post.reg_pc == branch_target(op, cpu, bus)
                &&& post.reg_sp.value() == wrap16(sp - 2)
                &&& post_bus.read_spec(wrap16(sp - 1)) == hi_byte(ret)
                &&& post_bus.read_spec(wrap16(sp - 2)) == lo_byte(ret)
            } else {
                &&& post.reg_pc == ret
                &&& post.reg_sp.value() == sp
                &&& post_bus == bus
            }
        }),
{
    let after = cpu.with_pc(wrap16(cpu.reg_pc + 1));
    let p1 = after.reg_pc;
    assert(wrap16(p1 + 1) == wrap16(cpu.reg_pc + 2));
    assert(wrap16(p1 + 2) == wrap16(cpu.reg_pc + 3));
    if branch_taken(op, cpu.f()) {
        pushed_bytes_read_back(bus, post_bus, cpu.reg_sp.value(), wrap16(p1 + 2));
    }
}

/// Returns, plain and conditional: a taken RET jumps to the word on the
/// stack and moves SP up by 2; one not taken falls through to the next
/// instruction with SP unchanged. Neither changes the bus.
#[verifier::spinoff_prover]
#[verifier::rlimit(60)]
pub proof fn ret_stack_effect(op: u8, cpu: Cpu, bus: MemoryManager, post_bus: MemoryManager)
    requires
        is_ret(op),
        Cpu::branch_bus(op, cpu.with_pc(wrap16(cpu.reg_pc + 1)), bus, post_bus),
    ensures
        ({
            let post = Cpu::branch_effect(op, cpu.with_pc(wrap16(cpu.reg_pc + 1)), bus);
            let sp = cpu.reg_sp.value();
            &&& post_bus == bus
            &&& if branch_taken(op, cpu.f()) {
                &&& post.reg_pc == cpu.stack_top(&bus)
                &&& post.reg_sp.value() == wrap16(sp + 2)
            } else {
                &&& post.reg_pc == wrap16(cpu.reg_pc + 1)
                &&& post.reg_sp.value() == sp
            }
        }),
{
}

/// Pushing a word and popping it back gives the word and restores SP,
/// when the two stack bytes lie in plain RAM.
pub proof fn push_pop_round_trip(cpu: Cpu, pre: MemoryManager, post: MemoryManager, v: u16)
    requires
        pre.wf(),
        plain_ram(wrap16(cpu.reg_sp.value() - 1)),
        plain_ram(wrap16(cpu.reg_sp.value() - 2)),
        Cpu::push_effect(pre, post, cpu.reg_sp.value(), v),
    ensures
        ({
            let pushed = cpu.with_pair(3, wrap16(cpu.reg_sp.value() - 2));
            &&& pushed.stack_top(&post) == v
            &&& wrap16(pushed.reg_sp.value() + 2) == cpu.reg_sp.value()
        }),
{
    let sp = cpu.reg_sp.value();
    pushed_bytes_read_back(pre, post, sp, v);
    let pushed = cpu.with_pair(3, wrap16(sp - 2));
    assert(pushed.reg_sp.value() == wrap16(sp - 2));
    assert(wrap16(wrap16(sp - 2) + 1) == wrap16(sp - 1));
}

/// Every instruction keeps the low nibble of F at zero.
pub proof fn effects_keep_flags_clean(op: u8, cpu: Cpu, bus: MemoryManager)
    requires
        cpu.f() % 16 == 0,
    ensures
        Cpu::low_register_effect(op, cpu, bus).f() % 16 == 0,
        Cpu::low_memory_effect(op, cpu, bus).f() % 16 == 0,
        Cpu::high_transfer_effect(op, cpu, bus).f() % 16 == 0,
        Cpu::branch_effect(op, cpu, bus).f() % 16 == 0,
        op < 8 ==> alu_flags(op, cpu.a(), bus.read_spec(cpu.reg_pc), cpu.f()) % 16 == 0,
        cb_flags(op, bus.read_spec(cpu.reg_pc), cpu.f()) % 16 == 0,
        forall|v: u8| #[trigger] cb_flags(op, v, cpu.f()) % 16 == 0,
        forall|a: u8, v: u8| op < 8 ==> #[trigger] alu_flags(op, a, v, cpu.f()) % 16 == 0,
{
    broadcast use lemma_flags_byte_clean;

    let top = cpu.stack_top(&bus);
    assert((lo_byte(top) / 16 * 16) as u8 % 16 == 0);
}

} // verus!
