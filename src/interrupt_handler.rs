use vstd::prelude::*;
use crate::cpu::{interrupt_pending, wrap16, Cpu};
use crate::instructions::bit_of;
use crate::memory_manager::{MemoryManager, INTERRUPT_ENABLE, INTERRUPT_REQUEST};

verus! {

/// The lowest of bits 0..=4 set in `x`, or 5 when none is.
pub open spec fn lowest_set_bit(x: u8) -> u8 {
    if bit_of(x, 0) {
        0
    } else if bit_of(x, 1) {
        1
    } else if bit_of(x, 2) {
        2
    } else if bit_of(x, 3) {
        3
    } else if bit_of(x, 4) {
        4
    } else {
        5
    }
}

/// The service routine address of interrupt `bit`.
pub open spec fn interrupt_vector(bit: u8) -> u16 {
    (0x40 + 8 * bit) as u16
}

/// The interrupt controller: services requested interrupts (IF, 0xFF0F)
/// that are enabled (IE, 0xFFFF) when the master enable is set. Bits 0..=4
/// are V-blank, LCD status, timer, serial and joypad.
pub struct InterruptHandler {}

impl InterruptHandler {
    /// Creates the controller.
    pub fn new() -> (r: InterruptHandler) {
        InterruptHandler {  }
    }

    /// The CPU state after servicing interrupt `bit`: master enable
    /// cleared, halt left, PC pushed and the vector loaded.
    pub open spec fn serviced(cpu: Cpu, bit: u8) -> Cpu {
        Cpu {
            interrupts_enabled: false,
            halted: false,
            ..cpu.with_pair(3, wrap16(cpu.reg_sp.value() - 2)).with_pc(interrupt_vector(bit))
        }
    }

    /// The bus after servicing interrupt `bit`: its request bit cleared,
    /// then PC pushed.
    pub open spec fn service_effect(
        pre: MemoryManager,
        post: MemoryManager,
        cpu: Cpu,
        bit: u8,
    ) -> bool {
        exists|mid: MemoryManager|
            MemoryManager::write_effect(
                pre,
                mid,
                INTERRUPT_REQUEST,
                pre.mem(INTERRUPT_REQUEST as int) & !(1u8 << bit),
            ) && #[trigger] Cpu::push_effect(mid, post, cpu.reg_sp.value(), cpu.reg_pc)
    }

    /// Services interrupt `bit` when the master enable is set; leaves the
    /// halt in any case.
    pub fn handle_interrupt(&mut self, bit: u8, cpu: &mut Cpu, memory_manager: &mut MemoryManager)
        requires
            old(memory_manager).wf(),
            bit < 5,
        ensures
            final(memory_manager).wf(),
            old(cpu).interrupts_enabled ==> *final(cpu) == InterruptHandler::serviced(*old(cpu), bit)
                && InterruptHandler::service_effect(
                *old(memory_manager),
                *final(memory_manager),
                *old(cpu),
                bit,
            ),
            !old(cpu).interrupts_enabled ==> *final(cpu) == (Cpu { halted: false, ..*old(cpu) })
                && *final(memory_manager) == *old(memory_manager),
    {
        if cpu.get_interrupts_enabled() {
            cpu.set_interrupts_enabled(false);
            let request = memory_manager.memory[INTERRUPT_REQUEST as usize];
            memory_manager.write_memory(INTERRUPT_REQUEST, request & !(1u8 << bit));
            let ghost mid = *memory_manager;
            let pc = cpu.get_reg_pc();
            cpu.stack_push(memory_manager, pc);
            assert(Cpu::push_effect(mid, *memory_manager, old(cpu).reg_sp.value(), old(cpu).reg_pc));
            cpu.set_reg_pc(0x40 + 8 * bit as u16);
        }
        cpu.set_halted(false);
    }

    /// What one interrupt check does: with the master enable set, the
    /// lowest-numbered interrupt that is requested and enabled is
    /// serviced; with it clear, a halted CPU leaves the halt when such an
    /// interrupt is pending.
    pub open spec fn check_effect(
        cpu: Cpu,
        bus: MemoryManager,
        post_cpu: Cpu,
        post_bus: MemoryManager,
    ) -> bool {
        let pending = bus.mem(INTERRUPT_REQUEST as int) & bus.mem(INTERRUPT_ENABLE as int);
        let bit = lowest_set_bit(pending);
        &&& post_bus.wf()
        &&& if !cpu.interrupts_enabled {
            &&& post_cpu == (Cpu { halted: cpu.halted && !interrupt_pending(bus), ..cpu })
            &&& post_bus == bus
        } else if bit == 5 {
            &&& post_cpu == cpu
            &&& post_bus == bus
        } else {
            &&& post_cpu == InterruptHandler::serviced(cpu, bit)
            &&& InterruptHandler::service_effect(bus, post_bus, cpu, bit)
        }
    }

    /// Services the lowest-numbered interrupt that is requested and
    /// enabled, if the master enable is set. With the master enable clear,
    /// a halted CPU still leaves the halt when such an interrupt is pending.
    pub fn check_interrupts(&mut self, cpu: &mut Cpu, memory_manager: &mut MemoryManager)
        requires
            old(memory_manager).wf(),
        ensures
            final(memory_manager).wf(),
            InterruptHandler::check_effect(
                *old(cpu),
                *old(memory_manager),
                *final(cpu),
                *final(memory_manager),
            ),
    {
        let request = memory_manager.memory[INTERRUPT_REQUEST as usize];
        let enabled = memory_manager.memory[INTERRUPT_ENABLE as usize];
        if !cpu.get_interrupts_enabled() {
            if cpu.halted && crate::cpu::pending_interrupts(memory_manager) {
                cpu.set_halted(false);
            }
            return;
        }
        let pending = request & enabled;
        let mut i: u8 = 0;
        while i < 5
            invariant
                i <= 5,
                pending == request & enabled,
                *cpu == *old(cpu),
                *memory_manager == *old(memory_manager),
                request == old(memory_manager).mem(INTERRUPT_REQUEST as int),
                enabled == old(memory_manager).mem(INTERRUPT_ENABLE as int),
                old(memory_manager).wf(),
                old(cpu).interrupts_enabled,
                forall|j: u8| j < i ==> !bit_of(pending, j),
            decreases 5 - i,
        {
            if crate::instructions::test_bit(pending, i) {
                assert(lowest_set_bit(pending) == i);
                self.handle_interrupt(i, cpu, memory_manager);
                return;
            }
            i = i + 1;
        }
        assert(lowest_set_bit(pending) == 5);
    }

    /// Requests interrupt `bit`: sets it in IF.
    pub fn request_interrupt(&mut self, memory_manager: &mut MemoryManager, bit: u8)
        requires
            old(memory_manager).wf(),
            bit < 5,
        ensures
            final(memory_manager).wf(),
            final(memory_manager).memory@ == old(memory_manager).memory@.update(
                INTERRUPT_REQUEST as int,
                old(memory_manager).mem(INTERRUPT_REQUEST as int) | (1u8 << bit),
            ),
            final(memory_manager).cartridge == old(memory_manager).cartridge,
            final(memory_manager).timer_counter == old(memory_manager).timer_counter,
            final(memory_manager).div_counter == old(memory_manager).div_counter,
            final(memory_manager).gamepad_state == old(memory_manager).gamepad_state,
    {
        memory_manager.request_interrupt(bit);
    }
}

} // verus!
