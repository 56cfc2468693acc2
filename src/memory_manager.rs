use vstd::prelude::*;
use crate::cartridge::{is_power_of_two, BankingType, Cartridge};

verus! {

/// Size of the address space.
pub const MEMORY_SIZE: usize = 0x10000;

/// Joypad matrix register.
pub const JOYPAD: u16 = 0xFF00;

/// Divider register.
pub const DIVIDER: u16 = 0xFF04;

/// Timer counter register (TIMA).
pub const TIMER: u16 = 0xFF05;

/// Timer reload register (TMA).
pub const TIMER_MODULATOR: u16 = 0xFF06;

/// Timer control register (TAC).
pub const TIMER_CONTROLLER: u16 = 0xFF07;

/// Interrupt request register (IF).
pub const INTERRUPT_REQUEST: u16 = 0xFF0F;

/// Current scanline register (LY).
pub const SCANLINE: u16 = 0xFF44;

/// DMA start register.
pub const DMA: u16 = 0xFF46;

/// Interrupt enable register (IE).
pub const INTERRUPT_ENABLE: u16 = 0xFFFF;

/// CPU cycles per TIMA tick for the frequency in TAC bits 0-1.
pub open spec fn tima_period(tac: u8) -> i32 {
    let f = tac % 4;
    if f == 0 {
        1024
    } else if f == 1 {
        16
    } else if f == 2 {
        64
    } else {
        256
    }
}

/// Whether TAC enables the timer (bit 2).
pub open spec fn timer_enabled(tac: u8) -> bool {
    (tac / 4) % 2 == 1
}

/// The value read at 0xFF00: bits 6-7 read as 1, bits 4-5 are the group
/// selection last written, bits 0-3 the inputs of the selected groups
/// (bit 4 clear selects the directions, bit 5 clear the action buttons),
/// 0 meaning pressed.
pub open spec fn joypad_value(select: u8, state: u8) -> u8 {
    let dirs: u8 = if (select / 16) % 2 == 0 { state % 16 } else { 15 };
    let buttons: u8 = if (select / 32) % 2 == 0 { state / 16 } else { 15 };
    (0xC0 + ((select / 16) % 4) * 16 + (dirs & buttons)) as u8
}

/// Number of TIMA ticks when `cycles` cycles are taken from a counter at
/// `counter`, which is refilled by `period` each time it reaches 0 or less.
pub open spec fn tima_ticks(counter: int, cycles: int, period: int) -> int {
    if counter - cycles > 0 {
        0
    } else {
        (cycles - counter) / period + 1
    }
}

/// TIMA after `k` ticks from `tima`: it counts up and reloads from `tma`
/// when it overflows.
pub open spec fn tima_after(tima: u8, tma: u8, k: nat) -> u8
    decreases k,
{
    if k == 0 {
        tima
    } else {
        let t = tima_after(tima, tma, (k - 1) as nat);
        if t == 0xFF {
            tma
        } else {
            (t + 1) as u8
        }
    }
}

/// Whether TIMA overflows within `k` ticks from `tima`.
pub open spec fn tima_overflows(tima: u8, tma: u8, k: nat) -> bool
    decreases k,
{
    if k == 0 {
        false
    } else {
        tima_overflows(tima, tma, (k - 1) as nat) || tima_after(tima, tma, (k - 1) as nat) == 0xFF
    }
}

/// The flat memory at power-on: the I/O registers at their start values,
/// everything else zero.
pub open spec fn power_on_byte(i: int) -> u8 {
    if i == 0xFF10 {
        0x80
    } else if i == 0xFF11 {
        0xBF
    } else if i == 0xFF12 {
        0xF3
    } else if i == 0xFF14 {
        0xBF
    } else if i == 0xFF16 {
        0x3F
    } else if i == 0xFF19 {
        0xBF
    } else if i == 0xFF1A {
        0x7F
    } else if i == 0xFF1B {
        0xFF
    } else if i == 0xFF1C {
        0x9F
    } else if i == 0xFF1E {
        0xBF
    } else if i == 0xFF20 {
        0xFF
    } else if i == 0xFF23 {
        0xBF
    } else if i == 0xFF24 {
        0x77
    } else if i == 0xFF25 {
        0xF3
    } else if i == 0xFF26 {
        0xF1
    } else if i == 0xFF40 {
        0x91
    } else if i == 0xFF47 {
        0xFC
    } else if i == 0xFF48 {
        0xFF
    } else if i == 0xFF49 {
        0xFF
    } else {
        0
    }
}

/// Addresses that read back what was last written there: video RAM,
/// work RAM and its echo, sprite memory, and high RAM with IE.
pub open spec fn plain_ram(address: u16) -> bool {
    (0x8000 <= address < 0xA000) || (0xC000 <= address < 0xFEA0) || 0xFF80 <= address
}

/// The memory bus: the flat 64 KiB image, the cartridge, the timer
/// counters and the joypad shadow (bit set = released; upper nibble
/// Start, Select, B, A; lower nibble Down, Up, Left, Right).
pub struct MemoryManager {
    pub cartridge: Cartridge,
    pub memory: Vec<u8>,
    pub timer_counter: i32,
    pub div_counter: i32,
    pub gamepad_state: u8,
}

impl MemoryManager {
    /// The state invariant.
    pub open spec fn wf(&self) -> bool {
        &&& self.cartridge.wf()
        &&& self.memory@.len() == MEMORY_SIZE
        &&& 0 <= self.div_counter < 256
        &&& 0 < self.timer_counter <= 1024
    }

    /// The flat memory byte at `address`.
    pub open spec fn mem(&self, address: int) -> u8 {
        self.memory@[address]
    }

    /// The byte that a read at `address` returns.
    pub open spec fn read_spec(&self, address: u16) -> u8 {
        if address < 0x8000 || (0xA000 <= address < 0xC000) {
            self.cartridge.read_spec(address)
        } else if address == JOYPAD {
            joypad_value(self.memory@[JOYPAD as int], self.gamepad_state)
        } else {
            self.memory@[address as int]
        }
    }

    /// The flat memory after a DMA transfer from `byte * 0x100`.
    pub open spec fn dma_memory(&self, byte: u8) -> Seq<u8> {
        Seq::new(
            MEMORY_SIZE as nat,
            |i: int|
                if 0xFE00 <= i < 0xFEA0 {
                    self.read_spec((byte as int * 0x100 + (i - 0xFE00)) as u16)
                } else {
                    self.memory@[i]
                },
        )
    }

    /// The flat memory after a write of `byte` at `address`.
    pub open spec fn memory_after_write(&self, address: u16, byte: u8) -> Seq<u8> {
        let m = self.memory@;
        if address < 0x8000 || (0xA000 <= address < 0xC000) || (0xFEA0 <= address <= 0xFEFE) {
            m
        } else if 0xC000 <= address <= 0xDDFF {
            m.update(address as int, byte).update(address + 0x2000, byte)
        } else if 0xE000 <= address <= 0xFDFF {
            m.update(address as int, byte).update(address - 0x2000, byte)
        } else if address == DIVIDER || address == SCANLINE {
            m.update(address as int, 0)
        } else if address == DMA {
            self.dma_memory(byte)
        } else {
            m.update(address as int, byte)
        }
    }

    /// What a write of `byte` at `address` does to the bus.
    pub open spec fn write_effect(pre: MemoryManager, post: MemoryManager, address: u16, byte: u8) -> bool {
        &&& post.wf()
        &&& post.memory@ == pre.memory_after_write(address, byte)
        &&& address < 0x8000 || (0xA000 <= address < 0xC000) ==> Cartridge::write_effect(
            pre.cartridge,
            post.cartridge,
            address,
            byte,
        )
        &&& !(address < 0x8000 || (0xA000 <= address < 0xC000)) ==> post.cartridge
            == pre.cartridge
        &&& post.div_counter == if address == DIVIDER {
            0
        } else {
            pre.div_counter
        }
        &&& post.timer_counter == if address == TIMER_CONTROLLER && byte % 4 != pre.mem(
            TIMER_CONTROLLER as int,
        ) % 4 {
            tima_period(byte)
        } else {
            pre.timer_counter
        }
        &&& post.gamepad_state == pre.gamepad_state
    }

    /// The power-on state around `cartridge`: memory as `power_on_byte`
    /// gives it, TIMA period 1024, divider at 0, all buttons released.
    pub open spec fn power_on(&self, cartridge: Cartridge) -> bool {
        &&& self.wf()
        &&& self.cartridge == cartridge
        &&& self.memory@ == Seq::new(MEMORY_SIZE as nat, |i: int| power_on_byte(i))
        &&& self.timer_counter == 1024
        &&& self.div_counter == 0
        &&& self.gamepad_state == 0xFF
    }

    /// Creates the bus around a loaded cartridge, with the I/O registers
    /// at their power-on values.
    pub fn new(cartridge: Cartridge) -> (r: MemoryManager)
        requires
            cartridge.wf(),
        ensures
            r.power_on(cartridge),
    {
        let mut memory: Vec<u8> = vec![0u8; MEMORY_SIZE];
        memory.set(0xFF05, 0x00);
        memory.set(0xFF06, 0x00);
        memory.set(0xFF07, 0x00);
        memory.set(0xFF10, 0x80);
        memory.set(0xFF11, 0xBF);
        memory.set(0xFF12, 0xF3);
        memory.set(0xFF14, 0xBF);
        memory.set(0xFF16, 0x3F);
        memory.set(0xFF17, 0x00);
        memory.set(0xFF19, 0xBF);
        memory.set(0xFF1A, 0x7F);
        memory.set(0xFF1B, 0xFF);
        memory.set(0xFF1C, 0x9F);
        memory.set(0xFF1E, 0xBF);
        memory.set(0xFF20, 0xFF);
        memory.set(0xFF21, 0x00);
        memory.set(0xFF22, 0x00);
        memory.set(0xFF23, 0xBF);
        memory.set(0xFF24, 0x77);
        memory.set(0xFF25, 0xF3);
        memory.set(0xFF26, 0xF1);
        memory.set(0xFF40, 0x91);
        memory.set(0xFF42, 0x00);
        memory.set(0xFF43, 0x00);
        memory.set(0xFF45, 0x00);
        memory.set(0xFF47, 0xFC);
        memory.set(0xFF48, 0xFF);
        memory.set(0xFF49, 0xFF);
        memory.set(0xFF4A, 0x00);
        memory.set(0xFF4B, 0x00);
        memory.set(0xFFFF, 0x00);
        assert(memory@ =~= Seq::new(MEMORY_SIZE as nat, |i: int| power_on_byte(i)));
        MemoryManager { cartridge, memory, timer_counter: 1024, div_counter: 0, gamepad_state: 0xFF }
    }

    /// Returns the timer frequency index, TAC bits 0-1.
    pub fn get_frequency(&self) -> (r: u8)
        requires
            self.wf(),
        ensures
            r == self.mem(TIMER_CONTROLLER as int) % 4,
    {
        self.memory[TIMER_CONTROLLER as usize] % 4
    }

    /// Resets the TIMA counter to the period of the current frequency.
    pub fn set_frequency(&mut self)
        requires
            old(self).wf(),
        ensures
            final(self).wf(),
            final(self).timer_counter == tima_period(old(self).mem(TIMER_CONTROLLER as int)),
            final(self).memory == old(self).memory,
            final(self).cartridge == old(self).cartridge,
            final(self).div_counter == old(self).div_counter,
            final(self).gamepad_state == old(self).gamepad_state,
    {
        self.timer_counter = self.timer_period();
    }

    /// CPU cycles per TIMA tick at the current frequency.
    fn timer_period(&self) -> (r: i32)
        requires
            self.wf(),
        ensures
            r == tima_period(self.mem(TIMER_CONTROLLER as int)),
            16 <= r <= 1024,
    {
        let frequency = self.get_frequency();
        if frequency == 0 {
            1024
        } else if frequency == 1 {
            16
        } else if frequency == 2 {
            64
        } else {
            256
        }
    }

    /// Copies the 160 bytes at `byte * 0x100` into sprite memory at 0xFE00.
    pub fn dma_transfer(&mut self, byte: u8)
        requires
            old(self).wf(),
        ensures
            final(self).wf(),
            final(self).memory@ == old(self).dma_memory(byte),
            final(self).cartridge == old(self).cartridge,
            final(self).timer_counter == old(self).timer_counter,
            final(self).div_counter == old(self).div_counter,
            final(self).gamepad_state == old(self).gamepad_state,
    {
        let start_address: u16 = byte as u16 * 0x100;
        let mut i: u16 = 0;
        while i < 0xA0
            invariant
                self.wf(),
                i <= 0xA0,
                start_address == byte as int * 0x100,
                self.cartridge == old(self).cartridge,
                self.timer_counter == old(self).timer_counter,
                self.div_counter == old(self).div_counter,
                self.gamepad_state == old(self).gamepad_state,
                forall|j: int|
                    0 <= j < MEMORY_SIZE ==> #[trigger] self.memory@[j] == if 0xFE00 <= j < 0xFE00
                        + i {
                        old(self).read_spec((byte as int * 0x100 + (j - 0xFE00)) as u16)
                    } else {
                        old(self).memory@[j]
                    },
            decreases 0xA0 - i,
        {
            let next_byte = self.read_memory(start_address + i);
            assert(next_byte == old(self).read_spec((start_address + i) as u16));
            self.memory.set(0xFE00 + i as usize, next_byte);
            i = i + 1;
        }
        assert(self.memory@ =~= old(self).dma_memory(byte));
    }

    /// Returns the joypad register as the program reads it.
    pub fn update_gamepad_state(&self) -> (r: u8)
        requires
            self.wf(),
        ensures
            r == joypad_value(self.mem(JOYPAD as int), self.gamepad_state),
    {
        let select = self.memory[JOYPAD as usize];
        let state = self.gamepad_state;
        let dirs: u8 = if (select / 16) % 2 == 0 {
            state % 16
        } else {
            15
        };
        let buttons: u8 = if (select / 32) % 2 == 0 {
            state / 16
        } else {
            15
        };
        assert(dirs & buttons <= dirs) by (bit_vector);
        0xC0 + ((select / 16) % 4) * 16 + (dirs & buttons)
    }

    /// Writes `byte` at `address`, with the side effects of the address map.
    pub fn write_memory(&mut self, address: u16, byte: u8)
        requires
            old(self).wf(),
        ensures
            MemoryManager::write_effect(*old(self), *final(self), address, byte),
    {
        if address < 0x8000 || (0xA000 <= address && address < 0xC000) {
            self.cartridge.write(address, byte);
        } else if 0xC000 <= address && address <= 0xDDFF {
            self.memory.set(address as usize, byte);
            self.memory.set(address as usize + 0x2000, byte);
        } else if 0xE000 <= address && address <= 0xFDFF {
            self.memory.set(address as usize, byte);
            self.memory.set(address as usize - 0x2000, byte);
        } else if 0xFEA0 <= address && address <= 0xFEFE {
            // unusable: the write is discarded
        } else if address == DIVIDER {
            self.memory.set(DIVIDER as usize, 0);
            self.div_counter = 0;
        } else if address == TIMER_CONTROLLER {
            let frequency = self.get_frequency();
            self.memory.set(TIMER_CONTROLLER as usize, byte);
            let new_frequency = self.get_frequency();
            if frequency != new_frequency {
                self.set_frequency();
            }
        } else if address == SCANLINE {
            self.memory.set(SCANLINE as usize, 0);
        } else if address == DMA {
            self.dma_transfer(byte);
        } else {
            self.memory.set(address as usize, byte);
        }
    }

    /// Reads the byte at `address`.
    pub fn read_memory(&self, address: u16) -> (r: u8)
        requires
            self.wf(),
        ensures
            r == self.read_spec(address),
    {
        if address < 0x8000 || (0xA000 <= address && address < 0xC000) {
            self.cartridge.read(address)
        } else if address == JOYPAD {
            self.update_gamepad_state()
        } else {
            self.memory[address as usize]
        }
    }

    /// Sets bit `bit` of the interrupt request register.
    pub fn request_interrupt(&mut self, bit: u8)
        requires
            old(self).wf(),
            bit < 5,
        ensures
            final(self).wf(),
            final(self).memory@ == old(self).memory@.update(
                INTERRUPT_REQUEST as int,
                old(self).mem(INTERRUPT_REQUEST as int) | (1u8 << bit),
            ),
            final(self).cartridge == old(self).cartridge,
            final(self).timer_counter == old(self).timer_counter,
            final(self).div_counter == old(self).div_counter,
            final(self).gamepad_state == old(self).gamepad_state,
    {
        let request = self.memory[INTERRUPT_REQUEST as usize];
        self.memory.set(INTERRUPT_REQUEST as usize, request | (1u8 << bit));
    }

    /// Advances the divider: every 256 cycles DIV (0xFF04) counts up, wrapping at 8 bits.
    pub fn update_div_register(&mut self, cycles: i32)
        requires
            old(self).wf(),
            0 <= cycles <= i32::MAX - 256,
        ensures
            final(self).wf(),
            final(self).div_counter == (old(self).div_counter + cycles) % 256,
            final(self).memory@ == old(self).memory@.update(
                DIVIDER as int,
                ((old(self).mem(DIVIDER as int) + (old(self).div_counter + cycles) / 256)
                    % 256) as u8,
            ),
            final(self).cartridge == old(self).cartridge,
            final(self).timer_counter == old(self).timer_counter,
            final(self).gamepad_state == old(self).gamepad_state,
    {
        let ghost total: int = old(self).div_counter + cycles;
        self.div_counter = self.div_counter + cycles;
        let ghost mut ticks: int = 0;
        while self.div_counter >= 256
            invariant
                self.memory@.len() == MEMORY_SIZE,
                old(self).memory@.len() == MEMORY_SIZE,
                self.cartridge == old(self).cartridge,
                self.timer_counter == old(self).timer_counter,
                self.gamepad_state == old(self).gamepad_state,
                0 <= self.div_counter,
                ticks >= 0,
                total == self.div_counter + 256 * ticks,
                self.memory@ == old(self).memory@.update(
                    DIVIDER as int,
                    ((old(self).mem(DIVIDER as int) + ticks) % 256) as u8,
                ),
            decreases self.div_counter,
        {
            self.div_counter = self.div_counter - 256;
            let div = self.memory[DIVIDER as usize];
            self.memory.set(DIVIDER as usize, div.wrapping_add(1));
            proof {
                ticks = ticks + 1;
                assert(self.memory@ =~= old(self).memory@.update(
                    DIVIDER as int,
                    ((old(self).mem(DIVIDER as int) + ticks) % 256) as u8,
                ));
            }
        }
        assert(total / 256 == ticks && total % 256 == self.div_counter) by (nonlinear_arith)
            requires
                total == self.div_counter + 256 * ticks,
                0 <= self.div_counter < 256,
        ;
    }

    /// Whether TAC (0xFF07) enables the timer: bit 2.
    pub fn clock_enabled(&self) -> (r: bool)
        requires
            self.wf(),
        ensures
            r == timer_enabled(self.mem(TIMER_CONTROLLER as int)),
    {
        (self.memory[TIMER_CONTROLLER as usize] / 4) % 2 == 1
    }

    /// What advancing the timers by `cycles` cycles does: DIV counts every
    /// 256 cycles; when TAC enables it TIMA ticks each time its counter
    /// reaches 0 or less, reloading from TMA and requesting the timer
    /// interrupt when it overflows.
    pub open spec fn timers_effect(pre: MemoryManager, post: MemoryManager, cycles: i32) -> bool {
        let tac = pre.mem(TIMER_CONTROLLER as int);
        let tima = pre.mem(TIMER as int);
        let tma = pre.mem(TIMER_MODULATOR as int);
        let requests = pre.mem(INTERRUPT_REQUEST as int);
        let k = tima_ticks(pre.timer_counter as int, cycles as int, tima_period(tac) as int);
        &&& post.wf()
        &&& post.div_counter == (pre.div_counter + cycles) % 256
        &&& post.mem(DIVIDER as int) == (pre.mem(DIVIDER as int) + (pre.div_counter + cycles) / 256)
            % 256
        &&& if timer_enabled(tac) {
            &&& post.timer_counter == pre.timer_counter - cycles + k * tima_period(tac)
            &&& post.mem(TIMER as int) == tima_after(tima, tma, k as nat)
            &&& post.mem(INTERRUPT_REQUEST as int) == if tima_overflows(tima, tma, k as nat) {
                requests | 4
            } else {
                requests
            }
        } else {
            &&& post.timer_counter == pre.timer_counter
            &&& post.mem(TIMER as int) == tima
            &&& post.mem(INTERRUPT_REQUEST as int) == requests
        }
        &&& forall|i: int|
            0 <= i < MEMORY_SIZE && i != DIVIDER && i != TIMER && i != INTERRUPT_REQUEST
                ==> post.mem(i) == pre.mem(i)
        &&& post.memory@.len() == MEMORY_SIZE
        &&& post.cartridge == pre.cartridge
        &&& post.gamepad_state == pre.gamepad_state
    }

    /// Advances DIV and, when TAC enables it, TIMA by `cycles` CPU cycles.
    /// TIMA ticks each time the counter reaches 0 or less, is refilled by
    /// the period of the current frequency, reloads from TMA when it
    /// overflows and then requests the timer interrupt.
    pub fn update_timers(&mut self, cycles: i32)
        requires
            old(self).wf(),
            0 <= cycles <= i32::MAX - 2048,
        ensures
            final(self).wf(),
            MemoryManager::timers_effect(*old(self), *final(self), cycles),
    {
        self.update_div_register(cycles);
        if !self.clock_enabled() {
            return;
        }
        let ghost tac = old(self).mem(TIMER_CONTROLLER as int);
        let ghost tima = old(self).mem(TIMER as int);
        let ghost tma = old(self).mem(TIMER_MODULATOR as int);
        let ghost requests = old(self).mem(INTERRUPT_REQUEST as int);
        let ghost period = tima_period(tac) as int;
        let ghost mid = self.memory@;
        let ghost c0 = old(self).timer_counter as int;
        let period_now = self.timer_period();
        self.timer_counter = self.timer_counter - cycles;
        proof {
            let t = tima_ticks(c0, cycles as int, period);
            if self.timer_counter <= 0 {
                assert(0 < t) by (nonlinear_arith)
                    requires
                        c0 - cycles <= 0,
                        t == (if c0 - cycles > 0 { 0 } else { (cycles - c0) / period + 1 }),
                        period > 0,
                ;
            }
        }
        let ghost mut k: nat = 0;
        while self.timer_counter <= 0
            invariant
                self.memory@.len() == MEMORY_SIZE,
                self.cartridge == old(self).cartridge,
                self.cartridge.wf(),
                self.gamepad_state == old(self).gamepad_state,
                0 <= self.div_counter < 256,
                self.div_counter == (old(self).div_counter + cycles) % 256,
                self.mem(TIMER_CONTROLLER as int) == tac,
                self.mem(TIMER_MODULATOR as int) == tma,
                period == tima_period(tac),
                period == period_now,
                16 <= period_now <= 1024,
                c0 == old(self).timer_counter,
                0 < c0 <= 1024,
                mid.len() == MEMORY_SIZE,
                mid[DIVIDER as int] == (old(self).mem(DIVIDER as int) + (old(self).div_counter
                    + cycles) / 256) % 256,
                forall|i: int|
                    0 <= i < MEMORY_SIZE && i != DIVIDER ==> mid[i] == old(self).mem(i),
                self.timer_counter == old(self).timer_counter - cycles + k * period,
                self.timer_counter <= 1024,
                self.timer_counter <= 0 ==> k < tima_ticks(c0, cycles as int, period),
                k <= tima_ticks(old(self).timer_counter as int, cycles as int, period),
                self.mem(TIMER as int) == tima_after(tima, tma, k),
                self.mem(INTERRUPT_REQUEST as int) == if tima_overflows(tima, tma, k) {
                    requests | 4
                } else {
                    requests
                },
                forall|i: int|
                    0 <= i < MEMORY_SIZE && i != TIMER && i != INTERRUPT_REQUEST
                        ==> self.mem(i) == mid[i],
            decreases tima_ticks(c0, cycles as int, period) - k,
        {
            self.timer_counter = self.timer_counter + period_now;
            let tima_now = self.memory[TIMER as usize];
            if tima_now == 0xFF {
                let modulator = self.memory[TIMER_MODULATOR as usize];
                self.memory.set(TIMER as usize, modulator);
                let request = self.memory[INTERRUPT_REQUEST as usize];
                self.memory.set(INTERRUPT_REQUEST as usize, request | 4);
                assert((requests | 4) | 4 == requests | 4) by (bit_vector);
            } else {
                self.memory.set(TIMER as usize, tima_now + 1);
            }
            proof {
                k = k + 1;
                let t = tima_ticks(c0, cycles as int, period);
                if self.timer_counter <= 0 {
                    assert(k < t) by (nonlinear_arith)
                        requires
                            c0 - cycles + k * period <= 0,
                            t == (if c0 - cycles > 0 { 0 } else { (cycles - c0) / period + 1 }),
                            period > 0,
                    ;
                }
            }
        }
        proof {
            let t = tima_ticks(c0, cycles as int, period);
            assert(k >= t) by (nonlinear_arith)
                requires
                    c0 - cycles + k * period > 0,
                    t == (if c0 - cycles > 0 { 0 } else { (cycles - c0) / period + 1 }),
                    period > 0,
                    k >= 0,
            ;
            assert forall|i: int|
                0 <= i < MEMORY_SIZE && i != DIVIDER && i != TIMER && i != INTERRUPT_REQUEST
                    implies self.mem(i) == old(self).mem(i) by {
                assert(self.mem(i) == mid[i]);
            }
        }
    }
}

/// Writing a byte to plain RAM and reading it back gives that byte.
pub proof fn write_then_read(pre: MemoryManager, post: MemoryManager, address: u16, byte: u8)
    requires
        pre.wf(),
        plain_ram(address),
        MemoryManager::write_effect(pre, post, address, byte),
    ensures
        post.read_spec(address) == byte,
{
}

/// A write touches, besides the address written, only its echo: a write
/// to plain RAM leaves every other plain-RAM address that is not its
/// echo as it was.
pub proof fn write_leaves_others(
    pre: MemoryManager,
    post: MemoryManager,
    address: u16,
    byte: u8,
    other: u16,
)
    requires
        pre.wf(),
        plain_ram(address),
        plain_ram(other),
        other != address,
        other as int != address + 0x2000,
        other as int != address - 0x2000,
        MemoryManager::write_effect(pre, post, address, byte),
    ensures
        post.read_spec(other) == pre.read_spec(other),
{
}

/// Echo RAM: a write to 0xC000..=0xDDFF reads back at the same address
/// plus 0x2000, and a write to 0xE000..=0xFDFF reads back at the same
/// address minus 0x2000.
pub proof fn echo_mirrors_work_ram(pre: MemoryManager, post: MemoryManager, address: u16, byte: u8)
    requires
        pre.wf(),
        0xC000 <= address <= 0xFDFF,
        address < 0xDE00 || address >= 0xE000,
        MemoryManager::write_effect(pre, post, address, byte),
    ensures
        address < 0xDE00 ==> post.read_spec((address + 0x2000) as u16) == byte,
        address >= 0xE000 ==> post.read_spec((address - 0x2000) as u16) == byte,
        post.read_spec(address) == byte,
{
}

/// MBC1 bank switching: on a cartridge of N >= 2 banks of 16 KiB whose
/// ROM bank has bits 5-6 clear, writing b (0..=0x1F) to 0x2000 and then
/// reading 0x4000 gives the first byte of bank b mod N, or of bank 1
/// when b is 0.
pub proof fn mbc1_bank_switch(pre: MemoryManager, post: MemoryManager, b: u8)
    requires
        pre.wf(),
        pre.cartridge.banking_type == BankingType::MBC1,
        pre.cartridge.current_rom_bank < 32,
        pre.cartridge.rom@.len() >= 0x8000,
        b < 0x20,
        MemoryManager::write_effect(pre, post, 0x2000, b),
    ensures
        ({
            let n = pre.cartridge.rom@.len() as int / 0x4000;
            post.read_spec(0x4000) == pre.cartridge.rom@[(if b == 0 {
                1
            } else {
                b as int % n
            }) * 0x4000]
        }),
{
    let len = pre.cartridge.rom@.len() as int;
    let n = len / 0x4000;
    lemma_power_of_two_multiple(len as nat);
    assert(Cartridge::write_effect(pre.cartridge, post.cartridge, 0x2000, b));
    assert(post.cartridge.current_rom_bank == pre.cartridge.rom_bank_after(0x2000, b));
    let bank = post.cartridge.current_rom_bank as int;
    assert(bank == if b == 0 { 1 } else { b as int });
    let q = n;
    assert(len == q * 0x4000);
    vstd::arithmetic::div_mod::lemma_fundamental_div_mod(bank, q);
    let d = bank / q;
    let r = bank % q;
    assert(bank * 0x4000 == len * d + r * 0x4000) by (nonlinear_arith)
        requires
            bank == q * d + r,
            len == q * 0x4000,
    ;
    assert(0 <= r * 0x4000 < len) by (nonlinear_arith)
        requires
            0 <= r < q,
            len == q * 0x4000,
    ;
    vstd::arithmetic::div_mod::lemma_mod_multiples_vanish(d, r * 0x4000, len);
    vstd::arithmetic::div_mod::lemma_small_mod((r * 0x4000) as nat, len as nat);
    vstd::arithmetic::div_mod::lemma_small_mod(1, n as nat);
    assert(post.cartridge.rom_index(0x4000) == (bank * 0x4000) % len);
    assert((bank * 0x4000) % len == r * 0x4000);
    assert(r == if b == 0 { 1 } else { b as int % n });
}

/// A power of two divides every power of two at least as large.
pub proof fn lemma_power_of_two_divides(n: nat, m: nat)
    requires
        is_power_of_two(n),
        is_power_of_two(m),
        n >= m,
    ensures
        n % m == 0,
    decreases m,
{
    if m > 1 {
        vstd::arithmetic::div_mod::lemma_fundamental_div_mod(n as int, 2);
        vstd::arithmetic::div_mod::lemma_fundamental_div_mod(m as int, 2);
        let hn = n / 2;
        let hm = m / 2;
        assert(hn >= hm);
        lemma_power_of_two_divides(hn, hm);
        vstd::arithmetic::div_mod::lemma_fundamental_div_mod(hn as int, hm as int);
        let k = hn / hm;
        assert(n == m * k) by (nonlinear_arith)
            requires
                n == 2 * hn,
                m == 2 * hm,
                hn == hm * k,
        ;
        vstd::arithmetic::div_mod::lemma_mod_multiples_basic(k as int, m as int);
    }
}

/// A power of two of at least 0x8000 is a multiple of 0x4000, by at least two.
pub proof fn lemma_power_of_two_multiple(len: nat)
    requires
        is_power_of_two(len),
        len >= 0x8000,
    ensures
        len % 0x4000 == 0,
        len / 0x4000 >= 2,
{
    reveal_with_fuel(is_power_of_two, 15);
    assert(is_power_of_two(0x4000));
    lemma_power_of_two_divides(len, 0x4000);
    vstd::arithmetic::div_mod::lemma_fundamental_div_mod(len as int, 0x4000);
}

} // verus!
