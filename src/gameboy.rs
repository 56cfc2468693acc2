use vstd::prelude::*;
use crate::cartridge::{rom_accepted, Cartridge, CartridgeError};
use crate::cpu::{Cpu, CpuError};
use crate::display_manager::DisplayManager;
use crate::gamepad::Gamepad;
use crate::interrupt_handler::InterruptHandler;
use crate::memory_manager::MemoryManager;

verus! {

/// CPU cycles in one frame.
pub const FRAME_CYCLES: i32 = 70224;

/// The cycles of a run of instructions that all completed.
pub open spec fn total_cycles(results: Seq<Result<i32, CpuError>>) -> int
    decreases results.len(),
{
    if results.len() == 0 {
        0
    } else {
        total_cycles(results.drop_last()) + match results.last() {
            Ok(c) => c as int,
            Err(_) => 0,
        }
    }
}

/// The whole console: processor, bus, interrupt controller, pixel
/// processing unit and joypad.
pub struct Gameboy {
    pub cpu: Cpu,
    pub memory_manager: MemoryManager,
    pub interrupt_handler: InterruptHandler,
    pub display_manager: DisplayManager,
    pub gamepad: Gamepad,
}

impl Gameboy {
    /// The state invariant; the low nibble of F is always zero.
    pub open spec fn wf(&self) -> bool {
        &&& self.memory_manager.wf()
        &&& self.display_manager.wf()
        &&& self.cpu.f() % 16 == 0
    }

    /// What one scheduler step does: the interpreter runs an instruction,
    /// then the timers and the display advance by its cycles, then
    /// interrupts are checked. An undefined opcode stops the step after
    /// the interpreter.
    #[verifier::opaque]
    pub open spec fn instruction_effect(pre: Gameboy, post: Gameboy, r: Result<i32, CpuError>) -> bool {
        match r {
            Err(_) => {
                &&& Cpu::interprets(pre.cpu, pre.memory_manager, post.cpu, post.memory_manager, r)
                &&& post.display_manager == pre.display_manager
            },
            Ok(c) => exists|cpu1: Cpu, bus1: MemoryManager, bus2: MemoryManager, bus3: MemoryManager|
                #![trigger
                    Cpu::interprets(pre.cpu, pre.memory_manager, cpu1, bus1, r),
                    MemoryManager::timers_effect(bus1, bus2, c),
                    DisplayManager::display_effect(pre.display_manager, bus2, post.display_manager, bus3, c),
                ]
                {
                    &&& Cpu::interprets(pre.cpu, pre.memory_manager, cpu1, bus1, r)
                    &&& MemoryManager::timers_effect(bus1, bus2, c)
                    &&& DisplayManager::display_effect(
                        pre.display_manager,
                        bus2,
                        post.display_manager,
                        bus3,
                        c,
                    )
                    &&& InterruptHandler::check_effect(cpu1, bus3, post.cpu, post.memory_manager)
                },
        }
    }

    /// Appending one more scheduler step to a run.
    pub proof fn lemma_extend_steps(
        trace: Seq<Gameboy>,
        results: Seq<Result<i32, CpuError>>,
        next: Gameboy,
        step: Result<i32, CpuError>,
    )
        requires
            Gameboy::steps(trace, results),
            Gameboy::instruction_effect(trace.last(), next, step),
            forall|i: int| 0 < i < results.len() ==> total_cycles(#[trigger] results.take(i)) < FRAME_CYCLES,
            total_cycles(results) < FRAME_CYCLES,
        ensures
            Gameboy::steps(trace.push(next), results.push(step)),
            trace.push(next)[0] == trace[0],
            forall|i: int|
                0 < i < results.len() + 1 ==> total_cycles(#[trigger] results.push(step).take(i))
                    < FRAME_CYCLES,
            total_cycles(results.push(step)) == total_cycles(results) + match step {
                Ok(c) => c as int,
                Err(_) => 0,
            },
            forall|i: int| 0 <= i < results.len() ==> results.push(step)[i] == results[i],
    {
        let t2 = trace.push(next);
        let r2 = results.push(step);
        assert(r2.drop_last() =~= results);
        assert forall|i: int| 0 < i < results.len() + 1 implies total_cycles(#[trigger] r2.take(i))
            < FRAME_CYCLES by {
            assert(r2.take(i) =~= results.take(i));
            assert(results.take(results.len() as int) =~= results);
        }
        assert forall|i: int| 0 <= i < r2.len() implies Gameboy::instruction_effect(
            #[trigger] t2[i],
            t2[i + 1],
            r2[i],
        ) by {
            if i < results.len() {
                assert(t2[i] == trace[i]);
                assert(t2[i + 1] == trace[i + 1]);
            }
        }
    }

    /// A run of scheduler steps: `trace` holds the states before and
    /// after each step, `results` what each step returned.
    pub open spec fn steps(trace: Seq<Gameboy>, results: Seq<Result<i32, CpuError>>) -> bool {
        &&& trace.len() == results.len() + 1
        &&& forall|i: int|
            0 <= i < results.len() ==> Gameboy::instruction_effect(
                #[trigger] trace[i],
                trace[i + 1],
                results[i],
            )
    }

    /// What running a frame does: scheduler steps until their cycles
    /// reach a frame's worth, stopping early at an undefined opcode.
    pub open spec fn frame_effect(pre: Gameboy, post: Gameboy, r: Result<i32, CpuError>) -> bool {
        exists|trace: Seq<Gameboy>, results: Seq<Result<i32, CpuError>>|
            #![trigger Gameboy::steps(trace, results)]
            {
                &&& Gameboy::steps(trace, results)
                &&& trace[0] == pre
                &&& trace.last() == post
                &&& forall|i: int| 0 <= i < results.len() - 1 ==> (#[trigger] results[i]).is_ok()
                &&& forall|i: int|
                    0 < i < results.len() ==> total_cycles(#[trigger] results.take(i)) < FRAME_CYCLES
                &&& match r {
                    Ok(c) => c == total_cycles(results) && c >= FRAME_CYCLES && (results.len() == 0
                        || results.last().is_ok()),
                    Err(e) => results.len() > 0 && results.last() == Err::<i32, CpuError>(e),
                }
            }
    }

    /// Powers the console on with a ROM image.
    pub fn new(rom: Vec<u8>) -> (r: Result<Gameboy, CartridgeError>)
        ensures
            r matches Ok(g) ==> {
                &&& g.wf()
                &&& g.cpu.power_on()
                &&& g.memory_manager.power_on(g.memory_manager.cartridge)
                &&& g.memory_manager.cartridge.loaded_from(rom@)
                &&& g.display_manager.power_on()
            },
            r.is_ok() == rom_accepted(rom@),
    {
        let cartridge = match Cartridge::new(rom) {
            Ok(c) => c,
            Err(e) => {
                return Err(e);
            },
        };
        Ok(
            Gameboy {
                cpu: Cpu::new(),
                memory_manager: MemoryManager::new(cartridge),
                interrupt_handler: InterruptHandler::new(),
                display_manager: DisplayManager::new(),
                gamepad: Gamepad::new(),
            },
        )
    }

    /// Runs one instruction and advances the timers, display and
    /// interrupts by its cycles, which it returns.
    pub fn run_instruction(&mut self) -> (r: Result<i32, CpuError>)
        requires
            old(self).wf(),
        ensures
            final(self).wf(),
            r matches Ok(c) ==> 4 <= c <= 24,
            Gameboy::instruction_effect(*old(self), *final(self), r),
    {
        let r = self.cpu.interpret_opcode(&mut self.memory_manager);
        let cycles = match r {
            Ok(c) => c,
            Err(e) => {
                proof {
                    reveal(Gameboy::instruction_effect);
                }
                return Err(e);
            },
        };
        let ghost cpu1 = self.cpu;
        let ghost bus1 = self.memory_manager;
        self.memory_manager.update_timers(cycles);
        let ghost bus2 = self.memory_manager;
        self.display_manager.update_display(&mut self.memory_manager, cycles);
        let ghost bus3 = self.memory_manager;
        self.interrupt_handler.check_interrupts(&mut self.cpu, &mut self.memory_manager);
        assert(Cpu::interprets(old(self).cpu, old(self).memory_manager, cpu1, bus1, r));
        assert(MemoryManager::timers_effect(bus1, bus2, cycles));
        assert(DisplayManager::display_effect(
            old(self).display_manager,
            bus2,
            self.display_manager,
            bus3,
            cycles,
        ));
        assert(InterruptHandler::check_effect(cpu1, bus3, self.cpu, self.memory_manager));
        proof {
            reveal(Gameboy::instruction_effect);
        }
        Ok(cycles)
    }

    /// Runs instructions until a frame's worth of cycles has elapsed and
    /// returns the cycles run; stops at an undefined encoding.
    pub fn step(&mut self) -> (r: Result<i32, CpuError>)
        requires
            old(self).wf(),
        ensures
            final(self).wf(),
            r matches Ok(c) ==> FRAME_CYCLES <= c < FRAME_CYCLES + 24,
            Gameboy::frame_effect(*old(self), *final(self), r),
    {
        let mut cycles_per_step: i32 = 0;
        let ghost mut trace: Seq<Gameboy> = seq![*self];
        let ghost mut results: Seq<Result<i32, CpuError>> = Seq::empty();
        while cycles_per_step < FRAME_CYCLES
            invariant
                self.wf(),
                0 <= cycles_per_step < FRAME_CYCLES + 24,
                Gameboy::steps(trace, results),
                trace[0] == *old(self),
                trace.last() == *self,
                forall|i: int| 0 <= i < results.len() ==> (#[trigger] results[i]).is_ok(),
                forall|i: int|
                    0 < i < results.len() ==> total_cycles(#[trigger] results.take(i)) < FRAME_CYCLES,
                cycles_per_step == total_cycles(results),
            decreases FRAME_CYCLES + 24 - cycles_per_step,
        {
            let step = self.run_instruction();
            proof {
                Gameboy::lemma_extend_steps(trace, results, *self, step);
                trace = trace.push(*self);
                results = results.push(step);
            }
            let c = match step {
                Ok(c) => c,
                Err(e) => {
                    assert(forall|i: int| 0 <= i < results.len() - 1 ==> (#[trigger] results[i]).is_ok());
                    return Err(e);
                },
            };
            cycles_per_step = cycles_per_step + c;
        }
        assert(results.len() > 0 ==> results.last().is_ok());
        Ok(cycles_per_step)
    }
}

/// A console and its frame loop.
pub struct Core {
    pub gameboy: Gameboy,
}

impl Core {
    /// Powers a console on with a ROM image.
    pub fn new(rom: Vec<u8>) -> (r: Result<Core, CartridgeError>)
        ensures
            r matches Ok(c) ==> {
                &&& c.gameboy.wf()
                &&& c.gameboy.cpu.power_on()
                &&& c.gameboy.memory_manager.power_on(c.gameboy.memory_manager.cartridge)
                &&& c.gameboy.memory_manager.cartridge.loaded_from(rom@)
                &&& c.gameboy.display_manager.power_on()
            },
            r.is_ok() == rom_accepted(rom@),
    {
        match Gameboy::new(rom) {
            Ok(gameboy) => Ok(Core { gameboy }),
            Err(e) => Err(e),
        }
    }

    /// Runs one frame.
    pub fn update(&mut self) -> (r: Result<i32, CpuError>)
        requires
            old(self).gameboy.wf(),
        ensures
            final(self).gameboy.wf(),
            r matches Ok(c) ==> FRAME_CYCLES <= c < FRAME_CYCLES + 24,
            Gameboy::frame_effect(old(self).gameboy, final(self).gameboy, r),
    {
        self.gameboy.step()
    }
}

} // verus!
