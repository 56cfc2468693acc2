use vstd::prelude::*;
use crate::memory_manager::{MemoryManager, JOYPAD};

verus! {

/// The shadow after `key` (0..=7) is released: its bit set.
pub open spec fn released_state(state: u8, key: i32) -> u8 {
    state | (1u8 << (key as u8))
}

/// The shadow after `key` (0..=7) is pressed: its bit cleared.
pub open spec fn pressed_state(state: u8, key: i32) -> u8 {
    state & !(1u8 << (key as u8))
}

/// Whether the group of `key` is selected in the joypad register: keys
/// 0..=3 are directions (bit 4 clear), keys 4..=7 action buttons (bit 5 clear).
pub open spec fn group_selected(select: u8, key: i32) -> bool {
    if key > 3 {
        (select / 32) % 2 == 0
    } else {
        (select / 16) % 2 == 0
    }
}

/// The joypad: turns button presses and releases into the shadow kept by
/// the bus. Keys 0..=7 are Right, Left, Up, Down, A, B, Select, Start.
pub struct Gamepad {}

impl Gamepad {
    /// Creates the joypad.
    pub fn new() -> (r: Gamepad) {
        Gamepad {  }
    }

    /// Marks `key` released.
    pub fn key_released(&mut self, memory_manager: &mut MemoryManager, key: i32)
        requires
            old(memory_manager).wf(),
            0 <= key < 8,
        ensures
            *final(memory_manager) == (MemoryManager {
                gamepad_state: released_state(old(memory_manager).gamepad_state, key),
                ..*old(memory_manager)
            }),
    {
        let new_state = memory_manager.gamepad_state | (1u8 << (key as u8));
        memory_manager.gamepad_state = new_state;
    }

    /// Marks `key` pressed and requests the joypad interrupt (bit 4) when
    /// its group is selected.
    pub fn key_pressed(&mut self, memory_manager: &mut MemoryManager, key: i32)
        requires
            old(memory_manager).wf(),
            0 <= key < 8,
        ensures
            final(memory_manager).wf(),
            final(memory_manager).gamepad_state == pressed_state(
                old(memory_manager).gamepad_state,
                key,
            ),
            final(memory_manager).memory@ == if group_selected(
                old(memory_manager).mem(JOYPAD as int),
                key,
            ) {
                old(memory_manager).memory@.update(0xFF0F, old(memory_manager).mem(0xFF0F) | 16)
            } else {
                old(memory_manager).memory@
            },
            final(memory_manager).cartridge == old(memory_manager).cartridge,
            final(memory_manager).timer_counter == old(memory_manager).timer_counter,
            final(memory_manager).div_counter == old(memory_manager).div_counter,
    {
        let mask = 1u8 << (key as u8);
        memory_manager.gamepad_state = memory_manager.gamepad_state & !mask;
        let select = memory_manager.memory[JOYPAD as usize];
        let selected = if key > 3 {
            (select / 32) % 2 == 0
        } else {
            (select / 16) % 2 == 0
        };
        if selected {
            memory_manager.request_interrupt(4);
            assert(1u8 << 4u8 == 16) by (bit_vector);
        }
    }
}

} // verus!
