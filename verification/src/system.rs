//! The emulation session: every piece of owned state (address space,
//! cartridge controller, timer, register file, player input) bundled into
//! one object passed by exclusive reference into every step, plus the
//! per-step timer tick that feeds the elapsed cycle count to the timer unit
//! and raises the timer interrupt on overflow.

use vstd::prelude::*;

use crate::mmu::MMU;
use crate::mmu::MmuView;
use crate::timer::Timer;
use crate::timer::tac_enabled;
use crate::timer::tac_threshold;
use crate::timer::spec_tima_drain;

verus! {

pub struct SystemData {
    pub mmu: MMU,
    pub timer: Timer,
    pub input: PlayerInput,
    pub width: u16,
    pub tile_width: u16,
    pub height: u16,
    pub tile_height: u16,
    pub clock_speed: u32,
    pub horizontal_sync: u32,
    pub vertical_sync_millihertz: u32,
    pub cycles: u8,
    pub debug_flag1: bool,
}

/// One timer tick, as a function of the timer state, the memory view and
/// the elapsed cycle count: the free-running counter advances (or resets),
/// TIMA/TMA/TAC are re-read from their mapped registers, a pending reload
/// due from the previous overflow is applied, the divider is recomputed,
/// TIMA counts at the selected rate, the live values are stored back, and
/// an overflow raises the timer bit of the interrupt-flag register.
pub open spec fn spec_timer_step(t: Timer, m: MmuView, cycles: u8) -> (Timer, MmuView) {
    let advanced = t.spec_cycle_calc(cycles, m.div_reset);
    let reloaded_regs = Timer {
        timer_counter: m.mem[0xFF05],
        timer_modulo: m.mem[0xFF06],
        timer_control: m.mem[0xFF07],
        ..advanced
    };
    let after_reload = if reloaded_regs.mod_delay && reloaded_regs.timer_counter == 0 {
        Timer { timer_counter: reloaded_regs.timer_modulo, ..reloaded_regs }
    } else {
        reloaded_regs
    };
    let cleared = Timer { mod_delay: false, ..after_reload };
    let m_cleared = MmuView { div_reset: false, ..m };
    let with_div = Timer {
        divider_register: ((cleared.cycle_register & 0xFF00) >> 8) as u8,
        ..cleared
    };
    let ticked = with_div.spec_tima_tick(cycles);
    let stored = MmuView {
        mem: m_cleared.mem.update(0xFF05, ticked.0.timer_counter).update(
            0xFF04,
            ticked.0.divider_register,
        ),
        ..m_cleared
    };
    if ticked.1 {
        (ticked.0, stored.write(0xFF0F, stored.read(0xFF0F, false) | 0x04, false))
    } else {
        (ticked.0, stored)
    }
}

impl SystemData {
    #[verifier::rlimit(100)]
    pub fn timer_tick(&mut self)
        requires
            old(self).mmu@.inv(),
        ensures
            final(self).timer == spec_timer_step(old(self).timer, old(self).mmu@, old(self).cycles).0,
            final(self).mmu@ == spec_timer_step(old(self).timer, old(self).mmu@, old(self).cycles).1,
            final(self).mmu@.inv(),
            old(self).mmu@.bank_inv() ==> final(self).mmu@.bank_inv(),
            final(self).input == old(self).input,
            final(self).width == old(self).width,
            final(self).tile_width == old(self).tile_width,
            final(self).height == old(self).height,
            final(self).tile_height == old(self).tile_height,
            final(self).clock_speed == old(self).clock_speed,
            final(self).horizontal_sync == old(self).horizontal_sync,
            final(self).vertical_sync_millihertz == old(self).vertical_sync_millihertz,
            final(self).cycles == old(self).cycles,
            final(self).debug_flag1 == old(self).debug_flag1,
    {
        let ghost t_init = old(self).timer;
        let ghost m_init = old(self).mmu@;
        let ghost cyc = old(self).cycles;
        self.timer.cycle_calculation(self.cycles, self.mmu.div_reset);
        proof {
            assert(self.timer == t_init.spec_cycle_calc(cyc, m_init.div_reset));
        }
        self.timer.update_registers(&self.mmu.mem_map);
        if self.timer.mod_delay && self.timer.timer_counter == 0 {
            self.timer.timer_counter = self.timer.timer_modulo;
        }
        self.timer.mod_delay = false;
        if self.mmu.div_reset {
            self.mmu.div_reset = false;
        }
        proof {
            assert(self.mmu@ == (MmuView { div_reset: false, ..m_init }));
        }
        self.timer.divider_register = ((self.timer.cycle_register & 0xFF00) >> 8) as u8;
        let ghost t_ready = self.timer;
        let overflow_flag = self.timer.tima_tick(self.cycles);
        proof {
            assert(self.timer == t_ready.spec_tima_tick(cyc).0);
            assert(overflow_flag == t_ready.spec_tima_tick(cyc).1);
            assert(self.timer == spec_timer_step(t_init, m_init, cyc).0);
        }
        store_timer_registers(&mut self.mmu, self.timer.timer_counter, self.timer.divider_register);
        if overflow_flag {
            raise_timer_interrupt(&mut self.mmu);
        }
    }
}

/// Stores the live TIMA and divider values back into their memory-mapped
/// registers as internal writes.
fn store_timer_registers(mmu: &mut MMU, tima: u8, divider: u8)
    requires
        old(mmu)@.inv(),
    ensures
        final(mmu)@ == (MmuView {
            mem: old(mmu)@.mem.update(0xFF05, tima).update(0xFF04, divider),
            ..old(mmu)@
        }),
        final(mmu)@.inv(),
{
    mmu.mem_map[0xFF05] = tima;
    mmu.mem_map[0xFF04] = divider;
}

/// Sets the timer bit of the interrupt-flag register with an internal
/// read-modify-write.
fn raise_timer_interrupt(mmu: &mut MMU)
    requires
        old(mmu)@.inv(),
    ensures
        final(mmu)@ == old(mmu)@.write(0xFF0F, (old(mmu)@.read(0xFF0F, false) | 0x04), false),
        final(mmu)@.inv(),
        old(mmu)@.bank_inv() ==> final(mmu)@.bank_inv(),
{
    let mut value = mmu.get_from_memory(0xFF0F, false);
    value |= 0x04;
    mmu.set_to_memory(0xFF0F, value, false);
}

pub struct PlayerInput {
    pub left: bool,
    pub right: bool,
    pub up: bool,
    pub down: bool,
    pub select: bool,
    pub start: bool,
    pub a_button: bool,
    pub b_button: bool,
}

/// The joypad register value for the given input state: the two select
/// bits of the current register value pick buttons, directions, both or
/// neither; a pressed input clears its bit, a released one sets it, and
/// the unused high bits read as set.
pub open spec fn spec_joypad(p: PlayerInput, joypad_register: u8) -> u8 {
    let base = joypad_register | 0xC0;
    let option = (base & 0x30) >> 4;
    if option == 1 {
        let v0 = if p.a_button {
            base & 0xFE
        } else {
            base | 0x01
        };
        let v1 = if p.b_button {
            v0 & 0xFD
        } else {
            v0 | 0x02
        };
        let v2 = if p.select {
            v1 & 0xFB
        } else {
            v1 | 0x04
        };
        if p.start {
            v2 & 0xF7
        } else {
            v2 | 0x08
        }
    } else if option == 2 {
        let v0 = if p.right {
            base & 0xFE
        } else {
            base | 0x01
        };
        let v1 = if p.left {
            v0 & 0xFD
        } else {
            v0 | 0x02
        };
        let v2 = if p.up {
            v1 & 0xFB
        } else {
            v1 | 0x04
        };
        if p.down {
            v2 & 0xF7
        } else {
            v2 | 0x08
        }
    } else if option == 0 {
        let v0 = if p.right || p.a_button {
            base & 0xFE
        } else {
            base | 0x01
        };
        let v1 = if p.left || p.b_button {
            v0 & 0xFD
        } else {
            v0 | 0x02
        };
        let v2 = if p.up || p.select {
            v1 & 0xFB
        } else {
            v1 | 0x04
        };
        if p.down || p.start {
            v2 & 0xF7
        } else {
            v2 | 0x08
        }
    } else {
        0xFF
    }
}

impl PlayerInput {
    /// The power-on state: no input held.
    pub open spec fn initial() -> PlayerInput {
        PlayerInput {
            left: false,
            right: false,
            up: false,
            down: false,
            select: false,
            start: false,
            a_button: false,
            b_button: false,
        }
    }

    pub fn new() -> (r: PlayerInput)
        ensures
            r == PlayerInput::initial(),
    {
        PlayerInput {
            left: false,
            right: false,
            up: false,
            down: false,
            select: false,
            start: false,
            a_button: false,
            b_button: false,
        }
    }

    pub fn update_input(&self, system_data: &SystemData) -> (r: u8)
        requires
            system_data.mmu@.inv(),
        ensures
            r == spec_joypad(*self, system_data.mmu@.mem[0xFF00]),
    {
        let mut input_value = system_data.mmu.mem_map[0xFF00] | 0b11000000;
        let option = (input_value & 0x30) >> 4;
        proof {
            let base = input_value;
            assert((base & 0x30) >> 4 <= 3) by (bit_vector);
        }
        if option == 1 {
            match self.a_button {
                true => input_value &= 0xFE,
                false => input_value |= 0x01,
            }
            match self.b_button {
                true => input_value &= 0xFD,
                false => input_value |= 0x02,
            }
            match self.select {
                true => input_value &= 0xFB,
                false => input_value |= 0x04,
            }
            match self.start {
                true => input_value &= 0xF7,
                false => input_value |= 0x08,
            }
        } else if option == 2 {
            match self.right {
                true => input_value &= 0xFE,
                false => input_value |= 0x01,
            }
            match self.left {
                true => input_value &= 0xFD,
                false => input_value |= 0x02,
            }
            match self.up {
                true => input_value &= 0xFB,
                false => input_value |= 0x04,
            }
            match self.down {
                true => input_value &= 0xF7,
                false => input_value |= 0x08,
            }
        } else if option == 0 {
            match self.right || self.a_button {
                true => input_value &= 0xFE,
                false => input_value |= 0x01,
            }
            match self.left || self.b_button {
                true => input_value &= 0xFD,
                false => input_value |= 0x02,
            }
            match self.up || self.select {
                true => input_value &= 0xFB,
                false => input_value |= 0x04,
            }
            match self.down || self.start {
                true => input_value &= 0xF7,
                false => input_value |= 0x08,
            }
        } else if option == 3 {
            return 0xFF;
        }
        input_value
    }
}

/// Relates the equality of a session-type string to the one recognized
/// session kind, so that the session constructor's contract can speak of
/// the string's view.
fn emulator_type_is_classic(emulator_type: &str) -> (r: bool)
    ensures
        r == (emulator_type@ == "CLASSIC"@),
{
    proof {
        reveal_strlit("CLASSIC");
    }
    if emulator_type.unicode_len() != 7 {
        return false;
    }
    let matches = emulator_type.get_char(0) == 'C' && emulator_type.get_char(1) == 'L'
        && emulator_type.get_char(2) == 'A' && emulator_type.get_char(3) == 'S'
        && emulator_type.get_char(4) == 'S' && emulator_type.get_char(5) == 'I'
        && emulator_type.get_char(6) == 'C';
    proof {
        if matches {
            assert(emulator_type@ =~= "CLASSIC"@);
        }
    }
    matches
}

/// The session for the classic handheld: its display dimensions, clock and
/// sync rates (the vertical rate held in millihertz), and power-on state
/// for every unit.  An unrecognized session type yields an all-zero
/// session that runs but computes nothing.
pub fn get_system_data(emulator_type: &str) -> (r: SystemData)
    ensures
        r.mmu@ == MmuView::initial(),
        r.mmu@.inv(),
        r.timer == Timer::initial(),
        r.input == PlayerInput::initial(),
        r.cycles == 0,
        !r.debug_flag1,
        emulator_type@ == "CLASSIC"@ ==> r.width == 160 && r.tile_width == 20 && r.height == 144
            && r.tile_height == 18 && r.clock_speed == 4194304 && r.horizontal_sync == 9198000
            && r.vertical_sync_millihertz == 59730,
        emulator_type@ != "CLASSIC"@ ==> r.width == 0 && r.tile_width == 0 && r.height == 0
            && r.tile_height == 0 && r.clock_speed == 0 && r.horizontal_sync == 0
            && r.vertical_sync_millihertz == 0,
{
    if emulator_type_is_classic(emulator_type) {
        SystemData {
            mmu: MMU::new(),
            timer: Timer::new(),
            input: PlayerInput::new(),
            width: 160,
            tile_width: 20,
            height: 144,
            tile_height: 18,
            clock_speed: 4194304,
            horizontal_sync: 9198000,
            vertical_sync_millihertz: 59730,
            cycles: 0,
            debug_flag1: false,
        }
    } else {
        SystemData {
            mmu: MMU::new(),
            timer: Timer::new(),
            input: PlayerInput::new(),
            width: 0,
            tile_width: 0,
            height: 0,
            tile_height: 0,
            clock_speed: 0,
            horizontal_sync: 0,
            vertical_sync_millihertz: 0,
            cycles: 0,
            debug_flag1: false,
        }
    }
}

/// Timer overflow and the one-cycle reload quirk: a tick that carries TIMA
/// past `0xFF` wraps it to 0, raises the timer bit of the interrupt-flag
/// register, and leaves the TMA reload for the *following* tick, which
/// (when it crosses no further rate boundary) loads TIMA from TMA.
pub proof fn lemma_timer_overflow_delayed_reload(t: Timer, m: MmuView, cycles: u8, cycles2: u8)
    requires
        m.inv(),
        !m.div_reset,
        tac_enabled(m.mem[0xFF07]),
        m.mem[0xFF05] == 0xFF,
        !t.mod_delay,
        t.tima_accumulator + cycles < 0x10000,
        tac_threshold(m.mem[0xFF07]) <= t.tima_accumulator + cycles,
        t.tima_accumulator + cycles < 2 * tac_threshold(m.mem[0xFF07]),
        t.tima_accumulator + cycles - tac_threshold(m.mem[0xFF07]) + cycles2 < tac_threshold(
            m.mem[0xFF07],
        ),
    ensures
        spec_timer_step(t, m, cycles).0.mod_delay,
        spec_timer_step(t, m, cycles).1.mem[0xFF05] == 0,
        spec_timer_step(t, m, cycles).1.mem[0xFF0F] & 0x04 != 0,
        spec_timer_step(
            spec_timer_step(t, m, cycles).0,
            spec_timer_step(t, m, cycles).1,
            cycles2,
        ).1.mem[0xFF05] == m.mem[0xFF06],
{
    let th = tac_threshold(m.mem[0xFF07]);
    let acc0 = ((t.tima_accumulator + cycles) % 0x10000) as u16;
    assert(acc0 == t.tima_accumulator + cycles);
    assert(spec_tima_drain(acc0, th, 0xFF, false, false) == spec_tima_drain(
        (acc0 - th) as u16,
        th,
        0,
        true,
        true,
    ));
    assert(spec_tima_drain((acc0 - th) as u16, th, 0, true, true) == ((acc0 - th) as u16, 0u8, true, true));
    let step1 = spec_timer_step(t, m, cycles);
    let prior = m.mem[0xFF0F];
    assert((prior | 0x04) & 0x04 != 0) by (bit_vector);
    let t1 = step1.0;
    let m1 = step1.1;
    assert(m1.mem[0xFF05] == 0);
    assert(m1.mem[0xFF06] == m.mem[0xFF06]);
    assert(m1.mem[0xFF07] == m.mem[0xFF07]);
    let acc1 = ((t1.tima_accumulator + cycles2) % 0x10000) as u16;
    assert(acc1 == t1.tima_accumulator + cycles2);
    assert(acc1 < th);
    assert(spec_tima_drain(acc1, th, m.mem[0xFF06], false, false) == (
        acc1,
        m.mem[0xFF06],
        false,
        false,
    ));
}

} // verus!
