//! The instruction execution engine: one step fetches the byte at the
//! program counter (or a second byte behind the CB prefix), dispatches to
//! the operation it selects, mutates the register file and the MMU,
//! advances the program counter past any operand bytes, and reports the
//! elapsed cycle cost.
//!
//! The interrupt/halt coordinator runs before each fetch: a halted core
//! resumes only when an enabled interrupt is pending (else the step is an
//! idle tick), and with the master enable set a pending interrupt is
//! serviced instead of a fetch.  `EI` raises the master enable only after
//! the following instruction completes.
//!
//! Every opcode of both tables is implemented except the low-power `STOP`
//! state, which is not modeled.  Dispatching it, or any of the eleven
//! opcodes that are illegal on real hardware, reports a cycle cost of zero
//! and changes nothing, which the driver treats as fatal to the session.

use vstd::prelude::*;

use crate::mmu::MmuView;
use crate::opcode_helpers::cb_cycle_parse;
use crate::opcode_helpers::cycle_parse;
use crate::opcode_helpers::spec_cb_cycle_parse;
use crate::opcode_helpers::spec_cycle_parse;
use crate::registers::Registers;
use crate::system::SystemData;

verus! {

/// What one dispatched operation does: the register file and memory after
/// it, and its reported cycle cost.
#[verifier::ext_equal]
pub struct CpuEffect {
    pub regs: Registers,
    pub mem: MmuView,
    pub cycles: u8,
}

/// An executed operation touches the register file, the MMU and the cycle
/// counter, and nothing else of the session.
pub open spec fn applies_effect(
    effect: CpuEffect,
    pre: SystemData,
    post: SystemData,
    regs_post: Registers,
) -> bool {
    &&& regs_post == effect.regs
    &&& post.mmu@ == effect.mem
    &&& post.cycles == effect.cycles
    &&& post.timer == pre.timer
    &&& post.input == pre.input
    &&& post.width == pre.width
    &&& post.tile_width == pre.tile_width
    &&& post.height == pre.height
    &&& post.tile_height == pre.tile_height
    &&& post.clock_speed == pre.clock_speed
    &&& post.horizontal_sync == pre.horizontal_sync
    &&& post.vertical_sync_millihertz == pre.vertical_sync_millihertz
    &&& post.debug_flag1 == pre.debug_flag1
}

/// Bounds of the bit fields an opcode is decoded into.
pub proof fn lemma_opcode_field_bounds(opcode: u8)
    by (bit_vector)
    ensures
        opcode & 0x07 < 8,
        (opcode >> 3) & 0x07 < 8,
        (opcode >> 4) & 0x03 < 4,
{
}

/// Opcode register codes order B, C, D, E, H, L, (HL), A; the register
/// file's flagless table is ordered A, B, C, D, E, H, L.  Code 6 (the
/// memory operand) maps to the table's sentinel slot.
pub open spec fn reg_index_of_code(code: u8) -> u8 {
    if code == 7 {
        0
    } else {
        (code + 1) as u8
    }
}

/// The program counter advanced by an instruction's length, wrapping at
/// the top of the address space.
pub open spec fn pc_plus(pc: u16, length: u16) -> u16 {
    ((pc + length) % 0x10000) as u16
}

/// Flags after an 8-bit increment of `value`: Zero exactly when the
/// increment wraps, Half-carry exactly when the low nibble crosses its
/// boundary, Subtract cleared, Carry preserved.
pub open spec fn spec_increment_flags(value: u8, old_flags: u8) -> u8 {
    let carried = old_flags & 0x10;
    let with_zero = if value == 0xFF {
        carried | 0x80
    } else {
        carried
    };
    if value & 0x0F == 0x0F {
        with_zero | 0x20
    } else {
        with_zero
    }
}

/// The 8-bit increment class: target selected by opcode bits 5-3, the
/// memory form read-modify-writes through the MMU at HL.
pub open spec fn spec_increment(r: Registers, m: MmuView, opcode: u8) -> CpuEffect {
    let code = (opcode >> 3) & 0x07;
    let advanced = pc_plus(r.program_counter, 1);
    if code == 6 {
        let address = r.spec_get_16(3);
        let value = m.read(address as int, true);
        let incremented = ((value + 1) % 0x100) as u8;
        CpuEffect {
            regs: Registers {
                flags: spec_increment_flags(value, r.flags),
                program_counter: advanced,
                ..r
            },
            mem: m.write(address as int, incremented, true),
            cycles: spec_cycle_parse(opcode),
        }
    } else {
        let index = reg_index_of_code(code);
        let value = r.spec_get(index);
        let incremented = ((value + 1) % 0x100) as u8;
        CpuEffect {
            regs: Registers {
                flags: spec_increment_flags(value, r.flags),
                program_counter: advanced,
                ..r.spec_set(index, incremented)
            },
            mem: m,
            cycles: spec_cycle_parse(opcode),
        }
    }
}

pub fn increment(system_data: &mut SystemData, registers: &mut Registers, opcode: u8)
    requires
        old(system_data).mmu@.inv(),
    ensures
        applies_effect(
            spec_increment(*old(registers), old(system_data).mmu@, opcode),
            *old(system_data),
            *final(system_data),
            *final(registers),
        ),
        final(system_data).mmu@.inv(),
        old(system_data).mmu@.bank_inv() ==> final(system_data).mmu@.bank_inv(),
{
    proof {
        lemma_opcode_field_bounds(opcode);
    }
    let code = (opcode >> 3) & 0x07;
    system_data.cycles = cycle_parse(opcode);
    if code == 6 {
        let address = registers.mapped_16_bit_register_getter(3);
        let value = system_data.mmu.get_from_memory(address as usize, true);
        let incremented = value.wrapping_add(1);
        registers.flags = increment_flags(value, registers.flags);
        system_data.mmu.set_to_memory(address as usize, incremented, true);
    } else {
        let index = if code == 7 {
            0
        } else {
            code + 1
        };
        let value = registers.mapped_register_getter(index);
        let incremented = value.wrapping_add(1);
        registers.mapped_register_setter(index, incremented);
        registers.flags = increment_flags(value, registers.flags);
    }
    registers.program_counter = registers.program_counter.wrapping_add(1);
}

fn increment_flags(value: u8, old_flags: u8) -> (flags: u8)
    ensures
        flags == spec_increment_flags(value, old_flags),
{
    let mut flags = old_flags & 0x10;
    if value == 0xFF {
        flags |= 0x80;
    }
    if value & 0x0F == 0x0F {
        flags |= 0x20;
    }
    flags
}

/// Flags after an 8-bit decrement of `value`: Zero exactly when the result
/// is zero, Subtract set, Half-carry exactly when the low nibble borrows,
/// Carry preserved.
pub open spec fn spec_decrement_flags(value: u8, old_flags: u8) -> u8 {
    let with_subtract = (old_flags & 0x10) | 0x40;
    let with_zero = if value == 1 {
        with_subtract | 0x80
    } else {
        with_subtract
    };
    if value & 0x0F == 0 {
        with_zero | 0x20
    } else {
        with_zero
    }
}

/// The 8-bit decrement class: target selected by opcode bits 5-3, the
/// memory form read-modify-writes through the MMU at HL.
pub open spec fn spec_decrement(r: Registers, m: MmuView, opcode: u8) -> CpuEffect {
    let code = (opcode >> 3) & 0x07;
    let advanced = pc_plus(r.program_counter, 1);
    if code == 6 {
        let address = r.spec_get_16(3);
        let value = m.read(address as int, true);
        let decremented = ((value + 0xFF) % 0x100) as u8;
        CpuEffect {
            regs: Registers {
                flags: spec_decrement_flags(value, r.flags),
                program_counter: advanced,
                ..r
            },
            mem: m.write(address as int, decremented, true),
            cycles: spec_cycle_parse(opcode),
        }
    } else {
        let index = reg_index_of_code(code);
        let value = r.spec_get(index);
        let decremented = ((value + 0xFF) % 0x100) as u8;
        CpuEffect {
            regs: Registers {
                flags: spec_decrement_flags(value, r.flags),
                program_counter: advanced,
                ..r.spec_set(index, decremented)
            },
            mem: m,
            cycles: spec_cycle_parse(opcode),
        }
    }
}

pub fn decrement(system_data: &mut SystemData, registers: &mut Registers, opcode: u8)
    requires
        old(system_data).mmu@.inv(),
    ensures
        applies_effect(
            spec_decrement(*old(registers), old(system_data).mmu@, opcode),
            *old(system_data),
            *final(system_data),
            *final(registers),
        ),
        final(system_data).mmu@.inv(),
        old(system_data).mmu@.bank_inv() ==> final(system_data).mmu@.bank_inv(),
{
    proof {
        lemma_opcode_field_bounds(opcode);
    }
    let code = (opcode >> 3) & 0x07;
    system_data.cycles = cycle_parse(opcode);
    if code == 6 {
        let address = registers.mapped_16_bit_register_getter(3);
        let value = system_data.mmu.get_from_memory(address as usize, true);
        let decremented = value.wrapping_sub(1);
        registers.flags = decrement_flags(value, registers.flags);
        system_data.mmu.set_to_memory(address as usize, decremented, true);
    } else {
        let index = if code == 7 {
            0
        } else {
            code + 1
        };
        let value = registers.mapped_register_getter(index);
        let decremented = value.wrapping_sub(1);
        registers.mapped_register_setter(index, decremented);
        registers.flags = decrement_flags(value, registers.flags);
    }
    registers.program_counter = registers.program_counter.wrapping_add(1);
}

fn decrement_flags(value: u8, old_flags: u8) -> (flags: u8)
    ensures
        flags == spec_decrement_flags(value, old_flags),
{
    let mut flags = (old_flags & 0x10) | 0x40;
    if value == 1 {
        flags |= 0x80;
    }
    if value & 0x0F == 0 {
        flags |= 0x20;
    }
    flags
}

/// Loading an immediate byte into the register selected by opcode bits 5-3.
pub open spec fn spec_load_n_to_8bit_register(r: Registers, m: MmuView, opcode: u8) -> CpuEffect {
    let code = (opcode >> 3) & 0x07;
    let value = m.read(pc_plus(r.program_counter, 1) as int, true);
    CpuEffect {
        regs: Registers {
            program_counter: pc_plus(r.program_counter, 2),
            ..r.spec_set(reg_index_of_code(code), value)
        },
        mem: m,
        cycles: spec_cycle_parse(opcode),
    }
}

pub fn load_n_to_8bit_register(system_data: &mut SystemData, registers: &mut Registers, opcode: u8)
    requires
        old(system_data).mmu@.inv(),
    ensures
        applies_effect(
            spec_load_n_to_8bit_register(*old(registers), old(system_data).mmu@, opcode),
            *old(system_data),
            *final(system_data),
            *final(registers),
        ),
        final(system_data).mmu@.inv(),
        old(system_data).mmu@.bank_inv() ==> final(system_data).mmu@.bank_inv(),
{
    proof {
        lemma_opcode_field_bounds(opcode);
    }
    let code = (opcode >> 3) & 0x07;
    system_data.cycles = cycle_parse(opcode);
    let operand_address = registers.program_counter.wrapping_add(1);
    let value = system_data.mmu.get_from_memory(operand_address as usize, true);
    let index = if code == 7 {
        0
    } else {
        code + 1
    };
    registers.mapped_register_setter(index, value);
    registers.program_counter = registers.program_counter.wrapping_add(2);
}

/// Loading an immediate 16-bit value (low byte first) into the pair
/// selected by opcode bits 5-4: BC, DE, HL or the stack pointer.
pub open spec fn spec_load_nn_to_16bit_register(r: Registers, m: MmuView, opcode: u8) -> CpuEffect {
    let pair = (((opcode >> 4) & 0x03) + 1) as u8;
    let low = m.read(pc_plus(r.program_counter, 1) as int, true);
    let high = m.read(pc_plus(r.program_counter, 2) as int, true);
    let value = (((high as u16) << 8) | (low as u16)) as u16;
    CpuEffect {
        regs: Registers { program_counter: pc_plus(r.program_counter, 3), ..r.spec_set_16(pair, value) },
        mem: m,
        cycles: spec_cycle_parse(opcode),
    }
}

pub fn load_nn_to_16bit_register(system_data: &mut SystemData, registers: &mut Registers, opcode: u8)
    requires
        old(system_data).mmu@.inv(),
    ensures
        applies_effect(
            spec_load_nn_to_16bit_register(*old(registers), old(system_data).mmu@, opcode),
            *old(system_data),
            *final(system_data),
            *final(registers),
        ),
        final(system_data).mmu@.inv(),
        old(system_data).mmu@.bank_inv() ==> final(system_data).mmu@.bank_inv(),
{
    proof {
        lemma_opcode_field_bounds(opcode);
    }
    let pair = ((opcode >> 4) & 0x03) + 1;
    system_data.cycles = cycle_parse(opcode);
    let low_address = registers.program_counter.wrapping_add(1);
    let low = system_data.mmu.get_from_memory(low_address as usize, true);
    let high_address = registers.program_counter.wrapping_add(2);
    let high = system_data.mmu.get_from_memory(high_address as usize, true);
    let value = ((high as u16) << 8) | (low as u16);
    registers.mapped_16_bit_register_setter(pair, value);
    registers.program_counter = registers.program_counter.wrapping_add(3);
}

/// Exclusive-or of the accumulator with the operand selected by the
/// opcode's low three bits (code 6 reads memory at HL): only the Zero flag
/// can come out set.
pub open spec fn spec_xor_register(r: Registers, m: MmuView, opcode: u8) -> CpuEffect {
    let code = opcode & 0x07;
    let operand = if code == 6 {
        m.read(r.spec_get_16(3) as int, true)
    } else {
        r.spec_get(reg_index_of_code(code))
    };
    let result = r.accumulator ^ operand;
    let flags: u8 = if result == 0 {
        0x80
    } else {
        0x00
    };
    CpuEffect {
        regs: Registers {
            accumulator: result,
            flags: flags,
            program_counter: pc_plus(r.program_counter, 1),
            ..r
        },
        mem: m,
        cycles: spec_cycle_parse(opcode),
    }
}

pub fn xor_register(system_data: &mut SystemData, registers: &mut Registers, opcode: u8)
    requires
        old(system_data).mmu@.inv(),
    ensures
        applies_effect(
            spec_xor_register(*old(registers), old(system_data).mmu@, opcode),
            *old(system_data),
            *final(system_data),
            *final(registers),
        ),
        final(system_data).mmu@.inv(),
        old(system_data).mmu@.bank_inv() ==> final(system_data).mmu@.bank_inv(),
{
    proof {
        lemma_opcode_field_bounds(opcode);
    }
    let code = opcode & 0x07;
    system_data.cycles = cycle_parse(opcode);
    let operand = if code == 6 {
        let address = registers.mapped_16_bit_register_getter(3);
        system_data.mmu.get_from_memory(address as usize, true)
    } else {
        let index = if code == 7 {
            0
        } else {
            code + 1
        };
        registers.mapped_register_getter(index)
    };
    registers.accumulator ^= operand;
    if registers.accumulator == 0 {
        registers.flags = 0x80;
    } else {
        registers.flags = 0x00;
    }
    registers.program_counter = registers.program_counter.wrapping_add(1);
}

/// The operand of an ALU-row instruction, selected by the opcode's low
/// three bits: a register, or (for code 6) memory at HL.
pub open spec fn spec_alu_operand(r: Registers, m: MmuView, opcode: u8) -> u8 {
    let code = opcode & 0x07;
    if code == 6 {
        m.read(r.spec_get_16(3) as int, true)
    } else {
        r.spec_get(reg_index_of_code(code))
    }
}

fn alu_operand(system_data: &SystemData, registers: &Registers, opcode: u8) -> (operand: u8)
    requires
        system_data.mmu@.inv(),
    ensures
        operand == spec_alu_operand(*registers, system_data.mmu@, opcode),
{
    let code = opcode & 0x07;
    if code == 6 {
        let address = registers.mapped_16_bit_register_getter(3);
        system_data.mmu.get_from_memory(address as usize, true)
    } else {
        proof {
            lemma_opcode_field_bounds(opcode);
        }
        let index = if code == 7 {
            0
        } else {
            code + 1
        };
        registers.mapped_register_getter(index)
    }
}

/// Flags after an 8-bit addition: Zero on a zero result, Subtract
/// cleared, Half-carry on a carry out of the low nibble, Carry on a carry
/// out of the byte.
pub open spec fn spec_add_flags(a: u8, b: u8) -> u8 {
    let with_zero: u8 = if (a + b) % 0x100 == 0 {
        0x80
    } else {
        0x00
    };
    let with_half = if (a & 0x0F) + (b & 0x0F) > 0x0F {
        with_zero | 0x20
    } else {
        with_zero
    };
    if a + b > 0xFF {
        with_half | 0x10
    } else {
        with_half
    }
}

/// Adding the selected operand to the accumulator, wrapping.
pub open spec fn spec_add_register(r: Registers, m: MmuView, opcode: u8) -> CpuEffect {
    let operand = spec_alu_operand(r, m, opcode);
    CpuEffect {
        regs: Registers {
            accumulator: ((r.accumulator + operand) % 0x100) as u8,
            flags: spec_add_flags(r.accumulator, operand),
            program_counter: pc_plus(r.program_counter, 1),
            ..r
        },
        mem: m,
        cycles: spec_cycle_parse(opcode),
    }
}

pub fn add_register(system_data: &mut SystemData, registers: &mut Registers, opcode: u8)
    requires
        old(system_data).mmu@.inv(),
    ensures
        applies_effect(
            spec_add_register(*old(registers), old(system_data).mmu@, opcode),
            *old(system_data),
            *final(system_data),
            *final(registers),
        ),
        final(system_data).mmu@.inv(),
        old(system_data).mmu@.bank_inv() ==> final(system_data).mmu@.bank_inv(),
{
    system_data.cycles = cycle_parse(opcode);
    let operand = alu_operand(system_data, registers, opcode);
    let a = registers.accumulator;
    let mut flags: u8 = if a.wrapping_add(operand) == 0 {
        0x80
    } else {
        0x00
    };
    if ((a & 0x0F) as u16) + ((operand & 0x0F) as u16) > 0x0F {
        flags |= 0x20;
    }
    if (a as u16) + (operand as u16) > 0xFF {
        flags |= 0x10;
    }
    registers.accumulator = a.wrapping_add(operand);
    registers.flags = flags;
    registers.program_counter = registers.program_counter.wrapping_add(1);
}

/// Flags after an 8-bit subtraction or comparison: Zero on equality,
/// Subtract set, Half-carry on a borrow into the low nibble, Carry on a
/// borrow into the byte.
pub open spec fn spec_sub_flags(a: u8, b: u8) -> u8 {
    let with_zero: u8 = if a == b {
        0xC0
    } else {
        0x40
    };
    let with_half = if (a & 0x0F) < (b & 0x0F) {
        with_zero | 0x20
    } else {
        with_zero
    };
    if a < b {
        with_half | 0x10
    } else {
        with_half
    }
}

/// Subtracting the selected operand from the accumulator, wrapping.
pub open spec fn spec_sub_register(r: Registers, m: MmuView, opcode: u8) -> CpuEffect {
    let operand = spec_alu_operand(r, m, opcode);
    CpuEffect {
        regs: Registers {
            accumulator: ((r.accumulator + 0x100 - operand) % 0x100) as u8,
            flags: spec_sub_flags(r.accumulator, operand),
            program_counter: pc_plus(r.program_counter, 1),
            ..r
        },
        mem: m,
        cycles: spec_cycle_parse(opcode),
    }
}

pub fn sub_register(system_data: &mut SystemData, registers: &mut Registers, opcode: u8)
    requires
        old(system_data).mmu@.inv(),
    ensures
        applies_effect(
            spec_sub_register(*old(registers), old(system_data).mmu@, opcode),
            *old(system_data),
            *final(system_data),
            *final(registers),
        ),
        final(system_data).mmu@.inv(),
        old(system_data).mmu@.bank_inv() ==> final(system_data).mmu@.bank_inv(),
{
    system_data.cycles = cycle_parse(opcode);
    let operand = alu_operand(system_data, registers, opcode);
    let a = registers.accumulator;
    registers.flags = sub_flags(a, operand);
    registers.accumulator = a.wrapping_sub(operand);
    registers.program_counter = registers.program_counter.wrapping_add(1);
}

fn sub_flags(a: u8, b: u8) -> (flags: u8)
    ensures
        flags == spec_sub_flags(a, b),
{
    let mut flags: u8 = if a == b {
        0xC0
    } else {
        0x40
    };
    if (a & 0x0F) < (b & 0x0F) {
        flags |= 0x20;
    }
    if a < b {
        flags |= 0x10;
    }
    flags
}

/// Comparing the selected operand against the accumulator: the flags of
/// the subtraction, with the accumulator kept.
pub open spec fn spec_compare_register(r: Registers, m: MmuView, opcode: u8) -> CpuEffect {
    let operand = spec_alu_operand(r, m, opcode);
    CpuEffect {
        regs: Registers {
            flags: spec_sub_flags(r.accumulator, operand),
            program_counter: pc_plus(r.program_counter, 1),
            ..r
        },
        mem: m,
        cycles: spec_cycle_parse(opcode),
    }
}

pub fn compare_register(system_data: &mut SystemData, registers: &mut Registers, opcode: u8)
    requires
        old(system_data).mmu@.inv(),
    ensures
        applies_effect(
            spec_compare_register(*old(registers), old(system_data).mmu@, opcode),
            *old(system_data),
            *final(system_data),
            *final(registers),
        ),
        final(system_data).mmu@.inv(),
        old(system_data).mmu@.bank_inv() ==> final(system_data).mmu@.bank_inv(),
{
    system_data.cycles = cycle_parse(opcode);
    let operand = alu_operand(system_data, registers, opcode);
    registers.flags = sub_flags(registers.accumulator, operand);
    registers.program_counter = registers.program_counter.wrapping_add(1);
}

/// Bitwise and of the accumulator with the selected operand: Zero on a
/// zero result, Half-carry always set.
pub open spec fn spec_and_register(r: Registers, m: MmuView, opcode: u8) -> CpuEffect {
    let result = r.accumulator & spec_alu_operand(r, m, opcode);
    CpuEffect {
        regs: Registers {
            accumulator: result,
            flags: if result == 0 {
                0xA0
            } else {
                0x20
            },
            program_counter: pc_plus(r.program_counter, 1),
            ..r
        },
        mem: m,
        cycles: spec_cycle_parse(opcode),
    }
}

pub fn and_register(system_data: &mut SystemData, registers: &mut Registers, opcode: u8)
    requires
        old(system_data).mmu@.inv(),
    ensures
        applies_effect(
            spec_and_register(*old(registers), old(system_data).mmu@, opcode),
            *old(system_data),
            *final(system_data),
            *final(registers),
        ),
        final(system_data).mmu@.inv(),
        old(system_data).mmu@.bank_inv() ==> final(system_data).mmu@.bank_inv(),
{
    system_data.cycles = cycle_parse(opcode);
    let operand = alu_operand(system_data, registers, opcode);
    registers.accumulator &= operand;
    if registers.accumulator == 0 {
        registers.flags = 0xA0;
    } else {
        registers.flags = 0x20;
    }
    registers.program_counter = registers.program_counter.wrapping_add(1);
}

/// Bitwise or of the accumulator with the selected operand: only the Zero
/// flag can come out set.
pub open spec fn spec_or_register(r: Registers, m: MmuView, opcode: u8) -> CpuEffect {
    let result = r.accumulator | spec_alu_operand(r, m, opcode);
    CpuEffect {
        regs: Registers {
            accumulator: result,
            flags: if result == 0 {
                0x80
            } else {
                0x00
            },
            program_counter: pc_plus(r.program_counter, 1),
            ..r
        },
        mem: m,
        cycles: spec_cycle_parse(opcode),
    }
}

pub fn or_register(system_data: &mut SystemData, registers: &mut Registers, opcode: u8)
    requires
        old(system_data).mmu@.inv(),
    ensures
        applies_effect(
            spec_or_register(*old(registers), old(system_data).mmu@, opcode),
            *old(system_data),
            *final(system_data),
            *final(registers),
        ),
        final(system_data).mmu@.inv(),
        old(system_data).mmu@.bank_inv() ==> final(system_data).mmu@.bank_inv(),
{
    system_data.cycles = cycle_parse(opcode);
    let operand = alu_operand(system_data, registers, opcode);
    registers.accumulator |= operand;
    if registers.accumulator == 0 {
        registers.flags = 0x80;
    } else {
        registers.flags = 0x00;
    }
    registers.program_counter = registers.program_counter.wrapping_add(1);
}

/// Flags after an 8-bit addition with carry-in: Zero on a zero result,
/// Subtract cleared, Half-carry on a carry out of the low nibble, Carry on
/// a carry out of the byte.
pub open spec fn spec_add_carry_flags(a: u8, b: u8, carry_in: u8) -> u8 {
    let with_zero: u8 = if (a + b + carry_in) % 0x100 == 0 {
        0x80
    } else {
        0x00
    };
    let with_half = if (a & 0x0F) + (b & 0x0F) + carry_in > 0x0F {
        with_zero | 0x20
    } else {
        with_zero
    };
    if a + b + carry_in > 0xFF {
        with_half | 0x10
    } else {
        with_half
    }
}

/// Flags after an 8-bit subtraction with borrow-in: Zero on a zero result,
/// Subtract set, Half-carry on a borrow into the low nibble, Carry on a
/// borrow into the byte.
pub open spec fn spec_sub_carry_flags(a: u8, b: u8, carry_in: u8) -> u8 {
    let with_zero: u8 = if (a + 0x200 - b - carry_in) % 0x100 == 0 {
        0xC0
    } else {
        0x40
    };
    let with_half = if (a & 0x0F) < (b & 0x0F) + carry_in {
        with_zero | 0x20
    } else {
        with_zero
    };
    if (a as int) < b + carry_in {
        with_half | 0x10
    } else {
        with_half
    }
}

/// The carry flag as the 0-or-1 value an ALU carry-in uses.
pub open spec fn spec_carry_in(flags: u8) -> u8 {
    if flags & 0x10 != 0 {
        1
    } else {
        0
    }
}

/// Adding the selected operand and the carry flag to the accumulator,
/// wrapping.
pub open spec fn spec_add_carry_register(r: Registers, m: MmuView, opcode: u8) -> CpuEffect {
    let operand = spec_alu_operand(r, m, opcode);
    let carry_in = spec_carry_in(r.flags);
    CpuEffect {
        regs: Registers {
            accumulator: ((r.accumulator + operand + carry_in) % 0x100) as u8,
            flags: spec_add_carry_flags(r.accumulator, operand, carry_in),
            program_counter: pc_plus(r.program_counter, 1),
            ..r
        },
        mem: m,
        cycles: spec_cycle_parse(opcode),
    }
}

pub fn add_carry_register(system_data: &mut SystemData, registers: &mut Registers, opcode: u8)
    requires
        old(system_data).mmu@.inv(),
    ensures
        applies_effect(
            spec_add_carry_register(*old(registers), old(system_data).mmu@, opcode),
            *old(system_data),
            *final(system_data),
            *final(registers),
        ),
        final(system_data).mmu@.inv(),
        old(system_data).mmu@.bank_inv() ==> final(system_data).mmu@.bank_inv(),
{
    system_data.cycles = cycle_parse(opcode);
    let operand = alu_operand(system_data, registers, opcode);
    let carry_in: u8 = if registers.flags & 0x10 != 0 {
        1
    } else {
        0
    };
    let a = registers.accumulator;
    registers.flags = add_carry_flags(a, operand, carry_in);
    let sum = (a as u16) + (operand as u16) + (carry_in as u16);
    registers.accumulator = (sum % 0x100) as u8;
    registers.program_counter = registers.program_counter.wrapping_add(1);
}

fn add_carry_flags(a: u8, b: u8, carry_in: u8) -> (flags: u8)
    requires
        carry_in <= 1,
    ensures
        flags == spec_add_carry_flags(a, b, carry_in),
{
    let sum = (a as u16) + (b as u16) + (carry_in as u16);
    let mut flags: u8 = if sum % 0x100 == 0 {
        0x80
    } else {
        0x00
    };
    if ((a & 0x0F) as u16) + ((b & 0x0F) as u16) + (carry_in as u16) > 0x0F {
        flags |= 0x20;
    }
    if sum > 0xFF {
        flags |= 0x10;
    }
    flags
}

/// Subtracting the selected operand and the carry flag from the
/// accumulator, wrapping.
pub open spec fn spec_sub_carry_register(r: Registers, m: MmuView, opcode: u8) -> CpuEffect {
    let operand = spec_alu_operand(r, m, opcode);
    let carry_in = spec_carry_in(r.flags);
    CpuEffect {
        regs: Registers {
            accumulator: ((r.accumulator + 0x200 - operand - carry_in) % 0x100) as u8,
            flags: spec_sub_carry_flags(r.accumulator, operand, carry_in),
            program_counter: pc_plus(r.program_counter, 1),
            ..r
        },
        mem: m,
        cycles: spec_cycle_parse(opcode),
    }
}

pub fn sub_carry_register(system_data: &mut SystemData, registers: &mut Registers, opcode: u8)
    requires
        old(system_data).mmu@.inv(),
    ensures
        applies_effect(
            spec_sub_carry_register(*old(registers), old(system_data).mmu@, opcode),
            *old(system_data),
            *final(system_data),
            *final(registers),
        ),
        final(system_data).mmu@.inv(),
        old(system_data).mmu@.bank_inv() ==> final(system_data).mmu@.bank_inv(),
{
    system_data.cycles = cycle_parse(opcode);
    let operand = alu_operand(system_data, registers, opcode);
    let carry_in: u8 = if registers.flags & 0x10 != 0 {
        1
    } else {
        0
    };
    let a = registers.accumulator;
    registers.flags = sub_carry_flags(a, operand, carry_in);
    let difference = (a as u16) + 0x200 - (operand as u16) - (carry_in as u16);
    registers.accumulator = (difference % 0x100) as u8;
    registers.program_counter = registers.program_counter.wrapping_add(1);
}

fn sub_carry_flags(a: u8, b: u8, carry_in: u8) -> (flags: u8)
    requires
        carry_in <= 1,
    ensures
        flags == spec_sub_carry_flags(a, b, carry_in),
{
    let difference = (a as u16) + 0x200 - (b as u16) - (carry_in as u16);
    let mut flags: u8 = if difference % 0x100 == 0 {
        0xC0
    } else {
        0x40
    };
    if ((a & 0x0F) as u16) < ((b & 0x0F) as u16) + (carry_in as u16) {
        flags |= 0x20;
    }
    if (a as u16) < (b as u16) + (carry_in as u16) {
        flags |= 0x10;
    }
    flags
}

/// The immediate-operand ALU row: opcode bits 5-3 select add, add with
/// carry, subtract, subtract with carry, and, xor, or, or compare, applied
/// between the accumulator and the byte after the opcode.
pub open spec fn spec_accumulator_operation_with_n(r: Registers, m: MmuView, opcode: u8) -> CpuEffect {
    let operand = m.read(pc_plus(r.program_counter, 1) as int, true);
    let kind = (opcode >> 3) & 0x07;
    let carry_in = spec_carry_in(r.flags);
    let a = r.accumulator;
    let result = if kind == 0 {
        ((a + operand) % 0x100) as u8
    } else if kind == 1 {
        ((a + operand + carry_in) % 0x100) as u8
    } else if kind == 2 {
        ((a + 0x100 - operand) % 0x100) as u8
    } else if kind == 3 {
        ((a + 0x200 - operand - carry_in) % 0x100) as u8
    } else if kind == 4 {
        a & operand
    } else if kind == 5 {
        a ^ operand
    } else if kind == 6 {
        a | operand
    } else {
        a
    };
    let flags = if kind == 0 {
        spec_add_flags(a, operand)
    } else if kind == 1 {
        spec_add_carry_flags(a, operand, carry_in)
    } else if kind == 2 || kind == 7 {
        spec_sub_flags(a, operand)
    } else if kind == 3 {
        spec_sub_carry_flags(a, operand, carry_in)
    } else if kind == 4 {
        if result == 0 {
            0xA0u8
        } else {
            0x20u8
        }
    } else {
        if result == 0 {
            0x80u8
        } else {
            0x00u8
        }
    };
    CpuEffect {
        regs: Registers {
            accumulator: result,
            flags: flags,
            program_counter: pc_plus(r.program_counter, 2),
            ..r
        },
        mem: m,
        cycles: spec_cycle_parse(opcode),
    }
}

pub fn accumulator_operation_with_n(
    system_data: &mut SystemData,
    registers: &mut Registers,
    opcode: u8,
)
    requires
        old(system_data).mmu@.inv(),
    ensures
        applies_effect(
            spec_accumulator_operation_with_n(*old(registers), old(system_data).mmu@, opcode),
            *old(system_data),
            *final(system_data),
            *final(registers),
        ),
        final(system_data).mmu@.inv(),
        old(system_data).mmu@.bank_inv() ==> final(system_data).mmu@.bank_inv(),
{
    proof {
        lemma_opcode_field_bounds(opcode);
    }
    system_data.cycles = cycle_parse(opcode);
    let operand_address = registers.program_counter.wrapping_add(1);
    let operand = system_data.mmu.get_from_memory(operand_address as usize, true);
    let kind = (opcode >> 3) & 0x07;
    let carry_in: u8 = if registers.flags & 0x10 != 0 {
        1
    } else {
        0
    };
    let a = registers.accumulator;
    if kind == 0 {
        let mut flags: u8 = if a.wrapping_add(operand) == 0 {
            0x80
        } else {
            0x00
        };
        if ((a & 0x0F) as u16) + ((operand & 0x0F) as u16) > 0x0F {
            flags |= 0x20;
        }
        if (a as u16) + (operand as u16) > 0xFF {
            flags |= 0x10;
        }
        registers.flags = flags;
        registers.accumulator = a.wrapping_add(operand);
    } else if kind == 1 {
        registers.flags = add_carry_flags(a, operand, carry_in);
        let sum = (a as u16) + (operand as u16) + (carry_in as u16);
        registers.accumulator = (sum % 0x100) as u8;
    } else if kind == 2 {
        registers.flags = sub_flags(a, operand);
        registers.accumulator = a.wrapping_sub(operand);
    } else if kind == 3 {
        registers.flags = sub_carry_flags(a, operand, carry_in);
        let difference = (a as u16) + 0x200 - (operand as u16) - (carry_in as u16);
        registers.accumulator = (difference % 0x100) as u8;
    } else if kind == 4 {
        registers.accumulator = a & operand;
        if registers.accumulator == 0 {
            registers.flags = 0xA0;
        } else {
            registers.flags = 0x20;
        }
    } else if kind == 5 {
        registers.accumulator = a ^ operand;
        if registers.accumulator == 0 {
            registers.flags = 0x80;
        } else {
            registers.flags = 0x00;
        }
    } else if kind == 6 {
        registers.accumulator = a | operand;
        if registers.accumulator == 0 {
            registers.flags = 0x80;
        } else {
            registers.flags = 0x00;
        }
    } else {
        registers.flags = sub_flags(a, operand);
    }
    registers.program_counter = registers.program_counter.wrapping_add(2);
}

/// Loading the register selected by opcode bits 5-3 from memory at HL.
pub open spec fn spec_load_register_with_hl_address(
    r: Registers,
    m: MmuView,
    opcode: u8,
) -> CpuEffect {
    let value = m.read(r.spec_get_16(3) as int, true);
    CpuEffect {
        regs: Registers {
            program_counter: pc_plus(r.program_counter, 1),
            ..r.spec_set(reg_index_of_code((opcode >> 3) & 0x07), value)
        },
        mem: m,
        cycles: spec_cycle_parse(opcode),
    }
}

pub fn load_register_with_hl_address(
    system_data: &mut SystemData,
    registers: &mut Registers,
    opcode: u8,
)
    requires
        old(system_data).mmu@.inv(),
    ensures
        applies_effect(
            spec_load_register_with_hl_address(*old(registers), old(system_data).mmu@, opcode),
            *old(system_data),
            *final(system_data),
            *final(registers),
        ),
        final(system_data).mmu@.inv(),
        old(system_data).mmu@.bank_inv() ==> final(system_data).mmu@.bank_inv(),
{
    proof {
        lemma_opcode_field_bounds(opcode);
    }
    let code = (opcode >> 3) & 0x07;
    system_data.cycles = cycle_parse(opcode);
    let address = registers.mapped_16_bit_register_getter(3);
    let value = system_data.mmu.get_from_memory(address as usize, true);
    let index = if code == 7 {
        0
    } else {
        code + 1
    };
    registers.mapped_register_setter(index, value);
    registers.program_counter = registers.program_counter.wrapping_add(1);
}

/// Storing the immediate byte at HL.
pub open spec fn spec_load_hl_address_with_n(r: Registers, m: MmuView) -> CpuEffect {
    let value = m.read(pc_plus(r.program_counter, 1) as int, true);
    CpuEffect {
        regs: Registers { program_counter: pc_plus(r.program_counter, 2), ..r },
        mem: m.write(r.spec_get_16(3) as int, value, true),
        cycles: spec_cycle_parse(0x36),
    }
}

pub fn load_hl_address_with_n(system_data: &mut SystemData, registers: &mut Registers)
    requires
        old(system_data).mmu@.inv(),
    ensures
        applies_effect(
            spec_load_hl_address_with_n(*old(registers), old(system_data).mmu@),
            *old(system_data),
            *final(system_data),
            *final(registers),
        ),
        final(system_data).mmu@.inv(),
        old(system_data).mmu@.bank_inv() ==> final(system_data).mmu@.bank_inv(),
{
    system_data.cycles = cycle_parse(0x36);
    let operand_address = registers.program_counter.wrapping_add(1);
    let value = system_data.mmu.get_from_memory(operand_address as usize, true);
    let address = registers.mapped_16_bit_register_getter(3);
    system_data.mmu.set_to_memory(address as usize, value, true);
    registers.program_counter = registers.program_counter.wrapping_add(2);
}

/// Storing the accumulator at the immediate 16-bit address.
pub open spec fn spec_load_nn_address_with_accumulator(r: Registers, m: MmuView) -> CpuEffect {
    let low = m.read(pc_plus(r.program_counter, 1) as int, true);
    let high = m.read(pc_plus(r.program_counter, 2) as int, true);
    CpuEffect {
        regs: Registers { program_counter: pc_plus(r.program_counter, 3), ..r },
        mem: m.write((((high as u16) << 8) | (low as u16)) as int, r.accumulator, true),
        cycles: spec_cycle_parse(0xEA),
    }
}

pub fn load_nn_address_with_accumulator(system_data: &mut SystemData, registers: &mut Registers)
    requires
        old(system_data).mmu@.inv(),
    ensures
        applies_effect(
            spec_load_nn_address_with_accumulator(*old(registers), old(system_data).mmu@),
            *old(system_data),
            *final(system_data),
            *final(registers),
        ),
        final(system_data).mmu@.inv(),
        old(system_data).mmu@.bank_inv() ==> final(system_data).mmu@.bank_inv(),
{
    system_data.cycles = cycle_parse(0xEA);
    let low_address = registers.program_counter.wrapping_add(1);
    let low = system_data.mmu.get_from_memory(low_address as usize, true);
    let high_address = registers.program_counter.wrapping_add(2);
    let high = system_data.mmu.get_from_memory(high_address as usize, true);
    let address = ((high as u16) << 8) | (low as u16);
    system_data.mmu.set_to_memory(address as usize, registers.accumulator, true);
    registers.program_counter = registers.program_counter.wrapping_add(3);
}

/// Loading the accumulator from the immediate 16-bit address.
pub open spec fn spec_load_accumulator_with_nn_address(r: Registers, m: MmuView) -> CpuEffect {
    let low = m.read(pc_plus(r.program_counter, 1) as int, true);
    let high = m.read(pc_plus(r.program_counter, 2) as int, true);
    CpuEffect {
        regs: Registers {
            accumulator: m.read((((high as u16) << 8) | (low as u16)) as int, true),
            program_counter: pc_plus(r.program_counter, 3),
            ..r
        },
        mem: m,
        cycles: spec_cycle_parse(0xFA),
    }
}

pub fn load_accumulator_with_nn_address(system_data: &mut SystemData, registers: &mut Registers)
    requires
        old(system_data).mmu@.inv(),
    ensures
        applies_effect(
            spec_load_accumulator_with_nn_address(*old(registers), old(system_data).mmu@),
            *old(system_data),
            *final(system_data),
            *final(registers),
        ),
        final(system_data).mmu@.inv(),
        old(system_data).mmu@.bank_inv() ==> final(system_data).mmu@.bank_inv(),
{
    system_data.cycles = cycle_parse(0xFA);
    let low_address = registers.program_counter.wrapping_add(1);
    let low = system_data.mmu.get_from_memory(low_address as usize, true);
    let high_address = registers.program_counter.wrapping_add(2);
    let high = system_data.mmu.get_from_memory(high_address as usize, true);
    let address = ((high as u16) << 8) | (low as u16);
    registers.accumulator = system_data.mmu.get_from_memory(address as usize, true);
    registers.program_counter = registers.program_counter.wrapping_add(3);
}

/// Loading the stack pointer from HL.
pub open spec fn spec_load_stack_pointer_with_hl(r: Registers, m: MmuView) -> CpuEffect {
    CpuEffect {
        regs: Registers {
            stack_pointer: r.spec_get_16(3),
            program_counter: pc_plus(r.program_counter, 1),
            ..r
        },
        mem: m,
        cycles: spec_cycle_parse(0xF9),
    }
}

pub fn load_stack_pointer_with_hl(system_data: &mut SystemData, registers: &mut Registers)
    requires
        old(system_data).mmu@.inv(),
    ensures
        applies_effect(
            spec_load_stack_pointer_with_hl(*old(registers), old(system_data).mmu@),
            *old(system_data),
            *final(system_data),
            *final(registers),
        ),
        final(system_data).mmu@.inv(),
        old(system_data).mmu@.bank_inv() ==> final(system_data).mmu@.bank_inv(),
{
    system_data.cycles = cycle_parse(0xF9);
    registers.stack_pointer = registers.mapped_16_bit_register_getter(3);
    registers.program_counter = registers.program_counter.wrapping_add(1);
}

/// Storing the stack pointer at the immediate 16-bit address, low byte
/// first.
pub open spec fn spec_load_nn_address_with_stack_pointer(r: Registers, m: MmuView) -> CpuEffect {
    let low = m.read(pc_plus(r.program_counter, 1) as int, true);
    let high = m.read(pc_plus(r.program_counter, 2) as int, true);
    let address = (((high as u16) << 8) | (low as u16)) as u16;
    let sp_low = (r.stack_pointer & 0xFF) as u8;
    let sp_high = ((r.stack_pointer >> 8) & 0xFF) as u8;
    CpuEffect {
        regs: Registers { program_counter: pc_plus(r.program_counter, 3), ..r },
        mem: m.write(address as int, sp_low, true).write(
            ((address + 1) % 0x10000) as int,
            sp_high,
            true,
        ),
        cycles: spec_cycle_parse(0x08),
    }
}

#[verifier::rlimit(100)]
pub fn load_nn_address_with_stack_pointer(system_data: &mut SystemData, registers: &mut Registers)
    requires
        old(system_data).mmu@.inv(),
    ensures
        applies_effect(
            spec_load_nn_address_with_stack_pointer(*old(registers), old(system_data).mmu@),
            *old(system_data),
            *final(system_data),
            *final(registers),
        ),
        final(system_data).mmu@.inv(),
        old(system_data).mmu@.bank_inv() ==> final(system_data).mmu@.bank_inv(),
{
    system_data.cycles = cycle_parse(0x08);
    let low_address = registers.program_counter.wrapping_add(1);
    let low = system_data.mmu.get_from_memory(low_address as usize, true);
    let high_address = registers.program_counter.wrapping_add(2);
    let high = system_data.mmu.get_from_memory(high_address as usize, true);
    let address = ((high as u16) << 8) | (low as u16);
    let sp_low = (registers.stack_pointer & 0xFF) as u8;
    let sp_high = ((registers.stack_pointer >> 8) & 0xFF) as u8;
    system_data.mmu.set_to_memory(address as usize, sp_low, true);
    system_data.mmu.set_to_memory(address.wrapping_add(1) as usize, sp_high, true);
    registers.program_counter = registers.program_counter.wrapping_add(3);
}

/// Copying the register selected by the opcode's low three bits into
/// memory at HL.
pub open spec fn spec_load_hl_address_with_register(
    r: Registers,
    m: MmuView,
    opcode: u8,
) -> CpuEffect {
    let value = r.spec_get(reg_index_of_code(opcode & 0x07));
    CpuEffect {
        regs: Registers { program_counter: pc_plus(r.program_counter, 1), ..r },
        mem: m.write(r.spec_get_16(3) as int, value, true),
        cycles: spec_cycle_parse(opcode),
    }
}

pub fn load_hl_address_with_register(
    system_data: &mut SystemData,
    registers: &mut Registers,
    opcode: u8,
)
    requires
        old(system_data).mmu@.inv(),
    ensures
        applies_effect(
            spec_load_hl_address_with_register(*old(registers), old(system_data).mmu@, opcode),
            *old(system_data),
            *final(system_data),
            *final(registers),
        ),
        final(system_data).mmu@.inv(),
        old(system_data).mmu@.bank_inv() ==> final(system_data).mmu@.bank_inv(),
{
    proof {
        lemma_opcode_field_bounds(opcode);
    }
    let code = opcode & 0x07;
    system_data.cycles = cycle_parse(opcode);
    let index = if code == 7 {
        0
    } else {
        code + 1
    };
    let value = registers.mapped_register_getter(index);
    let address = registers.mapped_16_bit_register_getter(3);
    system_data.mmu.set_to_memory(address as usize, value, true);
    registers.program_counter = registers.program_counter.wrapping_add(1);
}

/// Copying one 8-bit register into another, both selected by opcode bits:
/// bits 5-3 the destination, bits 2-0 the source.
pub open spec fn spec_load_8_bit_register_to_register(
    r: Registers,
    m: MmuView,
    opcode: u8,
) -> CpuEffect {
    let value = r.spec_get(reg_index_of_code(opcode & 0x07));
    let destination = reg_index_of_code((opcode >> 3) & 0x07);
    CpuEffect {
        regs: Registers {
            program_counter: pc_plus(r.program_counter, 1),
            ..r.spec_set(destination, value)
        },
        mem: m,
        cycles: spec_cycle_parse(opcode),
    }
}

pub fn load_8_bit_register_to_register(
    system_data: &mut SystemData,
    registers: &mut Registers,
    opcode: u8,
)
    requires
        old(system_data).mmu@.inv(),
    ensures
        applies_effect(
            spec_load_8_bit_register_to_register(*old(registers), old(system_data).mmu@, opcode),
            *old(system_data),
            *final(system_data),
            *final(registers),
        ),
        final(system_data).mmu@.inv(),
        old(system_data).mmu@.bank_inv() ==> final(system_data).mmu@.bank_inv(),
{
    proof {
        lemma_opcode_field_bounds(opcode);
    }
    let source = opcode & 0x07;
    let destination = (opcode >> 3) & 0x07;
    system_data.cycles = cycle_parse(opcode);
    let source_index = if source == 7 {
        0
    } else {
        source + 1
    };
    let destination_index = if destination == 7 {
        0
    } else {
        destination + 1
    };
    let value = registers.mapped_register_getter(source_index);
    registers.mapped_register_setter(destination_index, value);
    registers.program_counter = registers.program_counter.wrapping_add(1);
}

/// Storing the accumulator at HL, then decrementing HL (wrapping).
pub open spec fn spec_load_decrement_hl_register_location_with_accumulator(
    r: Registers,
    m: MmuView,
) -> CpuEffect {
    let address = r.spec_get_16(3);
    let decremented = ((address + 0xFFFF) % 0x10000) as u16;
    CpuEffect {
        regs: Registers {
            program_counter: pc_plus(r.program_counter, 1),
            ..r.spec_set_16(3, decremented)
        },
        mem: m.write(address as int, r.accumulator, true),
        cycles: spec_cycle_parse(0x32),
    }
}

pub fn load_decrement_hl_register_location_with_accumulator(
    system_data: &mut SystemData,
    registers: &mut Registers,
)
    requires
        old(system_data).mmu@.inv(),
    ensures
        applies_effect(
            spec_load_decrement_hl_register_location_with_accumulator(
                *old(registers),
                old(system_data).mmu@,
            ),
            *old(system_data),
            *final(system_data),
            *final(registers),
        ),
        final(system_data).mmu@.inv(),
        old(system_data).mmu@.bank_inv() ==> final(system_data).mmu@.bank_inv(),
{
    system_data.cycles = cycle_parse(0x32);
    let address = registers.mapped_16_bit_register_getter(3);
    system_data.mmu.set_to_memory(address as usize, registers.accumulator, true);
    registers.mapped_16_bit_register_setter(3, address.wrapping_sub(1));
    registers.program_counter = registers.program_counter.wrapping_add(1);
}

/// Loading the accumulator from memory at DE.
pub open spec fn spec_load_accumulator_with_de_address(r: Registers, m: MmuView) -> CpuEffect {
    CpuEffect {
        regs: Registers {
            accumulator: m.read(r.spec_get_16(2) as int, true),
            program_counter: pc_plus(r.program_counter, 1),
            ..r
        },
        mem: m,
        cycles: spec_cycle_parse(0x1A),
    }
}

pub fn load_accumulator_with_de_address(system_data: &mut SystemData, registers: &mut Registers)
    requires
        old(system_data).mmu@.inv(),
    ensures
        applies_effect(
            spec_load_accumulator_with_de_address(*old(registers), old(system_data).mmu@),
            *old(system_data),
            *final(system_data),
            *final(registers),
        ),
        final(system_data).mmu@.inv(),
        old(system_data).mmu@.bank_inv() ==> final(system_data).mmu@.bank_inv(),
{
    system_data.cycles = cycle_parse(0x1A);
    let address = registers.mapped_16_bit_register_getter(2);
    registers.accumulator = system_data.mmu.get_from_memory(address as usize, true);
    registers.program_counter = registers.program_counter.wrapping_add(1);
}

/// Storing the accumulator at the I/O port selected by register C.
pub open spec fn spec_load_accumulator_to_io_port_with_c_offset(
    r: Registers,
    m: MmuView,
) -> CpuEffect {
    CpuEffect {
        regs: Registers { program_counter: pc_plus(r.program_counter, 1), ..r },
        mem: m.write(0xFF00 + r.c_register as int, r.accumulator, true),
        cycles: spec_cycle_parse(0xE2),
    }
}

pub fn load_accumulator_to_io_port_with_c_offset(
    system_data: &mut SystemData,
    registers: &mut Registers,
)
    requires
        old(system_data).mmu@.inv(),
    ensures
        applies_effect(
            spec_load_accumulator_to_io_port_with_c_offset(*old(registers), old(system_data).mmu@),
            *old(system_data),
            *final(system_data),
            *final(registers),
        ),
        final(system_data).mmu@.inv(),
        old(system_data).mmu@.bank_inv() ==> final(system_data).mmu@.bank_inv(),
{
    system_data.cycles = cycle_parse(0xE2);
    let address = 0xFF00 + (registers.c_register as usize);
    system_data.mmu.set_to_memory(address, registers.accumulator, true);
    registers.program_counter = registers.program_counter.wrapping_add(1);
}

/// Storing the accumulator at the I/O port selected by the immediate byte.
pub open spec fn spec_load_accumulator_to_io_port_with_n_offset(
    r: Registers,
    m: MmuView,
) -> CpuEffect {
    let offset = m.read(pc_plus(r.program_counter, 1) as int, true);
    CpuEffect {
        regs: Registers { program_counter: pc_plus(r.program_counter, 2), ..r },
        mem: m.write(0xFF00 + offset as int, r.accumulator, true),
        cycles: spec_cycle_parse(0xE0),
    }
}

pub fn load_accumulator_to_io_port_with_n_offset(
    system_data: &mut SystemData,
    registers: &mut Registers,
)
    requires
        old(system_data).mmu@.inv(),
    ensures
        applies_effect(
            spec_load_accumulator_to_io_port_with_n_offset(*old(registers), old(system_data).mmu@),
            *old(system_data),
            *final(system_data),
            *final(registers),
        ),
        final(system_data).mmu@.inv(),
        old(system_data).mmu@.bank_inv() ==> final(system_data).mmu@.bank_inv(),
{
    system_data.cycles = cycle_parse(0xE0);
    let operand_address = registers.program_counter.wrapping_add(1);
    let offset = system_data.mmu.get_from_memory(operand_address as usize, true);
    let address = 0xFF00 + (offset as usize);
    system_data.mmu.set_to_memory(address, registers.accumulator, true);
    registers.program_counter = registers.program_counter.wrapping_add(2);
}

/// Where a relative jump lands: a displacement below `0x80` adds to the
/// program counter past the 2-byte instruction; a displacement of `0x80`
/// or above is sign-extended and subtracts.  The counter wraps at the top
/// of the address space.
pub open spec fn spec_relative_jump_target(pc: u16, displacement: u8) -> u16 {
    if displacement < 0x80 {
        ((pc + 2 + displacement) % 0x10000) as u16
    } else {
        ((pc + 2 + displacement - 0x100) % 0x10000) as u16
    }
}

/// A relative jump: taken, the displacement byte moves the program
/// counter; not taken, the counter just passes the instruction.  The
/// table's stated cost applies either way.
pub open spec fn spec_jump_displacement(r: Registers, m: MmuView, opcode: u8, take: bool) -> CpuEffect {
    let displacement = m.read(pc_plus(r.program_counter, 1) as int, true);
    let next = if take {
        spec_relative_jump_target(r.program_counter, displacement)
    } else {
        pc_plus(r.program_counter, 2)
    };
    CpuEffect {
        regs: Registers { program_counter: next, ..r },
        mem: m,
        cycles: spec_cycle_parse(opcode),
    }
}

fn jump_displacement_core(
    system_data: &mut SystemData,
    registers: &mut Registers,
    opcode: u8,
    take: bool,
)
    requires
        old(system_data).mmu@.inv(),
    ensures
        applies_effect(
            spec_jump_displacement(*old(registers), old(system_data).mmu@, opcode, take),
            *old(system_data),
            *final(system_data),
            *final(registers),
        ),
        final(system_data).mmu@.inv(),
        old(system_data).mmu@.bank_inv() ==> final(system_data).mmu@.bank_inv(),
{
    system_data.cycles = cycle_parse(opcode);
    let operand_address = registers.program_counter.wrapping_add(1);
    let displacement = system_data.mmu.get_from_memory(operand_address as usize, true);
    if take {
        let extended: u32 = if displacement < 0x80 {
            displacement as u32
        } else {
            displacement as u32 + 0xFF00
        };
        let target = ((registers.program_counter as u32 + 2 + extended) % 0x10000) as u16;
        proof {
            let pc = old(registers).program_counter;
            if displacement >= 0x80 {
                vstd::arithmetic::div_mod::lemma_mod_add_multiples_vanish(
                    pc + 2 + displacement - 0x100,
                    0x10000,
                );
            }
        }
        registers.program_counter = target;
    } else {
        registers.program_counter = registers.program_counter.wrapping_add(2);
    }
}

pub fn jump_displacement(system_data: &mut SystemData, registers: &mut Registers)
    requires
        old(system_data).mmu@.inv(),
    ensures
        applies_effect(
            spec_jump_displacement(*old(registers), old(system_data).mmu@, 0x18, true),
            *old(system_data),
            *final(system_data),
            *final(registers),
        ),
        final(system_data).mmu@.inv(),
        old(system_data).mmu@.bank_inv() ==> final(system_data).mmu@.bank_inv(),
{
    jump_displacement_core(system_data, registers, 0x18, true);
}

pub fn jump_displacement_on_nonzero_flag(system_data: &mut SystemData, registers: &mut Registers)
    requires
        old(system_data).mmu@.inv(),
    ensures
        applies_effect(
            spec_jump_displacement(
                *old(registers),
                old(system_data).mmu@,
                0x20,
                old(registers).flags & 0x80 == 0,
            ),
            *old(system_data),
            *final(system_data),
            *final(registers),
        ),
        final(system_data).mmu@.inv(),
        old(system_data).mmu@.bank_inv() ==> final(system_data).mmu@.bank_inv(),
{
    let take = registers.flags & 0x80 == 0;
    jump_displacement_core(system_data, registers, 0x20, take);
}

pub fn jump_displacement_on_zero_flag(system_data: &mut SystemData, registers: &mut Registers)
    requires
        old(system_data).mmu@.inv(),
    ensures
        applies_effect(
            spec_jump_displacement(
                *old(registers),
                old(system_data).mmu@,
                0x28,
                old(registers).flags & 0x80 != 0,
            ),
            *old(system_data),
            *final(system_data),
            *final(registers),
        ),
        final(system_data).mmu@.inv(),
        old(system_data).mmu@.bank_inv() ==> final(system_data).mmu@.bank_inv(),
{
    let take = registers.flags & 0x80 != 0;
    jump_displacement_core(system_data, registers, 0x28, take);
}

pub fn jump_displacement_on_no_carry_flag(system_data: &mut SystemData, registers: &mut Registers)
    requires
        old(system_data).mmu@.inv(),
    ensures
        applies_effect(
            spec_jump_displacement(
                *old(registers),
                old(system_data).mmu@,
                0x30,
                old(registers).flags & 0x10 == 0,
            ),
            *old(system_data),
            *final(system_data),
            *final(registers),
        ),
        final(system_data).mmu@.inv(),
        old(system_data).mmu@.bank_inv() ==> final(system_data).mmu@.bank_inv(),
{
    let take = registers.flags & 0x10 == 0;
    jump_displacement_core(system_data, registers, 0x30, take);
}

pub fn jump_displacement_on_carry_flag(system_data: &mut SystemData, registers: &mut Registers)
    requires
        old(system_data).mmu@.inv(),
    ensures
        applies_effect(
            spec_jump_displacement(
                *old(registers),
                old(system_data).mmu@,
                0x38,
                old(registers).flags & 0x10 != 0,
            ),
            *old(system_data),
            *final(system_data),
            *final(registers),
        ),
        final(system_data).mmu@.inv(),
        old(system_data).mmu@.bank_inv() ==> final(system_data).mmu@.bank_inv(),
{
    let take = registers.flags & 0x10 != 0;
    jump_displacement_core(system_data, registers, 0x38, take);
}

/// The four accumulator rotates, selected by opcode bits 4-3: left or
/// right, plain (the shifted-out bit re-enters) or through the carry flag
/// (the old carry enters, the shifted-out bit leaves).  Only the Carry
/// flag can come out set, holding the shifted-out bit.
pub open spec fn spec_rotate_accumulator(r: Registers, m: MmuView, opcode: u8) -> CpuEffect {
    let carry_in: u8 = if r.flags & 0x10 != 0 {
        1
    } else {
        0
    };
    let a = r.accumulator;
    let variant = (opcode >> 3) & 0x03;
    let rotated = if variant == 0 {
        (a << 1) | (a >> 7)
    } else if variant == 1 {
        (a >> 1) | (a << 7)
    } else if variant == 2 {
        (a << 1) | carry_in
    } else {
        (a >> 1) | (carry_in << 7)
    };
    let carry_out = if variant == 0 || variant == 2 {
        a >> 7
    } else {
        a & 0x01
    };
    CpuEffect {
        regs: Registers {
            accumulator: rotated,
            flags: if carry_out != 0 {
                0x10
            } else {
                0x00
            },
            program_counter: pc_plus(r.program_counter, 1),
            ..r
        },
        mem: m,
        cycles: spec_cycle_parse(opcode),
    }
}

pub fn rotate_accumulator(system_data: &mut SystemData, registers: &mut Registers, opcode: u8)
    requires
        old(system_data).mmu@.inv(),
    ensures
        applies_effect(
            spec_rotate_accumulator(*old(registers), old(system_data).mmu@, opcode),
            *old(system_data),
            *final(system_data),
            *final(registers),
        ),
        final(system_data).mmu@.inv(),
        old(system_data).mmu@.bank_inv() ==> final(system_data).mmu@.bank_inv(),
{
    let carry_in: u8 = if registers.flags & 0x10 != 0 {
        1
    } else {
        0
    };
    let a = registers.accumulator;
    let variant = (opcode >> 3) & 0x03;
    system_data.cycles = cycle_parse(opcode);
    let rotated = if variant == 0 {
        (a << 1) | (a >> 7)
    } else if variant == 1 {
        (a >> 1) | (a << 7)
    } else if variant == 2 {
        (a << 1) | carry_in
    } else {
        (a >> 1) | (carry_in << 7)
    };
    let carry_out = if variant == 0 || variant == 2 {
        a >> 7
    } else {
        a & 0x01
    };
    registers.accumulator = rotated;
    if carry_out != 0 {
        registers.flags = 0x10;
    } else {
        registers.flags = 0x00;
    }
    registers.program_counter = registers.program_counter.wrapping_add(1);
}

/// Incrementing the pair selected by opcode bits 5-4 (BC, DE, HL or the
/// stack pointer), wrapping, with no flag effect.
pub open spec fn spec_increment_16_bit_register(r: Registers, m: MmuView, opcode: u8) -> CpuEffect {
    let pair = (((opcode >> 4) & 0x03) + 1) as u8;
    let value = ((r.spec_get_16(pair) + 1) % 0x10000) as u16;
    CpuEffect {
        regs: Registers { program_counter: pc_plus(r.program_counter, 1), ..r.spec_set_16(pair, value) },
        mem: m,
        cycles: spec_cycle_parse(opcode),
    }
}

pub fn increment_16_bit_register(system_data: &mut SystemData, registers: &mut Registers, opcode: u8)
    requires
        old(system_data).mmu@.inv(),
    ensures
        applies_effect(
            spec_increment_16_bit_register(*old(registers), old(system_data).mmu@, opcode),
            *old(system_data),
            *final(system_data),
            *final(registers),
        ),
        final(system_data).mmu@.inv(),
        old(system_data).mmu@.bank_inv() ==> final(system_data).mmu@.bank_inv(),
{
    proof {
        lemma_opcode_field_bounds(opcode);
    }
    let pair = ((opcode >> 4) & 0x03) + 1;
    system_data.cycles = cycle_parse(opcode);
    let value = registers.mapped_16_bit_register_getter(pair);
    registers.mapped_16_bit_register_setter(pair, value.wrapping_add(1));
    registers.program_counter = registers.program_counter.wrapping_add(1);
}

/// Decrementing the pair selected by opcode bits 5-4, wrapping, with no
/// flag effect.
pub open spec fn spec_decrement_16_bit_register(r: Registers, m: MmuView, opcode: u8) -> CpuEffect {
    let pair = (((opcode >> 4) & 0x03) + 1) as u8;
    let value = ((r.spec_get_16(pair) + 0xFFFF) % 0x10000) as u16;
    CpuEffect {
        regs: Registers { program_counter: pc_plus(r.program_counter, 1), ..r.spec_set_16(pair, value) },
        mem: m,
        cycles: spec_cycle_parse(opcode),
    }
}

pub fn decrement_16_bit_register(system_data: &mut SystemData, registers: &mut Registers, opcode: u8)
    requires
        old(system_data).mmu@.inv(),
    ensures
        applies_effect(
            spec_decrement_16_bit_register(*old(registers), old(system_data).mmu@, opcode),
            *old(system_data),
            *final(system_data),
            *final(registers),
        ),
        final(system_data).mmu@.inv(),
        old(system_data).mmu@.bank_inv() ==> final(system_data).mmu@.bank_inv(),
{
    proof {
        lemma_opcode_field_bounds(opcode);
    }
    let pair = ((opcode >> 4) & 0x03) + 1;
    system_data.cycles = cycle_parse(opcode);
    let value = registers.mapped_16_bit_register_getter(pair);
    registers.mapped_16_bit_register_setter(pair, value.wrapping_sub(1));
    registers.program_counter = registers.program_counter.wrapping_add(1);
}

/// Loading the accumulator from memory at BC.
pub open spec fn spec_load_accumulator_with_bc_address(r: Registers, m: MmuView) -> CpuEffect {
    CpuEffect {
        regs: Registers {
            accumulator: m.read(r.spec_get_16(1) as int, true),
            program_counter: pc_plus(r.program_counter, 1),
            ..r
        },
        mem: m,
        cycles: spec_cycle_parse(0x0A),
    }
}

pub fn load_accumulator_with_bc_address(system_data: &mut SystemData, registers: &mut Registers)
    requires
        old(system_data).mmu@.inv(),
    ensures
        applies_effect(
            spec_load_accumulator_with_bc_address(*old(registers), old(system_data).mmu@),
            *old(system_data),
            *final(system_data),
            *final(registers),
        ),
        final(system_data).mmu@.inv(),
        old(system_data).mmu@.bank_inv() ==> final(system_data).mmu@.bank_inv(),
{
    system_data.cycles = cycle_parse(0x0A);
    let address = registers.mapped_16_bit_register_getter(1);
    registers.accumulator = system_data.mmu.get_from_memory(address as usize, true);
    registers.program_counter = registers.program_counter.wrapping_add(1);
}

/// Storing the accumulator at the pair-addressed location, used by the BC
/// and DE store forms.
pub open spec fn spec_store_accumulator_at_pair(
    r: Registers,
    m: MmuView,
    pair: u8,
    opcode: u8,
) -> CpuEffect {
    CpuEffect {
        regs: Registers { program_counter: pc_plus(r.program_counter, 1), ..r },
        mem: m.write(r.spec_get_16(pair) as int, r.accumulator, true),
        cycles: spec_cycle_parse(opcode),
    }
}

pub fn load_bc_address_with_accumulator(system_data: &mut SystemData, registers: &mut Registers)
    requires
        old(system_data).mmu@.inv(),
    ensures
        applies_effect(
            spec_store_accumulator_at_pair(*old(registers), old(system_data).mmu@, 1, 0x02),
            *old(system_data),
            *final(system_data),
            *final(registers),
        ),
        final(system_data).mmu@.inv(),
        old(system_data).mmu@.bank_inv() ==> final(system_data).mmu@.bank_inv(),
{
    system_data.cycles = cycle_parse(0x02);
    let address = registers.mapped_16_bit_register_getter(1);
    system_data.mmu.set_to_memory(address as usize, registers.accumulator, true);
    registers.program_counter = registers.program_counter.wrapping_add(1);
}

pub fn load_de_address_with_accumulator(system_data: &mut SystemData, registers: &mut Registers)
    requires
        old(system_data).mmu@.inv(),
    ensures
        applies_effect(
            spec_store_accumulator_at_pair(*old(registers), old(system_data).mmu@, 2, 0x12),
            *old(system_data),
            *final(system_data),
            *final(registers),
        ),
        final(system_data).mmu@.inv(),
        old(system_data).mmu@.bank_inv() ==> final(system_data).mmu@.bank_inv(),
{
    system_data.cycles = cycle_parse(0x12);
    let address = registers.mapped_16_bit_register_getter(2);
    system_data.mmu.set_to_memory(address as usize, registers.accumulator, true);
    registers.program_counter = registers.program_counter.wrapping_add(1);
}

/// Storing the accumulator at HL, then incrementing HL (wrapping).
pub open spec fn spec_load_increment_hl_register_location_with_accumulator(
    r: Registers,
    m: MmuView,
) -> CpuEffect {
    let address = r.spec_get_16(3);
    let incremented = ((address + 1) % 0x10000) as u16;
    CpuEffect {
        regs: Registers {
            program_counter: pc_plus(r.program_counter, 1),
            ..r.spec_set_16(3, incremented)
        },
        mem: m.write(address as int, r.accumulator, true),
        cycles: spec_cycle_parse(0x22),
    }
}

pub fn load_increment_hl_register_location_with_accumulator(
    system_data: &mut SystemData,
    registers: &mut Registers,
)
    requires
        old(system_data).mmu@.inv(),
    ensures
        applies_effect(
            spec_load_increment_hl_register_location_with_accumulator(
                *old(registers),
                old(system_data).mmu@,
            ),
            *old(system_data),
            *final(system_data),
            *final(registers),
        ),
        final(system_data).mmu@.inv(),
        old(system_data).mmu@.bank_inv() ==> final(system_data).mmu@.bank_inv(),
{
    system_data.cycles = cycle_parse(0x22);
    let address = registers.mapped_16_bit_register_getter(3);
    system_data.mmu.set_to_memory(address as usize, registers.accumulator, true);
    registers.mapped_16_bit_register_setter(3, address.wrapping_add(1));
    registers.program_counter = registers.program_counter.wrapping_add(1);
}

/// Loading the accumulator from memory at HL, then moving HL by one
/// (wrapping): up for the increment form, down for the decrement form.
pub open spec fn spec_load_accumulator_with_hl_address_step(
    r: Registers,
    m: MmuView,
    up: bool,
    opcode: u8,
) -> CpuEffect {
    let address = r.spec_get_16(3);
    let moved = if up {
        ((address + 1) % 0x10000) as u16
    } else {
        ((address + 0xFFFF) % 0x10000) as u16
    };
    CpuEffect {
        regs: Registers {
            accumulator: m.read(address as int, true),
            program_counter: pc_plus(r.program_counter, 1),
            ..r.spec_set_16(3, moved)
        },
        mem: m,
        cycles: spec_cycle_parse(opcode),
    }
}

pub fn load_accumulator_with_hl_address_increment(
    system_data: &mut SystemData,
    registers: &mut Registers,
)
    requires
        old(system_data).mmu@.inv(),
    ensures
        applies_effect(
            spec_load_accumulator_with_hl_address_step(
                *old(registers),
                old(system_data).mmu@,
                true,
                0x2A,
            ),
            *old(system_data),
            *final(system_data),
            *final(registers),
        ),
        final(system_data).mmu@.inv(),
        old(system_data).mmu@.bank_inv() ==> final(system_data).mmu@.bank_inv(),
{
    system_data.cycles = cycle_parse(0x2A);
    let address = registers.mapped_16_bit_register_getter(3);
    registers.accumulator = system_data.mmu.get_from_memory(address as usize, true);
    registers.mapped_16_bit_register_setter(3, address.wrapping_add(1));
    registers.program_counter = registers.program_counter.wrapping_add(1);
}

pub fn load_accumulator_with_hl_address_decrement(
    system_data: &mut SystemData,
    registers: &mut Registers,
)
    requires
        old(system_data).mmu@.inv(),
    ensures
        applies_effect(
            spec_load_accumulator_with_hl_address_step(
                *old(registers),
                old(system_data).mmu@,
                false,
                0x3A,
            ),
            *old(system_data),
            *final(system_data),
            *final(registers),
        ),
        final(system_data).mmu@.inv(),
        old(system_data).mmu@.bank_inv() ==> final(system_data).mmu@.bank_inv(),
{
    system_data.cycles = cycle_parse(0x3A);
    let address = registers.mapped_16_bit_register_getter(3);
    registers.accumulator = system_data.mmu.get_from_memory(address as usize, true);
    registers.mapped_16_bit_register_setter(3, address.wrapping_sub(1));
    registers.program_counter = registers.program_counter.wrapping_add(1);
}

/// Loading the accumulator from the I/O port selected by the immediate
/// byte.
pub open spec fn spec_load_accumulator_with_io_port_n_offset(
    r: Registers,
    m: MmuView,
) -> CpuEffect {
    let offset = m.read(pc_plus(r.program_counter, 1) as int, true);
    CpuEffect {
        regs: Registers {
            accumulator: m.read(0xFF00 + offset as int, true),
            program_counter: pc_plus(r.program_counter, 2),
            ..r
        },
        mem: m,
        cycles: spec_cycle_parse(0xF0),
    }
}

pub fn load_accumulator_with_io_port_n_offset(
    system_data: &mut SystemData,
    registers: &mut Registers,
)
    requires
        old(system_data).mmu@.inv(),
    ensures
        applies_effect(
            spec_load_accumulator_with_io_port_n_offset(*old(registers), old(system_data).mmu@),
            *old(system_data),
            *final(system_data),
            *final(registers),
        ),
        final(system_data).mmu@.inv(),
        old(system_data).mmu@.bank_inv() ==> final(system_data).mmu@.bank_inv(),
{
    system_data.cycles = cycle_parse(0xF0);
    let operand_address = registers.program_counter.wrapping_add(1);
    let offset = system_data.mmu.get_from_memory(operand_address as usize, true);
    let address = 0xFF00 + (offset as usize);
    registers.accumulator = system_data.mmu.get_from_memory(address, true);
    registers.program_counter = registers.program_counter.wrapping_add(2);
}

/// Loading the accumulator from the I/O port selected by register C.
pub open spec fn spec_load_accumulator_with_io_port_c_offset(
    r: Registers,
    m: MmuView,
) -> CpuEffect {
    CpuEffect {
        regs: Registers {
            accumulator: m.read(0xFF00 + r.c_register as int, true),
            program_counter: pc_plus(r.program_counter, 1),
            ..r
        },
        mem: m,
        cycles: spec_cycle_parse(0xF2),
    }
}

pub fn load_accumulator_with_io_port_c_offset(
    system_data: &mut SystemData,
    registers: &mut Registers,
)
    requires
        old(system_data).mmu@.inv(),
    ensures
        applies_effect(
            spec_load_accumulator_with_io_port_c_offset(*old(registers), old(system_data).mmu@),
            *old(system_data),
            *final(system_data),
            *final(registers),
        ),
        final(system_data).mmu@.inv(),
        old(system_data).mmu@.bank_inv() ==> final(system_data).mmu@.bank_inv(),
{
    system_data.cycles = cycle_parse(0xF2);
    let address = 0xFF00 + (registers.c_register as usize);
    registers.accumulator = system_data.mmu.get_from_memory(address, true);
    registers.program_counter = registers.program_counter.wrapping_add(1);
}

/// Complementing the accumulator: every bit flips, the Subtract and
/// Half-carry flags come out set, Zero and Carry are preserved.
pub open spec fn spec_complement_accumulator(r: Registers, m: MmuView) -> CpuEffect {
    CpuEffect {
        regs: Registers {
            accumulator: r.accumulator ^ 0xFF,
            flags: r.flags | 0x60,
            program_counter: pc_plus(r.program_counter, 1),
            ..r
        },
        mem: m,
        cycles: spec_cycle_parse(0x2F),
    }
}

pub fn complement_accumulator(system_data: &mut SystemData, registers: &mut Registers)
    requires
        old(system_data).mmu@.inv(),
    ensures
        applies_effect(
            spec_complement_accumulator(*old(registers), old(system_data).mmu@),
            *old(system_data),
            *final(system_data),
            *final(registers),
        ),
        final(system_data).mmu@.inv(),
        old(system_data).mmu@.bank_inv() ==> final(system_data).mmu@.bank_inv(),
{
    system_data.cycles = cycle_parse(0x2F);
    registers.accumulator ^= 0xFF;
    registers.flags |= 0x60;
    registers.program_counter = registers.program_counter.wrapping_add(1);
}

/// Setting the Carry flag: Subtract and Half-carry clear, Zero preserved.
pub open spec fn spec_set_carry_flag(r: Registers, m: MmuView) -> CpuEffect {
    CpuEffect {
        regs: Registers {
            flags: (r.flags & 0x80) | 0x10,
            program_counter: pc_plus(r.program_counter, 1),
            ..r
        },
        mem: m,
        cycles: spec_cycle_parse(0x37),
    }
}

pub fn set_carry_flag(system_data: &mut SystemData, registers: &mut Registers)
    requires
        old(system_data).mmu@.inv(),
    ensures
        applies_effect(
            spec_set_carry_flag(*old(registers), old(system_data).mmu@),
            *old(system_data),
            *final(system_data),
            *final(registers),
        ),
        final(system_data).mmu@.inv(),
        old(system_data).mmu@.bank_inv() ==> final(system_data).mmu@.bank_inv(),
{
    system_data.cycles = cycle_parse(0x37);
    registers.flags = (registers.flags & 0x80) | 0x10;
    registers.program_counter = registers.program_counter.wrapping_add(1);
}

/// Complementing the Carry flag: Subtract and Half-carry clear, Zero
/// preserved.
pub open spec fn spec_complement_carry_flag(r: Registers, m: MmuView) -> CpuEffect {
    CpuEffect {
        regs: Registers {
            flags: (r.flags & 0x80) | ((r.flags & 0x10) ^ 0x10),
            program_counter: pc_plus(r.program_counter, 1),
            ..r
        },
        mem: m,
        cycles: spec_cycle_parse(0x3F),
    }
}

pub fn complement_carry_flag(system_data: &mut SystemData, registers: &mut Registers)
    requires
        old(system_data).mmu@.inv(),
    ensures
        applies_effect(
            spec_complement_carry_flag(*old(registers), old(system_data).mmu@),
            *old(system_data),
            *final(system_data),
            *final(registers),
        ),
        final(system_data).mmu@.inv(),
        old(system_data).mmu@.bank_inv() ==> final(system_data).mmu@.bank_inv(),
{
    system_data.cycles = cycle_parse(0x3F);
    registers.flags = (registers.flags & 0x80) | ((registers.flags & 0x10) ^ 0x10);
    registers.program_counter = registers.program_counter.wrapping_add(1);
}

/// The absolute jump: an immediate 16-bit target, low byte first.
pub open spec fn spec_jump_nn(r: Registers, m: MmuView) -> CpuEffect {
    let low = m.read(pc_plus(r.program_counter, 1) as int, true);
    let high = m.read(pc_plus(r.program_counter, 2) as int, true);
    CpuEffect {
        regs: Registers { program_counter: (((high as u16) << 8) | (low as u16)) as u16, ..r },
        mem: m,
        cycles: spec_cycle_parse(0xC3),
    }
}

pub fn jump_nn(system_data: &mut SystemData, registers: &mut Registers)
    requires
        old(system_data).mmu@.inv(),
    ensures
        applies_effect(
            spec_jump_nn(*old(registers), old(system_data).mmu@),
            *old(system_data),
            *final(system_data),
            *final(registers),
        ),
        final(system_data).mmu@.inv(),
        old(system_data).mmu@.bank_inv() ==> final(system_data).mmu@.bank_inv(),
{
    system_data.cycles = cycle_parse(0xC3);
    let low_address = registers.program_counter.wrapping_add(1);
    let low = system_data.mmu.get_from_memory(low_address as usize, true);
    let high_address = registers.program_counter.wrapping_add(2);
    let high = system_data.mmu.get_from_memory(high_address as usize, true);
    registers.program_counter = ((high as u16) << 8) | (low as u16);
}

/// The opcode's pair code for the stack group orders BC, DE, HL, AF; the
/// register file's pair table is ordered AF, BC, DE, HL, SP.
pub open spec fn pair_index_of_stack_code(code: u8) -> u8 {
    if code == 3 {
        0
    } else {
        (code + 1) as u8
    }
}

/// Pushing the pair selected by opcode bits 5-4 (BC, DE, HL or AF): high
/// byte at the decremented stack pointer, low byte below it.
pub open spec fn spec_push_16bit_register(r: Registers, m: MmuView, opcode: u8) -> CpuEffect {
    let pair = pair_index_of_stack_code((opcode >> 4) & 0x03);
    let value = r.spec_get_16(pair);
    let high = ((value >> 8) & 0xFF) as u8;
    let low = (value & 0xFF) as u8;
    let sp1 = ((r.stack_pointer + 0xFFFF) % 0x10000) as u16;
    let sp2 = ((r.stack_pointer + 0xFFFE) % 0x10000) as u16;
    CpuEffect {
        regs: Registers {
            stack_pointer: sp2,
            program_counter: pc_plus(r.program_counter, 1),
            ..r
        },
        mem: m.write(sp1 as int, high, true).write(sp2 as int, low, true),
        cycles: spec_cycle_parse(opcode),
    }
}

#[verifier::rlimit(100)]
pub fn push_16bit_register(system_data: &mut SystemData, registers: &mut Registers, opcode: u8)
    requires
        old(system_data).mmu@.inv(),
    ensures
        applies_effect(
            spec_push_16bit_register(*old(registers), old(system_data).mmu@, opcode),
            *old(system_data),
            *final(system_data),
            *final(registers),
        ),
        final(system_data).mmu@.inv(),
        old(system_data).mmu@.bank_inv() ==> final(system_data).mmu@.bank_inv(),
{
    proof {
        lemma_opcode_field_bounds(opcode);
    }
    let code = (opcode >> 4) & 0x03;
    system_data.cycles = cycle_parse(opcode);
    let pair = if code == 3 {
        0
    } else {
        code + 1
    };
    let value = registers.mapped_16_bit_register_getter(pair);
    let high = ((value >> 8) & 0xFF) as u8;
    let low = (value & 0xFF) as u8;
    let sp1 = registers.stack_pointer.wrapping_sub(1);
    system_data.mmu.set_to_memory(sp1 as usize, high, true);
    let sp2 = registers.stack_pointer.wrapping_sub(2);
    system_data.mmu.set_to_memory(sp2 as usize, low, true);
    registers.stack_pointer = sp2;
    registers.program_counter = registers.program_counter.wrapping_add(1);
}

/// Popping into the pair selected by opcode bits 5-4 (BC, DE, HL or AF):
/// low byte from the stack pointer, high byte above it.  A pop into AF
/// keeps the flags register's low nibble zero.
pub open spec fn spec_pop_16bit_register(r: Registers, m: MmuView, opcode: u8) -> CpuEffect {
    let pair = pair_index_of_stack_code((opcode >> 4) & 0x03);
    let low = m.read(r.stack_pointer as int, true);
    let high = m.read(((r.stack_pointer + 1) % 0x10000) as int, true);
    let value = (((high as u16) << 8) | (low as u16)) as u16;
    let stored = if pair == 0 {
        (value & 0xFFF0) as u16
    } else {
        value
    };
    CpuEffect {
        regs: Registers {
            stack_pointer: ((r.stack_pointer + 2) % 0x10000) as u16,
            program_counter: pc_plus(r.program_counter, 1),
            ..r.spec_set_16(pair, stored)
        },
        mem: m,
        cycles: spec_cycle_parse(opcode),
    }
}

pub fn pop_16bit_register(system_data: &mut SystemData, registers: &mut Registers, opcode: u8)
    requires
        old(system_data).mmu@.inv(),
    ensures
        applies_effect(
            spec_pop_16bit_register(*old(registers), old(system_data).mmu@, opcode),
            *old(system_data),
            *final(system_data),
            *final(registers),
        ),
        final(system_data).mmu@.inv(),
        old(system_data).mmu@.bank_inv() ==> final(system_data).mmu@.bank_inv(),
{
    proof {
        lemma_opcode_field_bounds(opcode);
    }
    let code = (opcode >> 4) & 0x03;
    system_data.cycles = cycle_parse(opcode);
    let pair = if code == 3 {
        0
    } else {
        code + 1
    };
    let low = system_data.mmu.get_from_memory(registers.stack_pointer as usize, true);
    let high_address = registers.stack_pointer.wrapping_add(1);
    let high = system_data.mmu.get_from_memory(high_address as usize, true);
    let value = ((high as u16) << 8) | (low as u16);
    let stored = if pair == 0 {
        value & 0xFFF0
    } else {
        value
    };
    registers.mapped_16_bit_register_setter(pair, stored);
    registers.stack_pointer = registers.stack_pointer.wrapping_add(2);
    registers.program_counter = registers.program_counter.wrapping_add(1);
}

/// The unconditional call: the address past the 3-byte instruction is
/// pushed (high byte first) and control moves to the immediate target.
pub open spec fn spec_call_nn(r: Registers, m: MmuView) -> CpuEffect {
    let low = m.read(pc_plus(r.program_counter, 1) as int, true);
    let high = m.read(pc_plus(r.program_counter, 2) as int, true);
    let next = pc_plus(r.program_counter, 3);
    let next_high = ((next >> 8) & 0xFF) as u8;
    let next_low = (next & 0xFF) as u8;
    let sp1 = ((r.stack_pointer + 0xFFFF) % 0x10000) as u16;
    let sp2 = ((r.stack_pointer + 0xFFFE) % 0x10000) as u16;
    CpuEffect {
        regs: Registers {
            stack_pointer: sp2,
            program_counter: (((high as u16) << 8) | (low as u16)) as u16,
            ..r
        },
        mem: m.write(sp1 as int, next_high, true).write(sp2 as int, next_low, true),
        cycles: spec_cycle_parse(0xCD),
    }
}

#[verifier::rlimit(100)]
pub fn call_nn(system_data: &mut SystemData, registers: &mut Registers)
    requires
        old(system_data).mmu@.inv(),
    ensures
        applies_effect(
            spec_call_nn(*old(registers), old(system_data).mmu@),
            *old(system_data),
            *final(system_data),
            *final(registers),
        ),
        final(system_data).mmu@.inv(),
        old(system_data).mmu@.bank_inv() ==> final(system_data).mmu@.bank_inv(),
{
    system_data.cycles = cycle_parse(0xCD);
    let low_address = registers.program_counter.wrapping_add(1);
    let low = system_data.mmu.get_from_memory(low_address as usize, true);
    let high_address = registers.program_counter.wrapping_add(2);
    let high = system_data.mmu.get_from_memory(high_address as usize, true);
    let next = registers.program_counter.wrapping_add(3);
    let next_high = ((next >> 8) & 0xFF) as u8;
    let next_low = (next & 0xFF) as u8;
    let sp1 = registers.stack_pointer.wrapping_sub(1);
    system_data.mmu.set_to_memory(sp1 as usize, next_high, true);
    let sp2 = registers.stack_pointer.wrapping_sub(2);
    system_data.mmu.set_to_memory(sp2 as usize, next_low, true);
    registers.stack_pointer = sp2;
    registers.program_counter = ((high as u16) << 8) | (low as u16);
}

/// The unconditional return: the program counter is popped, low byte from
/// the stack pointer, high byte above it.
pub open spec fn spec_return_from_call(r: Registers, m: MmuView) -> CpuEffect {
    let low = m.read(r.stack_pointer as int, true);
    let high = m.read(((r.stack_pointer + 1) % 0x10000) as int, true);
    CpuEffect {
        regs: Registers {
            stack_pointer: ((r.stack_pointer + 2) % 0x10000) as u16,
            program_counter: (((high as u16) << 8) | (low as u16)) as u16,
            ..r
        },
        mem: m,
        cycles: spec_cycle_parse(0xC9),
    }
}

pub fn return_from_call(system_data: &mut SystemData, registers: &mut Registers)
    requires
        old(system_data).mmu@.inv(),
    ensures
        applies_effect(
            spec_return_from_call(*old(registers), old(system_data).mmu@),
            *old(system_data),
            *final(system_data),
            *final(registers),
        ),
        final(system_data).mmu@.inv(),
        old(system_data).mmu@.bank_inv() ==> final(system_data).mmu@.bank_inv(),
{
    system_data.cycles = cycle_parse(0xC9);
    let low = system_data.mmu.get_from_memory(registers.stack_pointer as usize, true);
    let high_address = registers.stack_pointer.wrapping_add(1);
    let high = system_data.mmu.get_from_memory(high_address as usize, true);
    registers.program_counter = ((high as u16) << 8) | (low as u16);
    registers.stack_pointer = registers.stack_pointer.wrapping_add(2);
}

/// A conditional absolute jump: taken, the immediate 16-bit target loads
/// the program counter; not taken, the counter passes the 3-byte
/// instruction.  The table's stated cost applies either way.
pub open spec fn spec_jump_nn_conditional(r: Registers, m: MmuView, opcode: u8, take: bool) -> CpuEffect {
    let low = m.read(pc_plus(r.program_counter, 1) as int, true);
    let high = m.read(pc_plus(r.program_counter, 2) as int, true);
    let next = if take {
        (((high as u16) << 8) | (low as u16)) as u16
    } else {
        pc_plus(r.program_counter, 3)
    };
    CpuEffect {
        regs: Registers { program_counter: next, ..r },
        mem: m,
        cycles: spec_cycle_parse(opcode),
    }
}

fn jump_nn_core(system_data: &mut SystemData, registers: &mut Registers, opcode: u8, take: bool)
    requires
        old(system_data).mmu@.inv(),
    ensures
        applies_effect(
            spec_jump_nn_conditional(*old(registers), old(system_data).mmu@, opcode, take),
            *old(system_data),
            *final(system_data),
            *final(registers),
        ),
        final(system_data).mmu@.inv(),
        old(system_data).mmu@.bank_inv() ==> final(system_data).mmu@.bank_inv(),
{
    system_data.cycles = cycle_parse(opcode);
    let low_address = registers.program_counter.wrapping_add(1);
    let low = system_data.mmu.get_from_memory(low_address as usize, true);
    let high_address = registers.program_counter.wrapping_add(2);
    let high = system_data.mmu.get_from_memory(high_address as usize, true);
    if take {
        registers.program_counter = ((high as u16) << 8) | (low as u16);
    } else {
        registers.program_counter = registers.program_counter.wrapping_add(3);
    }
}

pub fn jump_nn_on_nonzero_flag(system_data: &mut SystemData, registers: &mut Registers)
    requires
        old(system_data).mmu@.inv(),
    ensures
        applies_effect(
            spec_jump_nn_conditional(
                *old(registers),
                old(system_data).mmu@,
                0xC2,
                old(registers).flags & 0x80 == 0,
            ),
            *old(system_data),
            *final(system_data),
            *final(registers),
        ),
        final(system_data).mmu@.inv(),
        old(system_data).mmu@.bank_inv() ==> final(system_data).mmu@.bank_inv(),
{
    let take = registers.flags & 0x80 == 0;
    jump_nn_core(system_data, registers, 0xC2, take);
}

pub fn jump_nn_on_zero_flag(system_data: &mut SystemData, registers: &mut Registers)
    requires
        old(system_data).mmu@.inv(),
    ensures
        applies_effect(
            spec_jump_nn_conditional(
                *old(registers),
                old(system_data).mmu@,
                0xCA,
                old(registers).flags & 0x80 != 0,
            ),
            *old(system_data),
            *final(system_data),
            *final(registers),
        ),
        final(system_data).mmu@.inv(),
        old(system_data).mmu@.bank_inv() ==> final(system_data).mmu@.bank_inv(),
{
    let take = registers.flags & 0x80 != 0;
    jump_nn_core(system_data, registers, 0xCA, take);
}

pub fn jump_nn_on_no_carry_flag(system_data: &mut SystemData, registers: &mut Registers)
    requires
        old(system_data).mmu@.inv(),
    ensures
        applies_effect(
            spec_jump_nn_conditional(
                *old(registers),
                old(system_data).mmu@,
                0xD2,
                old(registers).flags & 0x10 == 0,
            ),
            *old(system_data),
            *final(system_data),
            *final(registers),
        ),
        final(system_data).mmu@.inv(),
        old(system_data).mmu@.bank_inv() ==> final(system_data).mmu@.bank_inv(),
{
    let take = registers.flags & 0x10 == 0;
    jump_nn_core(system_data, registers, 0xD2, take);
}

pub fn jump_nn_on_carry_flag(system_data: &mut SystemData, registers: &mut Registers)
    requires
        old(system_data).mmu@.inv(),
    ensures
        applies_effect(
            spec_jump_nn_conditional(
                *old(registers),
                old(system_data).mmu@,
                0xDA,
                old(registers).flags & 0x10 != 0,
            ),
            *old(system_data),
            *final(system_data),
            *final(registers),
        ),
        final(system_data).mmu@.inv(),
        old(system_data).mmu@.bank_inv() ==> final(system_data).mmu@.bank_inv(),
{
    let take = registers.flags & 0x10 != 0;
    jump_nn_core(system_data, registers, 0xDA, take);
}

/// A conditional call: taken, the address past the 3-byte instruction is
/// pushed and the immediate target loads the program counter; not taken,
/// the counter passes the instruction.
pub open spec fn spec_call_nn_conditional(r: Registers, m: MmuView, opcode: u8, take: bool) -> CpuEffect {
    if take {
        let low = m.read(pc_plus(r.program_counter, 1) as int, true);
        let high = m.read(pc_plus(r.program_counter, 2) as int, true);
        let next = pc_plus(r.program_counter, 3);
        let next_high = ((next >> 8) & 0xFF) as u8;
        let next_low = (next & 0xFF) as u8;
        let sp1 = ((r.stack_pointer + 0xFFFF) % 0x10000) as u16;
        let sp2 = ((r.stack_pointer + 0xFFFE) % 0x10000) as u16;
        CpuEffect {
            regs: Registers {
                stack_pointer: sp2,
                program_counter: (((high as u16) << 8) | (low as u16)) as u16,
                ..r
            },
            mem: m.write(sp1 as int, next_high, true).write(sp2 as int, next_low, true),
            cycles: spec_cycle_parse(opcode),
        }
    } else {
        CpuEffect {
            regs: Registers { program_counter: pc_plus(r.program_counter, 3), ..r },
            mem: m,
            cycles: spec_cycle_parse(opcode),
        }
    }
}

#[verifier::rlimit(100)]
fn call_nn_core(system_data: &mut SystemData, registers: &mut Registers, opcode: u8, take: bool)
    requires
        old(system_data).mmu@.inv(),
    ensures
        applies_effect(
            spec_call_nn_conditional(*old(registers), old(system_data).mmu@, opcode, take),
            *old(system_data),
            *final(system_data),
            *final(registers),
        ),
        final(system_data).mmu@.inv(),
        old(system_data).mmu@.bank_inv() ==> final(system_data).mmu@.bank_inv(),
{
    system_data.cycles = cycle_parse(opcode);
    if take {
        let low_address = registers.program_counter.wrapping_add(1);
        let low = system_data.mmu.get_from_memory(low_address as usize, true);
        let high_address = registers.program_counter.wrapping_add(2);
        let high = system_data.mmu.get_from_memory(high_address as usize, true);
        let next = registers.program_counter.wrapping_add(3);
        let next_high = ((next >> 8) & 0xFF) as u8;
        let next_low = (next & 0xFF) as u8;
        let sp1 = registers.stack_pointer.wrapping_sub(1);
        system_data.mmu.set_to_memory(sp1 as usize, next_high, true);
        let sp2 = registers.stack_pointer.wrapping_sub(2);
        system_data.mmu.set_to_memory(sp2 as usize, next_low, true);
        registers.stack_pointer = sp2;
        registers.program_counter = ((high as u16) << 8) | (low as u16);
    } else {
        registers.program_counter = registers.program_counter.wrapping_add(3);
    }
}

pub fn call_nn_on_nonzero_flag(system_data: &mut SystemData, registers: &mut Registers)
    requires
        old(system_data).mmu@.inv(),
    ensures
        applies_effect(
            spec_call_nn_conditional(
                *old(registers),
                old(system_data).mmu@,
                0xC4,
                old(registers).flags & 0x80 == 0,
            ),
            *old(system_data),
            *final(system_data),
            *final(registers),
        ),
        final(system_data).mmu@.inv(),
        old(system_data).mmu@.bank_inv() ==> final(system_data).mmu@.bank_inv(),
{
    let take = registers.flags & 0x80 == 0;
    call_nn_core(system_data, registers, 0xC4, take);
}

pub fn call_nn_on_zero_flag(system_data: &mut SystemData, registers: &mut Registers)
    requires
        old(system_data).mmu@.inv(),
    ensures
        applies_effect(
            spec_call_nn_conditional(
                *old(registers),
                old(system_data).mmu@,
                0xCC,
                old(registers).flags & 0x80 != 0,
            ),
            *old(system_data),
            *final(system_data),
            *final(registers),
        ),
        final(system_data).mmu@.inv(),
        old(system_data).mmu@.bank_inv() ==> final(system_data).mmu@.bank_inv(),
{
    let take = registers.flags & 0x80 != 0;
    call_nn_core(system_data, registers, 0xCC, take);
}

pub fn call_nn_on_no_carry_flag(system_data: &mut SystemData, registers: &mut Registers)
    requires
        old(system_data).mmu@.inv(),
    ensures
        applies_effect(
            spec_call_nn_conditional(
                *old(registers),
                old(system_data).mmu@,
                0xD4,
                old(registers).flags & 0x10 == 0,
            ),
            *old(system_data),
            *final(system_data),
            *final(registers),
        ),
        final(system_data).mmu@.inv(),
        old(system_data).mmu@.bank_inv() ==> final(system_data).mmu@.bank_inv(),
{
    let take = registers.flags & 0x10 == 0;
    call_nn_core(system_data, registers, 0xD4, take);
}

pub fn call_nn_on_carry_flag(system_data: &mut SystemData, registers: &mut Registers)
    requires
        old(system_data).mmu@.inv(),
    ensures
        applies_effect(
            spec_call_nn_conditional(
                *old(registers),
                old(system_data).mmu@,
                0xDC,
                old(registers).flags & 0x10 != 0,
            ),
            *old(system_data),
            *final(system_data),
            *final(registers),
        ),
        final(system_data).mmu@.inv(),
        old(system_data).mmu@.bank_inv() ==> final(system_data).mmu@.bank_inv(),
{
    let take = registers.flags & 0x10 != 0;
    call_nn_core(system_data, registers, 0xDC, take);
}

/// A conditional return: taken, the program counter is popped; not taken,
/// the counter passes the 1-byte instruction.
pub open spec fn spec_return_conditional(r: Registers, m: MmuView, opcode: u8, take: bool) -> CpuEffect {
    if take {
        let low = m.read(r.stack_pointer as int, true);
        let high = m.read(((r.stack_pointer + 1) % 0x10000) as int, true);
        CpuEffect {
            regs: Registers {
                stack_pointer: ((r.stack_pointer + 2) % 0x10000) as u16,
                program_counter: (((high as u16) << 8) | (low as u16)) as u16,
                ..r
            },
            mem: m,
            cycles: spec_cycle_parse(opcode),
        }
    } else {
        CpuEffect {
            regs: Registers { program_counter: pc_plus(r.program_counter, 1), ..r },
            mem: m,
            cycles: spec_cycle_parse(opcode),
        }
    }
}

fn return_core(system_data: &mut SystemData, registers: &mut Registers, opcode: u8, take: bool)
    requires
        old(system_data).mmu@.inv(),
    ensures
        applies_effect(
            spec_return_conditional(*old(registers), old(system_data).mmu@, opcode, take),
            *old(system_data),
            *final(system_data),
            *final(registers),
        ),
        final(system_data).mmu@.inv(),
        old(system_data).mmu@.bank_inv() ==> final(system_data).mmu@.bank_inv(),
{
    system_data.cycles = cycle_parse(opcode);
    if take {
        let low = system_data.mmu.get_from_memory(registers.stack_pointer as usize, true);
        let high_address = registers.stack_pointer.wrapping_add(1);
        let high = system_data.mmu.get_from_memory(high_address as usize, true);
        registers.program_counter = ((high as u16) << 8) | (low as u16);
        registers.stack_pointer = registers.stack_pointer.wrapping_add(2);
    } else {
        registers.program_counter = registers.program_counter.wrapping_add(1);
    }
}

pub fn return_on_nonzero_flag(system_data: &mut SystemData, registers: &mut Registers)
    requires
        old(system_data).mmu@.inv(),
    ensures
        applies_effect(
            spec_return_conditional(
                *old(registers),
                old(system_data).mmu@,
                0xC0,
                old(registers).flags & 0x80 == 0,
            ),
            *old(system_data),
            *final(system_data),
            *final(registers),
        ),
        final(system_data).mmu@.inv(),
        old(system_data).mmu@.bank_inv() ==> final(system_data).mmu@.bank_inv(),
{
    let take = registers.flags & 0x80 == 0;
    return_core(system_data, registers, 0xC0, take);
}

pub fn return_on_zero_flag(system_data: &mut SystemData, registers: &mut Registers)
    requires
        old(system_data).mmu@.inv(),
    ensures
        applies_effect(
            spec_return_conditional(
                *old(registers),
                old(system_data).mmu@,
                0xC8,
                old(registers).flags & 0x80 != 0,
            ),
            *old(system_data),
            *final(system_data),
            *final(registers),
        ),
        final(system_data).mmu@.inv(),
        old(system_data).mmu@.bank_inv() ==> final(system_data).mmu@.bank_inv(),
{
    let take = registers.flags & 0x80 != 0;
    return_core(system_data, registers, 0xC8, take);
}

pub fn return_on_no_carry_flag(system_data: &mut SystemData, registers: &mut Registers)
    requires
        old(system_data).mmu@.inv(),
    ensures
        applies_effect(
            spec_return_conditional(
                *old(registers),
                old(system_data).mmu@,
                0xD0,
                old(registers).flags & 0x10 == 0,
            ),
            *old(system_data),
            *final(system_data),
            *final(registers),
        ),
        final(system_data).mmu@.inv(),
        old(system_data).mmu@.bank_inv() ==> final(system_data).mmu@.bank_inv(),
{
    let take = registers.flags & 0x10 == 0;
    return_core(system_data, registers, 0xD0, take);
}

pub fn return_on_carry_flag(system_data: &mut SystemData, registers: &mut Registers)
    requires
        old(system_data).mmu@.inv(),
    ensures
        applies_effect(
            spec_return_conditional(
                *old(registers),
                old(system_data).mmu@,
                0xD8,
                old(registers).flags & 0x10 != 0,
            ),
            *old(system_data),
            *final(system_data),
            *final(registers),
        ),
        final(system_data).mmu@.inv(),
        old(system_data).mmu@.bank_inv() ==> final(system_data).mmu@.bank_inv(),
{
    let take = registers.flags & 0x10 != 0;
    return_core(system_data, registers, 0xD8, take);
}

/// The return from an interrupt handler: the program counter is popped and
/// the master enable comes straight back up.
pub open spec fn spec_return_from_interrupt(r: Registers, m: MmuView) -> CpuEffect {
    let low = m.read(r.stack_pointer as int, true);
    let high = m.read(((r.stack_pointer + 1) % 0x10000) as int, true);
    CpuEffect {
        regs: Registers {
            stack_pointer: ((r.stack_pointer + 2) % 0x10000) as u16,
            program_counter: (((high as u16) << 8) | (low as u16)) as u16,
            interrupt_master_enable_flag: true,
            ..r
        },
        mem: m,
        cycles: spec_cycle_parse(0xD9),
    }
}

pub fn return_from_interrupt(system_data: &mut SystemData, registers: &mut Registers)
    requires
        old(system_data).mmu@.inv(),
    ensures
        applies_effect(
            spec_return_from_interrupt(*old(registers), old(system_data).mmu@),
            *old(system_data),
            *final(system_data),
            *final(registers),
        ),
        final(system_data).mmu@.inv(),
        old(system_data).mmu@.bank_inv() ==> final(system_data).mmu@.bank_inv(),
{
    system_data.cycles = cycle_parse(0xD9);
    let low = system_data.mmu.get_from_memory(registers.stack_pointer as usize, true);
    let high_address = registers.stack_pointer.wrapping_add(1);
    let high = system_data.mmu.get_from_memory(high_address as usize, true);
    registers.program_counter = ((high as u16) << 8) | (low as u16);
    registers.stack_pointer = registers.stack_pointer.wrapping_add(2);
    registers.interrupt_master_enable_flag = true;
}

/// A restart: the address past the 1-byte instruction is pushed and
/// control moves to the fixed vector held in opcode bits 5-3.
pub open spec fn spec_restart(r: Registers, m: MmuView, opcode: u8) -> CpuEffect {
    let next = pc_plus(r.program_counter, 1);
    let next_high = ((next >> 8) & 0xFF) as u8;
    let next_low = (next & 0xFF) as u8;
    let sp1 = ((r.stack_pointer + 0xFFFF) % 0x10000) as u16;
    let sp2 = ((r.stack_pointer + 0xFFFE) % 0x10000) as u16;
    CpuEffect {
        regs: Registers {
            stack_pointer: sp2,
            program_counter: (opcode & 0x38) as u16,
            ..r
        },
        mem: m.write(sp1 as int, next_high, true).write(sp2 as int, next_low, true),
        cycles: spec_cycle_parse(opcode),
    }
}

#[verifier::rlimit(100)]
pub fn restart(system_data: &mut SystemData, registers: &mut Registers, opcode: u8)
    requires
        old(system_data).mmu@.inv(),
    ensures
        applies_effect(
            spec_restart(*old(registers), old(system_data).mmu@, opcode),
            *old(system_data),
            *final(system_data),
            *final(registers),
        ),
        final(system_data).mmu@.inv(),
        old(system_data).mmu@.bank_inv() ==> final(system_data).mmu@.bank_inv(),
{
    system_data.cycles = cycle_parse(opcode);
    let next = registers.program_counter.wrapping_add(1);
    let next_high = ((next >> 8) & 0xFF) as u8;
    let next_low = (next & 0xFF) as u8;
    let sp1 = registers.stack_pointer.wrapping_sub(1);
    system_data.mmu.set_to_memory(sp1 as usize, next_high, true);
    let sp2 = registers.stack_pointer.wrapping_sub(2);
    system_data.mmu.set_to_memory(sp2 as usize, next_low, true);
    registers.stack_pointer = sp2;
    registers.program_counter = (opcode & 0x38) as u16;
}

/// The register-indirect jump: HL loads the program counter.
pub open spec fn spec_jump_hl(r: Registers, m: MmuView) -> CpuEffect {
    CpuEffect {
        regs: Registers { program_counter: r.spec_get_16(3), ..r },
        mem: m,
        cycles: spec_cycle_parse(0xE9),
    }
}

pub fn jump_hl(system_data: &mut SystemData, registers: &mut Registers)
    requires
        old(system_data).mmu@.inv(),
    ensures
        applies_effect(
            spec_jump_hl(*old(registers), old(system_data).mmu@),
            *old(system_data),
            *final(system_data),
            *final(registers),
        ),
        final(system_data).mmu@.inv(),
        old(system_data).mmu@.bank_inv() ==> final(system_data).mmu@.bank_inv(),
{
    system_data.cycles = cycle_parse(0xE9);
    registers.program_counter = registers.mapped_16_bit_register_getter(3);
}

/// Adding the pair selected by opcode bits 5-4 into HL, wrapping: Zero
/// preserved, Subtract cleared, Half-carry on a carry out of bit 11,
/// Carry on a carry out of bit 15.
pub open spec fn spec_add_hl_16bit_register(r: Registers, m: MmuView, opcode: u8) -> CpuEffect {
    let pair = (((opcode >> 4) & 0x03) + 1) as u8;
    let hl = r.spec_get_16(3);
    let operand = r.spec_get_16(pair);
    let sum = ((hl + operand) % 0x10000) as u16;
    let kept = r.flags & 0x80;
    let with_half = if (hl & 0x0FFF) + (operand & 0x0FFF) > 0x0FFF {
        kept | 0x20
    } else {
        kept
    };
    let flags = if hl + operand > 0xFFFF {
        with_half | 0x10
    } else {
        with_half
    };
    CpuEffect {
        regs: Registers {
            flags: flags,
            program_counter: pc_plus(r.program_counter, 1),
            ..r.spec_set_16(3, sum)
        },
        mem: m,
        cycles: spec_cycle_parse(opcode),
    }
}

pub fn add_hl_16bit_register(system_data: &mut SystemData, registers: &mut Registers, opcode: u8)
    requires
        old(system_data).mmu@.inv(),
    ensures
        applies_effect(
            spec_add_hl_16bit_register(*old(registers), old(system_data).mmu@, opcode),
            *old(system_data),
            *final(system_data),
            *final(registers),
        ),
        final(system_data).mmu@.inv(),
        old(system_data).mmu@.bank_inv() ==> final(system_data).mmu@.bank_inv(),
{
    proof {
        lemma_opcode_field_bounds(opcode);
    }
    let pair = ((opcode >> 4) & 0x03) + 1;
    system_data.cycles = cycle_parse(opcode);
    let hl = registers.mapped_16_bit_register_getter(3);
    let operand = registers.mapped_16_bit_register_getter(pair);
    let mut flags = registers.flags & 0x80;
    if ((hl & 0x0FFF) as u32) + ((operand & 0x0FFF) as u32) > 0x0FFF {
        flags |= 0x20;
    }
    if (hl as u32) + (operand as u32) > 0xFFFF {
        flags |= 0x10;
    }
    registers.mapped_16_bit_register_setter(3, hl.wrapping_add(operand));
    registers.flags = flags;
    registers.program_counter = registers.program_counter.wrapping_add(1);
}

/// Flags after a bit test: Zero exactly when the tested bit is clear,
/// Subtract cleared, Half-carry set, Carry preserved.
pub open spec fn spec_bit_check_flags(value: u8, test_bit: u8, old_flags: u8) -> u8 {
    let base = (old_flags & 0x10) | 0x20;
    if (value >> test_bit) & 0x01 == 0 {
        base | 0x80
    } else {
        base
    }
}

/// The CB-prefixed bit test on the register selected by the opcode's low
/// three bits.
pub open spec fn spec_bit_check_register(
    r: Registers,
    m: MmuView,
    opcode: u8,
    test_bit: u8,
) -> CpuEffect {
    let value = r.spec_get(reg_index_of_code(opcode & 0x07));
    CpuEffect {
        regs: Registers {
            flags: spec_bit_check_flags(value, test_bit, r.flags),
            program_counter: pc_plus(r.program_counter, 2),
            ..r
        },
        mem: m,
        cycles: spec_cb_cycle_parse(opcode),
    }
}

pub fn bit_check_register(
    system_data: &mut SystemData,
    registers: &mut Registers,
    opcode: u8,
    test_bit: u8,
)
    requires
        old(system_data).mmu@.inv(),
        test_bit < 8,
    ensures
        applies_effect(
            spec_bit_check_register(*old(registers), old(system_data).mmu@, opcode, test_bit),
            *old(system_data),
            *final(system_data),
            *final(registers),
        ),
        final(system_data).mmu@.inv(),
        old(system_data).mmu@.bank_inv() ==> final(system_data).mmu@.bank_inv(),
{
    proof {
        lemma_opcode_field_bounds(opcode);
    }
    let code = opcode & 0x07;
    system_data.cycles = cb_cycle_parse(opcode);
    let index = if code == 7 {
        0
    } else {
        code + 1
    };
    let value = registers.mapped_register_getter(index);
    let mut flags = (registers.flags & 0x10) | 0x20;
    if (value >> test_bit) & 0x01 == 0 {
        flags |= 0x80;
    }
    registers.flags = flags;
    registers.program_counter = registers.program_counter.wrapping_add(2);
}

/// The CB-prefixed bit test on memory at HL.
pub open spec fn spec_bit_check_hl_address(
    r: Registers,
    m: MmuView,
    opcode: u8,
    test_bit: u8,
) -> CpuEffect {
    let value = m.read(r.spec_get_16(3) as int, true);
    CpuEffect {
        regs: Registers {
            flags: spec_bit_check_flags(value, test_bit, r.flags),
            program_counter: pc_plus(r.program_counter, 2),
            ..r
        },
        mem: m,
        cycles: spec_cb_cycle_parse(opcode),
    }
}

pub fn bit_check_hl_address(
    system_data: &mut SystemData,
    registers: &mut Registers,
    opcode: u8,
    test_bit: u8,
)
    requires
        old(system_data).mmu@.inv(),
        test_bit < 8,
    ensures
        applies_effect(
            spec_bit_check_hl_address(*old(registers), old(system_data).mmu@, opcode, test_bit),
            *old(system_data),
            *final(system_data),
            *final(registers),
        ),
        final(system_data).mmu@.inv(),
        old(system_data).mmu@.bank_inv() ==> final(system_data).mmu@.bank_inv(),
{
    system_data.cycles = cb_cycle_parse(opcode);
    let address = registers.mapped_16_bit_register_getter(3);
    let value = system_data.mmu.get_from_memory(address as usize, true);
    let mut flags = (registers.flags & 0x10) | 0x20;
    if (value >> test_bit) & 0x01 == 0 {
        flags |= 0x80;
    }
    registers.flags = flags;
    registers.program_counter = registers.program_counter.wrapping_add(2);
}

/// Setting or clearing one bit of the operand selected by the CB opcode's
/// low three bits (code 6 read-modify-writes memory at HL), with no flag
/// effect.
pub open spec fn spec_change_bit(
    r: Registers,
    m: MmuView,
    opcode: u8,
    test_bit: u8,
    set: bool,
) -> CpuEffect {
    let code = opcode & 0x07;
    let advanced = pc_plus(r.program_counter, 2);
    if code == 6 {
        let address = r.spec_get_16(3);
        let value = m.read(address as int, true);
        let changed = if set {
            value | (1u8 << test_bit)
        } else {
            value & ((1u8 << test_bit) ^ 0xFF)
        };
        CpuEffect {
            regs: Registers { program_counter: advanced, ..r },
            mem: m.write(address as int, changed, true),
            cycles: spec_cb_cycle_parse(opcode),
        }
    } else {
        let index = reg_index_of_code(code);
        let value = r.spec_get(index);
        let changed = if set {
            value | (1u8 << test_bit)
        } else {
            value & ((1u8 << test_bit) ^ 0xFF)
        };
        CpuEffect {
            regs: Registers { program_counter: advanced, ..r.spec_set(index, changed) },
            mem: m,
            cycles: spec_cb_cycle_parse(opcode),
        }
    }
}

pub fn set_bit(system_data: &mut SystemData, registers: &mut Registers, opcode: u8, test_bit: u8)
    requires
        old(system_data).mmu@.inv(),
        test_bit < 8,
    ensures
        applies_effect(
            spec_change_bit(*old(registers), old(system_data).mmu@, opcode, test_bit, true),
            *old(system_data),
            *final(system_data),
            *final(registers),
        ),
        final(system_data).mmu@.inv(),
        old(system_data).mmu@.bank_inv() ==> final(system_data).mmu@.bank_inv(),
{
    proof {
        lemma_opcode_field_bounds(opcode);
    }
    let code = opcode & 0x07;
    system_data.cycles = cb_cycle_parse(opcode);
    if code == 6 {
        let address = registers.mapped_16_bit_register_getter(3);
        let value = system_data.mmu.get_from_memory(address as usize, true);
        system_data.mmu.set_to_memory(address as usize, value | (1u8 << test_bit), true);
    } else {
        let index = if code == 7 {
            0
        } else {
            code + 1
        };
        let value = registers.mapped_register_getter(index);
        registers.mapped_register_setter(index, value | (1u8 << test_bit));
    }
    registers.program_counter = registers.program_counter.wrapping_add(2);
}

pub fn reset_bit(system_data: &mut SystemData, registers: &mut Registers, opcode: u8, test_bit: u8)
    requires
        old(system_data).mmu@.inv(),
        test_bit < 8,
    ensures
        applies_effect(
            spec_change_bit(*old(registers), old(system_data).mmu@, opcode, test_bit, false),
            *old(system_data),
            *final(system_data),
            *final(registers),
        ),
        final(system_data).mmu@.inv(),
        old(system_data).mmu@.bank_inv() ==> final(system_data).mmu@.bank_inv(),
{
    proof {
        lemma_opcode_field_bounds(opcode);
    }
    let code = opcode & 0x07;
    system_data.cycles = cb_cycle_parse(opcode);
    if code == 6 {
        let address = registers.mapped_16_bit_register_getter(3);
        let value = system_data.mmu.get_from_memory(address as usize, true);
        system_data.mmu.set_to_memory(address as usize, value & ((1u8 << test_bit) ^ 0xFF), true);
    } else {
        let index = if code == 7 {
            0
        } else {
            code + 1
        };
        let value = registers.mapped_register_getter(index);
        registers.mapped_register_setter(index, value & ((1u8 << test_bit) ^ 0xFF));
    }
    registers.program_counter = registers.program_counter.wrapping_add(2);
}

/// One CB rotate/shift result, selected by opcode bits 5-3: plain rotates,
/// rotates through carry, arithmetic and logical shifts, and the nibble
/// swap.  Yields the new value and the shifted-out bit.
pub open spec fn spec_rotate_shift_result(variant: u8, value: u8, carry_in: u8) -> (u8, u8) {
    if variant == 0 {
        ((value << 1) | (value >> 7), value >> 7)
    } else if variant == 1 {
        ((value >> 1) | (value << 7), value & 0x01)
    } else if variant == 2 {
        ((value << 1) | carry_in, value >> 7)
    } else if variant == 3 {
        ((value >> 1) | (carry_in << 7), value & 0x01)
    } else if variant == 4 {
        (value << 1, value >> 7)
    } else if variant == 5 {
        ((value >> 1) | (value & 0x80), value & 0x01)
    } else if variant == 6 {
        ((value << 4) | (value >> 4), 0)
    } else {
        (value >> 1, value & 0x01)
    }
}

/// The CB rotate/shift row: only the Zero flag (on a zero result) and the
/// Carry flag (the shifted-out bit) can come out set.
pub open spec fn spec_rotate_shift_operation(r: Registers, m: MmuView, opcode: u8) -> CpuEffect {
    let variant = (opcode >> 3) & 0x07;
    let code = opcode & 0x07;
    let carry_in = spec_carry_in(r.flags);
    let advanced = pc_plus(r.program_counter, 2);
    if code == 6 {
        let address = r.spec_get_16(3);
        let value = m.read(address as int, true);
        let rotated = spec_rotate_shift_result(variant, value, carry_in);
        let flags = spec_rotate_shift_flags(rotated.0, rotated.1);
        CpuEffect {
            regs: Registers { flags: flags, program_counter: advanced, ..r },
            mem: m.write(address as int, rotated.0, true),
            cycles: spec_cb_cycle_parse(opcode),
        }
    } else {
        let index = reg_index_of_code(code);
        let value = r.spec_get(index);
        let rotated = spec_rotate_shift_result(variant, value, carry_in);
        let flags = spec_rotate_shift_flags(rotated.0, rotated.1);
        CpuEffect {
            regs: Registers { flags: flags, program_counter: advanced, ..r.spec_set(index, rotated.0) },
            mem: m,
            cycles: spec_cb_cycle_parse(opcode),
        }
    }
}

/// Flags after a CB rotate or shift: Zero on a zero result, Subtract and
/// Half-carry clear, Carry holding the shifted-out bit.
pub open spec fn spec_rotate_shift_flags(result: u8, carry_out: u8) -> u8 {
    let with_zero: u8 = if result == 0 {
        0x80
    } else {
        0x00
    };
    if carry_out != 0 {
        with_zero | 0x10
    } else {
        with_zero
    }
}

pub fn rotate_shift_operation(system_data: &mut SystemData, registers: &mut Registers, opcode: u8)
    requires
        old(system_data).mmu@.inv(),
    ensures
        applies_effect(
            spec_rotate_shift_operation(*old(registers), old(system_data).mmu@, opcode),
            *old(system_data),
            *final(system_data),
            *final(registers),
        ),
        final(system_data).mmu@.inv(),
        old(system_data).mmu@.bank_inv() ==> final(system_data).mmu@.bank_inv(),
{
    proof {
        lemma_opcode_field_bounds(opcode);
    }
    let variant = (opcode >> 3) & 0x07;
    let code = opcode & 0x07;
    let carry_in: u8 = if registers.flags & 0x10 != 0 {
        1
    } else {
        0
    };
    system_data.cycles = cb_cycle_parse(opcode);
    let value = if code == 6 {
        let address = registers.mapped_16_bit_register_getter(3);
        system_data.mmu.get_from_memory(address as usize, true)
    } else {
        let index = if code == 7 {
            0
        } else {
            code + 1
        };
        registers.mapped_register_getter(index)
    };
    let rotated: u8 = if variant == 0 {
        (value << 1) | (value >> 7)
    } else if variant == 1 {
        (value >> 1) | (value << 7)
    } else if variant == 2 {
        (value << 1) | carry_in
    } else if variant == 3 {
        (value >> 1) | (carry_in << 7)
    } else if variant == 4 {
        value << 1
    } else if variant == 5 {
        (value >> 1) | (value & 0x80)
    } else if variant == 6 {
        (value << 4) | (value >> 4)
    } else {
        value >> 1
    };
    let carry_out: u8 = if variant == 0 || variant == 2 || variant == 4 {
        value >> 7
    } else if variant == 6 {
        0
    } else {
        value & 0x01
    };
    let mut flags: u8 = if rotated == 0 {
        0x80
    } else {
        0x00
    };
    if carry_out != 0 {
        flags |= 0x10;
    }
    if code == 6 {
        let address = registers.mapped_16_bit_register_getter(3);
        system_data.mmu.set_to_memory(address as usize, rotated, true);
    } else {
        let index = if code == 7 {
            0
        } else {
            code + 1
        };
        registers.mapped_register_setter(index, rotated);
    }
    registers.flags = flags;
    registers.program_counter = registers.program_counter.wrapping_add(2);
}

/// The decimal adjust after a BCD addition or subtraction: each nibble
/// that overflowed its decimal digit (or carried) is corrected by 6, the
/// direction following the Subtract flag; Zero is recomputed, Half-carry
/// cleared, and Carry set exactly when the high digit corrected upward.
pub open spec fn spec_decimal_adjust(r: Registers, m: MmuView) -> CpuEffect {
    let a = r.accumulator;
    let subtracted = r.flags & 0x40 != 0;
    let half = r.flags & 0x20 != 0;
    let carried = r.flags & 0x10 != 0;
    let result = if !subtracted {
        let low_adjusted = if half || a & 0x0F > 0x09 {
            ((a + 0x06) % 0x100) as u8
        } else {
            a
        };
        if carried || a > 0x99 {
            ((low_adjusted + 0x60) % 0x100) as u8
        } else {
            low_adjusted
        }
    } else {
        let low_adjusted = if half {
            ((a + 0x100 - 0x06) % 0x100) as u8
        } else {
            a
        };
        if carried {
            ((low_adjusted + 0x100 - 0x60) % 0x100) as u8
        } else {
            low_adjusted
        }
    };
    let carry_out: u8 = if subtracted {
        r.flags & 0x10
    } else if carried || a > 0x99 {
        0x10
    } else {
        0x00
    };
    let flags = (if result == 0 {
        0x80u8
    } else {
        0x00u8
    }) | (r.flags & 0x40) | carry_out;
    CpuEffect {
        regs: Registers {
            accumulator: result,
            flags: flags,
            program_counter: pc_plus(r.program_counter, 1),
            ..r
        },
        mem: m,
        cycles: spec_cycle_parse(0x27),
    }
}

#[verifier::rlimit(100)]
pub fn decimal_adjust_accumulator(system_data: &mut SystemData, registers: &mut Registers)
    requires
        old(system_data).mmu@.inv(),
    ensures
        applies_effect(
            spec_decimal_adjust(*old(registers), old(system_data).mmu@),
            *old(system_data),
            *final(system_data),
            *final(registers),
        ),
        final(system_data).mmu@.inv(),
        old(system_data).mmu@.bank_inv() ==> final(system_data).mmu@.bank_inv(),
{
    system_data.cycles = cycle_parse(0x27);
    let a = registers.accumulator;
    let subtracted = registers.flags & 0x40 != 0;
    let half = registers.flags & 0x20 != 0;
    let carried = registers.flags & 0x10 != 0;
    let result: u8 = if !subtracted {
        let low_adjusted = if half || a & 0x0F > 0x09 {
            a.wrapping_add(0x06)
        } else {
            a
        };
        if carried || a > 0x99 {
            low_adjusted.wrapping_add(0x60)
        } else {
            low_adjusted
        }
    } else {
        let low_adjusted = if half {
            a.wrapping_sub(0x06)
        } else {
            a
        };
        if carried {
            low_adjusted.wrapping_sub(0x60)
        } else {
            low_adjusted
        }
    };
    let carry_out: u8 = if subtracted {
        registers.flags & 0x10
    } else if carried || a > 0x99 {
        0x10
    } else {
        0x00
    };
    let mut flags: u8 = if result == 0 {
        0x80
    } else {
        0x00
    };
    flags = flags | (registers.flags & 0x40);
    flags = flags | carry_out;
    registers.accumulator = result;
    registers.flags = flags;
    registers.program_counter = registers.program_counter.wrapping_add(1);
}

/// The sum of the stack pointer and a sign-extended displacement byte,
/// with the flags such an addition raises: Zero and Subtract clear,
/// Half-carry and Carry from the unsigned low-nibble and low-byte sums.
pub open spec fn spec_sp_displacement_sum(sp: u16, displacement: u8) -> (u16, u8) {
    let extended: int = if displacement < 0x80 {
        displacement as int
    } else {
        displacement - 0x100
    };
    let sum = ((sp + extended) % 0x10000) as u16;
    let with_half: u8 = if (sp & 0x0F) + (displacement & 0x0F) > 0x0F {
        0x20
    } else {
        0x00
    };
    let flags = if (sp & 0xFF) + displacement > 0xFF {
        with_half | 0x10
    } else {
        with_half
    };
    (sum, flags)
}

/// Adding the sign-extended displacement byte to the stack pointer.
pub open spec fn spec_add_sp_displacement(r: Registers, m: MmuView) -> CpuEffect {
    let displacement = m.read(pc_plus(r.program_counter, 1) as int, true);
    let sum = spec_sp_displacement_sum(r.stack_pointer, displacement);
    CpuEffect {
        regs: Registers {
            stack_pointer: sum.0,
            flags: sum.1,
            program_counter: pc_plus(r.program_counter, 2),
            ..r
        },
        mem: m,
        cycles: spec_cycle_parse(0xE8),
    }
}

pub fn add_sp_displacement(system_data: &mut SystemData, registers: &mut Registers)
    requires
        old(system_data).mmu@.inv(),
    ensures
        applies_effect(
            spec_add_sp_displacement(*old(registers), old(system_data).mmu@),
            *old(system_data),
            *final(system_data),
            *final(registers),
        ),
        final(system_data).mmu@.inv(),
        old(system_data).mmu@.bank_inv() ==> final(system_data).mmu@.bank_inv(),
{
    system_data.cycles = cycle_parse(0xE8);
    let operand_address = registers.program_counter.wrapping_add(1);
    let displacement = system_data.mmu.get_from_memory(operand_address as usize, true);
    let sum = sp_displacement_sum(registers.stack_pointer, displacement);
    registers.stack_pointer = sum.0;
    registers.flags = sum.1;
    registers.program_counter = registers.program_counter.wrapping_add(2);
}

/// Loading HL with the stack pointer plus the sign-extended displacement
/// byte.
pub open spec fn spec_load_hl_with_sp_displacement(r: Registers, m: MmuView) -> CpuEffect {
    let displacement = m.read(pc_plus(r.program_counter, 1) as int, true);
    let sum = spec_sp_displacement_sum(r.stack_pointer, displacement);
    CpuEffect {
        regs: Registers {
            flags: sum.1,
            program_counter: pc_plus(r.program_counter, 2),
            ..r.spec_set_16(3, sum.0)
        },
        mem: m,
        cycles: spec_cycle_parse(0xF8),
    }
}

pub fn load_hl_with_sp_displacement(system_data: &mut SystemData, registers: &mut Registers)
    requires
        old(system_data).mmu@.inv(),
    ensures
        applies_effect(
            spec_load_hl_with_sp_displacement(*old(registers), old(system_data).mmu@),
            *old(system_data),
            *final(system_data),
            *final(registers),
        ),
        final(system_data).mmu@.inv(),
        old(system_data).mmu@.bank_inv() ==> final(system_data).mmu@.bank_inv(),
{
    system_data.cycles = cycle_parse(0xF8);
    let operand_address = registers.program_counter.wrapping_add(1);
    let displacement = system_data.mmu.get_from_memory(operand_address as usize, true);
    let sum = sp_displacement_sum(registers.stack_pointer, displacement);
    registers.mapped_16_bit_register_setter(3, sum.0);
    registers.flags = sum.1;
    registers.program_counter = registers.program_counter.wrapping_add(2);
}

fn sp_displacement_sum(sp: u16, displacement: u8) -> (r: (u16, u8))
    ensures
        r.0 == spec_sp_displacement_sum(sp, displacement).0,
        r.1 == spec_sp_displacement_sum(sp, displacement).1,
{
    let extended: u32 = if displacement < 0x80 {
        displacement as u32
    } else {
        displacement as u32 + 0xFF00
    };
    let sum = (((sp as u32) + extended) % 0x10000) as u16;
    proof {
        if displacement >= 0x80 {
            vstd::arithmetic::div_mod::lemma_mod_add_multiples_vanish(
                sp + displacement - 0x100,
                0x10000,
            );
        }
    }
    let mut flags: u8 = if ((sp & 0x0F) as u32) + ((displacement & 0x0F) as u32) > 0x0F {
        0x20
    } else {
        0x00
    };
    if ((sp & 0xFF) as u32) + (displacement as u32) > 0xFF {
        flags |= 0x10;
    }
    (sum, flags)
}

/// The interrupts both enabled and pending: the conjunction of the
/// interrupt-enable register, the interrupt-flag register and the five
/// architected interrupt bits.
pub open spec fn spec_pending_interrupts(m: MmuView) -> u8 {
    m.mem[0xFFFF] & m.mem[0xFF0F] & 0x1F
}

/// Fixed priority: the lowest set bit index wins.
pub open spec fn spec_interrupt_bit(pending: u8) -> u8 {
    if pending & 0x01 != 0 {
        0
    } else if pending & 0x02 != 0 {
        1
    } else if pending & 0x04 != 0 {
        2
    } else if pending & 0x08 != 0 {
        3
    } else {
        4
    }
}

/// Servicing the highest-priority enabled pending interrupt: the program
/// counter is pushed (high byte first), control jumps to the interrupt's
/// fixed vector, the master enable drops, and the serviced pending bit is
/// cleared with an internal write — all billed at a fixed dispatch cost of
/// five cycles in place of a normal fetch.
pub open spec fn spec_service_interrupt(r: Registers, m: MmuView) -> CpuEffect {
    let bit = spec_interrupt_bit(spec_pending_interrupts(m));
    let high = ((r.program_counter >> 8) & 0xFF) as u8;
    let low = (r.program_counter & 0xFF) as u8;
    let sp1 = ((r.stack_pointer + 0xFFFF) % 0x10000) as u16;
    let sp2 = ((r.stack_pointer + 0xFFFE) % 0x10000) as u16;
    let pushed = m.write(sp1 as int, high, true).write(sp2 as int, low, true);
    let cleared = pushed.write(
        0xFF0F,
        pushed.read(0xFF0F, false) & (0xFF ^ (1u8 << bit)),
        false,
    );
    CpuEffect {
        regs: Registers {
            stack_pointer: sp2,
            program_counter: (0x40 + 8 * bit) as u16,
            interrupt_master_enable_flag: false,
            ..r
        },
        mem: cleared,
        cycles: 5,
    }
}

#[verifier::rlimit(100)]
fn service_interrupt(system_data: &mut SystemData, registers: &mut Registers)
    requires
        old(system_data).mmu@.inv(),
    ensures
        applies_effect(
            spec_service_interrupt(*old(registers), old(system_data).mmu@),
            *old(system_data),
            *final(system_data),
            *final(registers),
        ),
        final(system_data).mmu@.inv(),
        old(system_data).mmu@.bank_inv() ==> final(system_data).mmu@.bank_inv(),
{
    let enabled = system_data.mmu.get_from_memory(0xFFFF, false);
    let pending_flags = system_data.mmu.get_from_memory(0xFF0F, false);
    let pending = enabled & pending_flags & 0x1F;
    let bit: u8 = if pending & 0x01 != 0 {
        0
    } else if pending & 0x02 != 0 {
        1
    } else if pending & 0x04 != 0 {
        2
    } else if pending & 0x08 != 0 {
        3
    } else {
        4
    };
    let pc = registers.program_counter;
    let high = ((pc >> 8) & 0xFF) as u8;
    let low = (pc & 0xFF) as u8;
    let sp1 = registers.stack_pointer.wrapping_sub(1);
    system_data.mmu.set_to_memory(sp1 as usize, high, true);
    let sp2 = registers.stack_pointer.wrapping_sub(2);
    system_data.mmu.set_to_memory(sp2 as usize, low, true);
    registers.stack_pointer = sp2;
    registers.program_counter = 0x0040 + 8 * (bit as u16);
    registers.interrupt_master_enable_flag = false;
    let current = system_data.mmu.get_from_memory(0xFF0F, false);
    system_data.mmu.set_to_memory(0xFF0F, current & (0xFF ^ (1u8 << bit)), false);
    system_data.cycles = 5;
}

/// An opcode the engine does not implement: nothing changes and the zero
/// cycle cost signals the fatal condition.
pub open spec fn spec_unhandled(r: Registers, m: MmuView) -> CpuEffect {
    CpuEffect { regs: r, mem: m, cycles: 0 }
}

/// One fetch and dispatch, with the interrupt machinery already decided:
/// the byte at the program counter selects the operation (a second byte
/// behind the CB prefix selects a bit test).
pub open spec fn spec_execute(r: Registers, m: MmuView) -> CpuEffect {
    let opcode = m.read(r.program_counter as int, true);
    if opcode == 0xCB {
        let cb_opcode = m.read(pc_plus(r.program_counter, 1) as int, true);
        if cb_opcode < 0x40 {
            spec_rotate_shift_operation(r, m, cb_opcode)
        } else if cb_opcode < 0x80 {
            if cb_opcode & 0x07 == 6 {
                spec_bit_check_hl_address(r, m, cb_opcode, (cb_opcode >> 3) & 0x07)
            } else {
                spec_bit_check_register(r, m, cb_opcode, (cb_opcode >> 3) & 0x07)
            }
        } else if cb_opcode < 0xC0 {
            spec_change_bit(r, m, cb_opcode, (cb_opcode >> 3) & 0x07, false)
        } else {
            spec_change_bit(r, m, cb_opcode, (cb_opcode >> 3) & 0x07, true)
        }
    } else if opcode == 0x00 {
        CpuEffect {
            regs: Registers { program_counter: pc_plus(r.program_counter, 1), ..r },
            mem: m,
            cycles: spec_cycle_parse(0x00),
        }
    } else if opcode == 0x76 {
        CpuEffect {
            regs: Registers { halt_flag: true, program_counter: pc_plus(r.program_counter, 1), ..r },
            mem: m,
            cycles: spec_cycle_parse(0x76),
        }
    } else if opcode == 0xFB {
        CpuEffect {
            regs: Registers {
                interrupt_master_enable_delay_flag: true,
                program_counter: pc_plus(r.program_counter, 1),
                ..r
            },
            mem: m,
            cycles: spec_cycle_parse(0xFB),
        }
    } else if opcode == 0xF3 {
        CpuEffect {
            regs: Registers {
                interrupt_master_enable_flag: false,
                interrupt_master_enable_delay_flag: false,
                program_counter: pc_plus(r.program_counter, 1),
                ..r
            },
            mem: m,
            cycles: spec_cycle_parse(0xF3),
        }
    } else if opcode & 0xC7 == 0x04 {
        spec_increment(r, m, opcode)
    } else if opcode & 0xC7 == 0x05 {
        spec_decrement(r, m, opcode)
    } else if opcode & 0xE7 == 0x07 {
        spec_rotate_accumulator(r, m, opcode)
    } else if opcode & 0xCF == 0x03 {
        spec_increment_16_bit_register(r, m, opcode)
    } else if opcode & 0xCF == 0x0B {
        spec_decrement_16_bit_register(r, m, opcode)
    } else if opcode == 0x02 {
        spec_store_accumulator_at_pair(r, m, 1, 0x02)
    } else if opcode == 0x12 {
        spec_store_accumulator_at_pair(r, m, 2, 0x12)
    } else if opcode == 0x0A {
        spec_load_accumulator_with_bc_address(r, m)
    } else if opcode == 0x22 {
        spec_load_increment_hl_register_location_with_accumulator(r, m)
    } else if opcode == 0x2A {
        spec_load_accumulator_with_hl_address_step(r, m, true, 0x2A)
    } else if opcode == 0x3A {
        spec_load_accumulator_with_hl_address_step(r, m, false, 0x3A)
    } else if opcode == 0x2F {
        spec_complement_accumulator(r, m)
    } else if opcode == 0x37 {
        spec_set_carry_flag(r, m)
    } else if opcode == 0x3F {
        spec_complement_carry_flag(r, m)
    } else if opcode == 0xF0 {
        spec_load_accumulator_with_io_port_n_offset(r, m)
    } else if opcode == 0xF2 {
        spec_load_accumulator_with_io_port_c_offset(r, m)
    } else if opcode & 0xC7 == 0x06 {
        if (opcode >> 3) & 0x07 == 6 {
            spec_load_hl_address_with_n(r, m)
        } else {
            spec_load_n_to_8bit_register(r, m, opcode)
        }
    } else if 0x40 <= opcode && opcode < 0x80 {
        if (opcode >> 3) & 0x07 == 6 {
            spec_load_hl_address_with_register(r, m, opcode)
        } else if opcode & 0x07 == 6 {
            spec_load_register_with_hl_address(r, m, opcode)
        } else {
            spec_load_8_bit_register_to_register(r, m, opcode)
        }
    } else if 0x80 <= opcode && opcode < 0x88 {
        spec_add_register(r, m, opcode)
    } else if 0x88 <= opcode && opcode < 0x90 {
        spec_add_carry_register(r, m, opcode)
    } else if 0x90 <= opcode && opcode < 0x98 {
        spec_sub_register(r, m, opcode)
    } else if 0x98 <= opcode && opcode < 0xA0 {
        spec_sub_carry_register(r, m, opcode)
    } else if 0xA0 <= opcode && opcode < 0xA8 {
        spec_and_register(r, m, opcode)
    } else if 0xA8 <= opcode && opcode < 0xB0 {
        spec_xor_register(r, m, opcode)
    } else if 0xB0 <= opcode && opcode < 0xB8 {
        spec_or_register(r, m, opcode)
    } else if 0xB8 <= opcode && opcode < 0xC0 {
        spec_compare_register(r, m, opcode)
    } else if opcode & 0xCF == 0x01 {
        spec_load_nn_to_16bit_register(r, m, opcode)
    } else if opcode & 0xCF == 0xC5 {
        spec_push_16bit_register(r, m, opcode)
    } else if opcode & 0xCF == 0xC1 {
        spec_pop_16bit_register(r, m, opcode)
    } else if opcode == 0xC3 {
        spec_jump_nn(r, m)
    } else if opcode == 0xCD {
        spec_call_nn(r, m)
    } else if opcode == 0xC9 {
        spec_return_from_call(r, m)
    } else if opcode == 0x18 {
        spec_jump_displacement(r, m, 0x18, true)
    } else if opcode == 0x20 {
        spec_jump_displacement(r, m, 0x20, r.flags & 0x80 == 0)
    } else if opcode == 0x28 {
        spec_jump_displacement(r, m, 0x28, r.flags & 0x80 != 0)
    } else if opcode == 0x30 {
        spec_jump_displacement(r, m, 0x30, r.flags & 0x10 == 0)
    } else if opcode == 0x38 {
        spec_jump_displacement(r, m, 0x38, r.flags & 0x10 != 0)
    } else if opcode == 0x32 {
        spec_load_decrement_hl_register_location_with_accumulator(r, m)
    } else if opcode == 0x1A {
        spec_load_accumulator_with_de_address(r, m)
    } else if opcode == 0xE0 {
        spec_load_accumulator_to_io_port_with_n_offset(r, m)
    } else if opcode == 0xE2 {
        spec_load_accumulator_to_io_port_with_c_offset(r, m)
    } else if opcode & 0xC7 == 0xC6 {
        spec_accumulator_operation_with_n(r, m, opcode)
    } else if opcode == 0xEA {
        spec_load_nn_address_with_accumulator(r, m)
    } else if opcode == 0xFA {
        spec_load_accumulator_with_nn_address(r, m)
    } else if opcode == 0xF9 {
        spec_load_stack_pointer_with_hl(r, m)
    } else if opcode == 0x08 {
        spec_load_nn_address_with_stack_pointer(r, m)
    } else if opcode == 0xC2 {
        spec_jump_nn_conditional(r, m, 0xC2, r.flags & 0x80 == 0)
    } else if opcode == 0xCA {
        spec_jump_nn_conditional(r, m, 0xCA, r.flags & 0x80 != 0)
    } else if opcode == 0xD2 {
        spec_jump_nn_conditional(r, m, 0xD2, r.flags & 0x10 == 0)
    } else if opcode == 0xDA {
        spec_jump_nn_conditional(r, m, 0xDA, r.flags & 0x10 != 0)
    } else if opcode == 0xC4 {
        spec_call_nn_conditional(r, m, 0xC4, r.flags & 0x80 == 0)
    } else if opcode == 0xCC {
        spec_call_nn_conditional(r, m, 0xCC, r.flags & 0x80 != 0)
    } else if opcode == 0xD4 {
        spec_call_nn_conditional(r, m, 0xD4, r.flags & 0x10 == 0)
    } else if opcode == 0xDC {
        spec_call_nn_conditional(r, m, 0xDC, r.flags & 0x10 != 0)
    } else if opcode == 0xC0 {
        spec_return_conditional(r, m, 0xC0, r.flags & 0x80 == 0)
    } else if opcode == 0xC8 {
        spec_return_conditional(r, m, 0xC8, r.flags & 0x80 != 0)
    } else if opcode == 0xD0 {
        spec_return_conditional(r, m, 0xD0, r.flags & 0x10 == 0)
    } else if opcode == 0xD8 {
        spec_return_conditional(r, m, 0xD8, r.flags & 0x10 != 0)
    } else if opcode == 0xD9 {
        spec_return_from_interrupt(r, m)
    } else if opcode & 0xC7 == 0xC7 {
        spec_restart(r, m, opcode)
    } else if opcode == 0xE9 {
        spec_jump_hl(r, m)
    } else if opcode & 0xCF == 0x09 {
        spec_add_hl_16bit_register(r, m, opcode)
    } else if opcode == 0x27 {
        spec_decimal_adjust(r, m)
    } else if opcode == 0xE8 {
        spec_add_sp_displacement(r, m)
    } else if opcode == 0xF8 {
        spec_load_hl_with_sp_displacement(r, m)
    } else {
        spec_unhandled(r, m)
    }
}

/// The un-halted part of a step: with the master enable set and an
/// interrupt pending the interrupt is serviced instead of a fetch; else a
/// delayed `EI` raises the master enable first (one-instruction latency,
/// and a `DI` executing now still wins), and the instruction executes.
pub open spec fn spec_run(r: Registers, m: MmuView) -> CpuEffect {
    if r.interrupt_master_enable_flag && spec_pending_interrupts(m) != 0 {
        spec_service_interrupt(r, m)
    } else {
        let promoted = if r.interrupt_master_enable_delay_flag {
            Registers {
                interrupt_master_enable_flag: true,
                interrupt_master_enable_delay_flag: false,
                ..r
            }
        } else {
            r
        };
        spec_execute(promoted, m)
    }
}

/// One full step of the engine: a halted core with no enabled pending
/// interrupt only reports a minimal idle cost; one with a pending
/// interrupt clears the halt and resumes; an awake core runs.
pub open spec fn spec_cpu_step(r: Registers, m: MmuView) -> CpuEffect {
    if r.halt_flag {
        if spec_pending_interrupts(m) != 0 {
            spec_run(Registers { halt_flag: false, ..r }, m)
        } else {
            CpuEffect { regs: r, mem: m, cycles: 1 }
        }
    } else {
        spec_run(r, m)
    }
}

/// Fetches the byte at the program counter and dispatches it, with the
/// interrupt machinery already decided.
#[verifier::rlimit(100)]
fn execute_instruction(system_data: &mut SystemData, registers: &mut Registers)
    requires
        old(system_data).mmu@.inv(),
    ensures
        applies_effect(
            spec_execute(*old(registers), old(system_data).mmu@),
            *old(system_data),
            *final(system_data),
            *final(registers),
        ),
        final(system_data).mmu@.inv(),
        old(system_data).mmu@.bank_inv() ==> final(system_data).mmu@.bank_inv(),
{
    let opcode = system_data.mmu.get_from_memory(registers.program_counter as usize, true);
    if opcode == 0xCB {
        let cb_address = registers.program_counter.wrapping_add(1);
        let cb_opcode = system_data.mmu.get_from_memory(cb_address as usize, true);
        proof {
            lemma_opcode_field_bounds(cb_opcode);
        }
        if cb_opcode < 0x40 {
            rotate_shift_operation(system_data, registers, cb_opcode);
        } else if cb_opcode < 0x80 {
            if cb_opcode & 0x07 == 6 {
                bit_check_hl_address(system_data, registers, cb_opcode, (cb_opcode >> 3) & 0x07);
            } else {
                bit_check_register(system_data, registers, cb_opcode, (cb_opcode >> 3) & 0x07);
            }
        } else if cb_opcode < 0xC0 {
            reset_bit(system_data, registers, cb_opcode, (cb_opcode >> 3) & 0x07);
        } else {
            set_bit(system_data, registers, cb_opcode, (cb_opcode >> 3) & 0x07);
        }
    } else if opcode == 0x00 {
        system_data.cycles = cycle_parse(0x00);
        registers.program_counter = registers.program_counter.wrapping_add(1);
    } else if opcode == 0x76 {
        registers.halt_flag = true;
        system_data.cycles = cycle_parse(0x76);
        registers.program_counter = registers.program_counter.wrapping_add(1);
    } else if opcode == 0xFB {
        registers.interrupt_master_enable_delay_flag = true;
        system_data.cycles = cycle_parse(0xFB);
        registers.program_counter = registers.program_counter.wrapping_add(1);
    } else if opcode == 0xF3 {
        registers.interrupt_master_enable_flag = false;
        registers.interrupt_master_enable_delay_flag = false;
        system_data.cycles = cycle_parse(0xF3);
        registers.program_counter = registers.program_counter.wrapping_add(1);
    } else if opcode & 0xC7 == 0x04 {
        increment(system_data, registers, opcode);
    } else if opcode & 0xC7 == 0x05 {
        decrement(system_data, registers, opcode);
    } else if opcode & 0xE7 == 0x07 {
        rotate_accumulator(system_data, registers, opcode);
    } else if opcode & 0xCF == 0x03 {
        increment_16_bit_register(system_data, registers, opcode);
    } else if opcode & 0xCF == 0x0B {
        decrement_16_bit_register(system_data, registers, opcode);
    } else if opcode == 0x02 {
        load_bc_address_with_accumulator(system_data, registers);
    } else if opcode == 0x12 {
        load_de_address_with_accumulator(system_data, registers);
    } else if opcode == 0x0A {
        load_accumulator_with_bc_address(system_data, registers);
    } else if opcode == 0x22 {
        load_increment_hl_register_location_with_accumulator(system_data, registers);
    } else if opcode == 0x2A {
        load_accumulator_with_hl_address_increment(system_data, registers);
    } else if opcode == 0x3A {
        load_accumulator_with_hl_address_decrement(system_data, registers);
    } else if opcode == 0x2F {
        complement_accumulator(system_data, registers);
    } else if opcode == 0x37 {
        set_carry_flag(system_data, registers);
    } else if opcode == 0x3F {
        complement_carry_flag(system_data, registers);
    } else if opcode == 0xF0 {
        load_accumulator_with_io_port_n_offset(system_data, registers);
    } else if opcode == 0xF2 {
        load_accumulator_with_io_port_c_offset(system_data, registers);
    } else if opcode & 0xC7 == 0x06 {
        if (opcode >> 3) & 0x07 == 6 {
            load_hl_address_with_n(system_data, registers);
        } else {
            load_n_to_8bit_register(system_data, registers, opcode);
        }
    } else if opcode >= 0x40 && opcode < 0x80 {
        if (opcode >> 3) & 0x07 == 6 {
            load_hl_address_with_register(system_data, registers, opcode);
        } else if opcode & 0x07 == 6 {
            load_register_with_hl_address(system_data, registers, opcode);
        } else {
            load_8_bit_register_to_register(system_data, registers, opcode);
        }
    } else if opcode >= 0x80 && opcode < 0x88 {
        add_register(system_data, registers, opcode);
    } else if opcode >= 0x88 && opcode < 0x90 {
        add_carry_register(system_data, registers, opcode);
    } else if opcode >= 0x90 && opcode < 0x98 {
        sub_register(system_data, registers, opcode);
    } else if opcode >= 0x98 && opcode < 0xA0 {
        sub_carry_register(system_data, registers, opcode);
    } else if opcode >= 0xA0 && opcode < 0xA8 {
        and_register(system_data, registers, opcode);
    } else if opcode >= 0xA8 && opcode < 0xB0 {
        xor_register(system_data, registers, opcode);
    } else if opcode >= 0xB0 && opcode < 0xB8 {
        or_register(system_data, registers, opcode);
    } else if opcode >= 0xB8 && opcode < 0xC0 {
        compare_register(system_data, registers, opcode);
    } else if opcode & 0xCF == 0x01 {
        load_nn_to_16bit_register(system_data, registers, opcode);
    } else if opcode & 0xCF == 0xC5 {
        push_16bit_register(system_data, registers, opcode);
    } else if opcode & 0xCF == 0xC1 {
        pop_16bit_register(system_data, registers, opcode);
    } else if opcode == 0xC3 {
        jump_nn(system_data, registers);
    } else if opcode == 0xCD {
        call_nn(system_data, registers);
    } else if opcode == 0xC9 {
        return_from_call(system_data, registers);
    } else if opcode == 0x18 {
        jump_displacement(system_data, registers);
    } else if opcode == 0x20 {
        jump_displacement_on_nonzero_flag(system_data, registers);
    } else if opcode == 0x28 {
        jump_displacement_on_zero_flag(system_data, registers);
    } else if opcode == 0x30 {
        jump_displacement_on_no_carry_flag(system_data, registers);
    } else if opcode == 0x38 {
        jump_displacement_on_carry_flag(system_data, registers);
    } else if opcode == 0x32 {
        load_decrement_hl_register_location_with_accumulator(system_data, registers);
    } else if opcode == 0x1A {
        load_accumulator_with_de_address(system_data, registers);
    } else if opcode == 0xE0 {
        load_accumulator_to_io_port_with_n_offset(system_data, registers);
    } else if opcode == 0xE2 {
        load_accumulator_to_io_port_with_c_offset(system_data, registers);
    } else if opcode & 0xC7 == 0xC6 {
        accumulator_operation_with_n(system_data, registers, opcode);
    } else if opcode == 0xEA {
        load_nn_address_with_accumulator(system_data, registers);
    } else if opcode == 0xFA {
        load_accumulator_with_nn_address(system_data, registers);
    } else if opcode == 0xF9 {
        load_stack_pointer_with_hl(system_data, registers);
    } else if opcode == 0x08 {
        load_nn_address_with_stack_pointer(system_data, registers);
    } else if opcode == 0xC2 {
        jump_nn_on_nonzero_flag(system_data, registers);
    } else if opcode == 0xCA {
        jump_nn_on_zero_flag(system_data, registers);
    } else if opcode == 0xD2 {
        jump_nn_on_no_carry_flag(system_data, registers);
    } else if opcode == 0xDA {
        jump_nn_on_carry_flag(system_data, registers);
    } else if opcode == 0xC4 {
        call_nn_on_nonzero_flag(system_data, registers);
    } else if opcode == 0xCC {
        call_nn_on_zero_flag(system_data, registers);
    } else if opcode == 0xD4 {
        call_nn_on_no_carry_flag(system_data, registers);
    } else if opcode == 0xDC {
        call_nn_on_carry_flag(system_data, registers);
    } else if opcode == 0xC0 {
        return_on_nonzero_flag(system_data, registers);
    } else if opcode == 0xC8 {
        return_on_zero_flag(system_data, registers);
    } else if opcode == 0xD0 {
        return_on_no_carry_flag(system_data, registers);
    } else if opcode == 0xD8 {
        return_on_carry_flag(system_data, registers);
    } else if opcode == 0xD9 {
        return_from_interrupt(system_data, registers);
    } else if opcode & 0xC7 == 0xC7 {
        restart(system_data, registers, opcode);
    } else if opcode == 0xE9 {
        jump_hl(system_data, registers);
    } else if opcode & 0xCF == 0x09 {
        add_hl_16bit_register(system_data, registers, opcode);
    } else if opcode == 0x27 {
        decimal_adjust_accumulator(system_data, registers);
    } else if opcode == 0xE8 {
        add_sp_displacement(system_data, registers);
    } else if opcode == 0xF8 {
        load_hl_with_sp_displacement(system_data, registers);
    } else {
        system_data.cycles = 0;
    }
}

#[verifier::rlimit(100)]
pub fn cpu_continue(system_data: &mut SystemData, registers: &mut Registers)
    requires
        old(system_data).mmu@.inv(),
    ensures
        applies_effect(
            spec_cpu_step(*old(registers), old(system_data).mmu@),
            *old(system_data),
            *final(system_data),
            *final(registers),
        ),
        final(system_data).mmu@.inv(),
        old(system_data).mmu@.bank_inv() ==> final(system_data).mmu@.bank_inv(),
{
    if registers.halt_flag {
        let enabled = system_data.mmu.get_from_memory(0xFFFF, true);
        let pending_flags = system_data.mmu.get_from_memory(0xFF0F, true);
        if enabled & pending_flags & 0x1F != 0 {
            registers.halt_flag = false;
        } else {
            system_data.cycles = 1;
            return ;
        }
    }
    let enabled = system_data.mmu.get_from_memory(0xFFFF, true);
    let pending_flags = system_data.mmu.get_from_memory(0xFF0F, true);
    if registers.interrupt_master_enable_flag && enabled & pending_flags & 0x1F != 0 {
        service_interrupt(system_data, registers);
        return ;
    }
    if registers.interrupt_master_enable_delay_flag {
        registers.interrupt_master_enable_flag = true;
        registers.interrupt_master_enable_delay_flag = false;
    }
    execute_instruction(system_data, registers);
}

pub fn init_registers() -> (r: Registers)
    ensures
        r == Registers::initial(),
{
    Registers::new()
}

/// An 8-bit increment sets the half-carry flag exactly when the old value's
/// low nibble crosses its boundary.
pub proof fn lemma_increment_half_carry(value: u8, flags: u8)
    ensures
        (spec_increment_flags(value, flags) & 0x20 != 0) == (value & 0x0F == 0x0F),
{
    assert((((flags & 0x10) | 0x80) | 0x20) & 0x20 != 0 && ((flags & 0x10) | 0x20) & 0x20 != 0
        && ((flags & 0x10) | 0x80) & 0x20 == 0 && (flags & 0x10) & 0x20 == 0) by (bit_vector);
}

/// An increment-class opcode on a register target holding `0xFF`, executed
/// twice, yields `0x00` (with the half-carry and zero flags set, crossing
/// the nibble boundary) and then `0x01` (with both clear).
pub proof fn lemma_increment_twice_from_ff(r: Registers, m: MmuView, opcode: u8)
    requires
        m.inv(),
        opcode & 0xC7 == 0x04,
        (opcode >> 3) & 0x07 != 6,
        r.spec_get(reg_index_of_code((opcode >> 3) & 0x07)) == 0xFF,
    ensures
        spec_increment(r, m, opcode).regs.spec_get(reg_index_of_code((opcode >> 3) & 0x07)) == 0,
        spec_increment(r, m, opcode).regs.flags & 0x20 != 0,
        spec_increment(r, m, opcode).regs.flags & 0x80 != 0,
        spec_increment(
            spec_increment(r, m, opcode).regs,
            spec_increment(r, m, opcode).mem,
            opcode,
        ).regs.spec_get(reg_index_of_code((opcode >> 3) & 0x07)) == 1,
        spec_increment(
            spec_increment(r, m, opcode).regs,
            spec_increment(r, m, opcode).mem,
            opcode,
        ).regs.flags & 0x20 == 0,
        spec_increment(
            spec_increment(r, m, opcode).regs,
            spec_increment(r, m, opcode).mem,
            opcode,
        ).regs.flags & 0x80 == 0,
{
    lemma_opcode_field_bounds(opcode);
    assert(0xFFu8 & 0x0F == 0x0F && 0u8 & 0x0F == 0) by (bit_vector);
    let flags0 = r.flags;
    assert(((((flags0 & 0x10) | 0x80) | 0x20) & 0x20 != 0) && ((((flags0 & 0x10) | 0x80) | 0x20)
        & 0x80 != 0)) by (bit_vector);
    let first_flags = spec_increment(r, m, opcode).regs.flags;
    assert(((first_flags & 0x10) & 0x20 == 0) && ((first_flags & 0x10) & 0x80 == 0))
        by (bit_vector);
}

/// The same, for the memory-operand increment with HL pointing into plain
/// internal RAM (a target with write side effects — a mapped register or a
/// banking window — does not hold its incremented value).
pub proof fn lemma_increment_memory_twice_from_ff(r: Registers, m: MmuView)
    requires
        m.inv(),
        0xC000 <= r.spec_get_16(3) < 0xDE00,
        m.mem[r.spec_get_16(3) as int] == 0xFF,
    ensures
        spec_increment(r, m, 0x34).mem.mem[r.spec_get_16(3) as int] == 0,
        spec_increment(r, m, 0x34).regs.flags & 0x20 != 0,
        spec_increment(
            spec_increment(r, m, 0x34).regs,
            spec_increment(r, m, 0x34).mem,
            0x34,
        ).mem.mem[r.spec_get_16(3) as int] == 1,
        spec_increment(
            spec_increment(r, m, 0x34).regs,
            spec_increment(r, m, 0x34).mem,
            0x34,
        ).regs.flags & 0x20 == 0,
{
    assert((0x34u8 >> 3) & 0x07 == 6) by (bit_vector);
    assert(0xFFu8 & 0x0F == 0x0F && 0u8 & 0x0F == 0) by (bit_vector);
    let flags0 = r.flags;
    assert((((flags0 & 0x10) | 0x80) | 0x20) & 0x20 != 0) by (bit_vector);
    let first_flags = spec_increment(r, m, 0x34).regs.flags;
    assert((first_flags & 0x10) & 0x20 == 0) by (bit_vector);
}

/// Relative jumps move the program counter by the displacement byte:
/// below `0x80` it adds (past the 2-byte instruction), at `0x80` or above
/// it is sign-extended and subtracts, both modulo the address space.
pub proof fn lemma_relative_jump_displacement(pc: u16, displacement: u8)
    ensures
        displacement < 0x80 ==> spec_relative_jump_target(pc, displacement) == (pc + 2
            + displacement) % 0x10000,
        displacement >= 0x80 ==> spec_relative_jump_target(pc, displacement) == (pc + 2
            + displacement - 0x100) % 0x10000,
{
}

/// `EI` latency: executing `EI` arms only the delay flag, so the following
/// step cannot service an interrupt — it is a plain execution of the next
/// instruction — and the master enable is up only after that instruction
/// completes (a `DI` executing there still wins).
#[verifier::rlimit(100)]
pub proof fn lemma_ei_latency(r: Registers, m: MmuView)
    requires
        m.inv(),
        !r.halt_flag,
        !r.interrupt_master_enable_flag,
        !r.interrupt_master_enable_delay_flag,
        m.read(r.program_counter as int, true) == 0xFB,
    ensures
        spec_cpu_step(r, m).mem == m,
        !spec_cpu_step(r, m).regs.interrupt_master_enable_flag,
        spec_cpu_step(r, m).regs.interrupt_master_enable_delay_flag,
        spec_cpu_step(spec_cpu_step(r, m).regs, m) == spec_execute(
            (Registers {
                interrupt_master_enable_flag: true,
                interrupt_master_enable_delay_flag: false,
                ..spec_cpu_step(r, m).regs
            }),
            m,
        ),
        m.read(spec_cpu_step(r, m).regs.program_counter as int, true) != 0xF3
            ==> spec_cpu_step(spec_cpu_step(r, m).regs, m).regs.interrupt_master_enable_flag,
{
}

} // verus!
