//! The register file: eight 8-bit general registers, the flags register,
//! the stack pointer, the program counter, and the interrupt-latch flags.
//!
//! The instruction dispatch tables select registers by small integer codes,
//! so the accessors here are indexed.  An index outside the table returns a
//! sentinel (`0xFF` / `0xFFFF`) instead of failing: such indices match
//! encoding gaps of the instruction set and are never produced by a legal
//! opcode.

use vstd::prelude::*;

verus! {

pub struct Registers {
    pub accumulator: u8,
    pub flags: u8,
    pub b_register: u8,
    pub c_register: u8,
    pub d_register: u8,
    pub e_register: u8,
    pub h_register: u8,
    pub l_register: u8,
    pub stack_pointer: u16,
    pub program_counter: u16,
    pub interrupt_master_enable_flag: bool,
    pub interrupt_master_enable_delay_flag: bool,
    pub halt_flag: bool,
}

impl Registers {
    /// The power-on state: every register and flag zero.
    pub open spec fn initial() -> Registers {
        Registers {
            accumulator: 0,
            flags: 0,
            b_register: 0,
            c_register: 0,
            d_register: 0,
            e_register: 0,
            h_register: 0,
            l_register: 0,
            stack_pointer: 0,
            program_counter: 0,
            interrupt_master_enable_flag: false,
            interrupt_master_enable_delay_flag: false,
            halt_flag: false,
        }
    }

    /// The flagless 8-bit register table: 0..6 is A, B, C, D, E, H, L.
    pub open spec fn spec_get(self, index: u8) -> u8 {
        match index {
            0 => self.accumulator,
            1 => self.b_register,
            2 => self.c_register,
            3 => self.d_register,
            4 => self.e_register,
            5 => self.h_register,
            6 => self.l_register,
            _ => 0xFF,
        }
    }

    pub open spec fn spec_set(self, index: u8, value: u8) -> Registers {
        match index {
            0 => Registers { accumulator: value, ..self },
            1 => Registers { b_register: value, ..self },
            2 => Registers { c_register: value, ..self },
            3 => Registers { d_register: value, ..self },
            4 => Registers { e_register: value, ..self },
            5 => Registers { h_register: value, ..self },
            6 => Registers { l_register: value, ..self },
            _ => self,
        }
    }

    /// The 8-bit register table with a flags slot: 0..7 is A, F, B, C, D, E, H, L.
    pub open spec fn spec_get_with_flags(self, index: u8) -> u8 {
        match index {
            0 => self.accumulator,
            1 => self.flags,
            2 => self.b_register,
            3 => self.c_register,
            4 => self.d_register,
            5 => self.e_register,
            6 => self.h_register,
            7 => self.l_register,
            _ => 0xFF,
        }
    }

    pub open spec fn spec_set_with_flags(self, index: u8, value: u8) -> Registers {
        match index {
            0 => Registers { accumulator: value, ..self },
            1 => Registers { flags: value, ..self },
            2 => Registers { b_register: value, ..self },
            3 => Registers { c_register: value, ..self },
            4 => Registers { d_register: value, ..self },
            5 => Registers { e_register: value, ..self },
            6 => Registers { h_register: value, ..self },
            7 => Registers { l_register: value, ..self },
            _ => self,
        }
    }

    /// The register-pair table: 0..4 is AF, BC, DE, HL, SP.
    pub open spec fn spec_get_16(self, index: u8) -> u16 {
        match index {
            0 => (self.accumulator as u16) << 8 | self.flags as u16,
            1 => (self.b_register as u16) << 8 | self.c_register as u16,
            2 => (self.d_register as u16) << 8 | self.e_register as u16,
            3 => (self.h_register as u16) << 8 | self.l_register as u16,
            4 => self.stack_pointer,
            _ => 0xFFFF,
        }
    }

    pub open spec fn spec_set_16(self, index: u8, value: u16) -> Registers {
        let high = ((value & 0xFF00) >> 8) as u8;
        let low = (value & 0x00FF) as u8;
        match index {
            0 => Registers { accumulator: high, flags: low, ..self },
            1 => Registers { b_register: high, c_register: low, ..self },
            2 => Registers { d_register: high, e_register: low, ..self },
            3 => Registers { h_register: high, l_register: low, ..self },
            4 => Registers { stack_pointer: value, ..self },
            _ => self,
        }
    }

    pub fn new() -> (r: Registers)
        ensures
            r == Registers::initial(),
    {
        Registers {
            accumulator: 0,
            flags: 0,
            b_register: 0,
            c_register: 0,
            d_register: 0,
            e_register: 0,
            h_register: 0,
            l_register: 0,
            stack_pointer: 0,
            program_counter: 0,
            interrupt_master_enable_flag: false,
            interrupt_master_enable_delay_flag: false,
            halt_flag: false,
        }
    }

    pub fn mapped_register_setter(&mut self, index: u8, value: u8)
        ensures
            *final(self) == old(self).spec_set(index, value),
    {
        match index {
            0 => self.accumulator = value,
            1 => self.b_register = value,
            2 => self.c_register = value,
            3 => self.d_register = value,
            4 => self.e_register = value,
            5 => self.h_register = value,
            6 => self.l_register = value,
            _ => (),
        }
    }

    pub fn mapped_register_getter(&self, index: u8) -> (r: u8)
        ensures
            r == self.spec_get(index),
    {
        match index {
            0 => self.accumulator,
            1 => self.b_register,
            2 => self.c_register,
            3 => self.d_register,
            4 => self.e_register,
            5 => self.h_register,
            6 => self.l_register,
            _ => 0xFF,
        }
    }

    pub fn mapped_register_setter_with_flags(&mut self, index: u8, value: u8)
        ensures
            *final(self) == old(self).spec_set_with_flags(index, value),
    {
        match index {
            0 => self.accumulator = value,
            1 => self.flags = value,
            2 => self.b_register = value,
            3 => self.c_register = value,
            4 => self.d_register = value,
            5 => self.e_register = value,
            6 => self.h_register = value,
            7 => self.l_register = value,
            _ => (),
        }
    }

    pub fn mapped_register_getter_with_flags(&self, index: u8) -> (r: u8)
        ensures
            r == self.spec_get_with_flags(index),
    {
        match index {
            0 => self.accumulator,
            1 => self.flags,
            2 => self.b_register,
            3 => self.c_register,
            4 => self.d_register,
            5 => self.e_register,
            6 => self.h_register,
            7 => self.l_register,
            _ => 0xFF,
        }
    }

    pub fn mapped_16_bit_register_getter(&self, index: u8) -> (r: u16)
        ensures
            r == self.spec_get_16(index),
    {
        match index {
            0 => (self.accumulator as u16) << 8 | self.flags as u16,
            1 => (self.b_register as u16) << 8 | self.c_register as u16,
            2 => (self.d_register as u16) << 8 | self.e_register as u16,
            3 => (self.h_register as u16) << 8 | self.l_register as u16,
            4 => self.stack_pointer,
            _ => 0xFFFF,
        }
    }

    pub fn mapped_16_bit_register_setter(&mut self, index: u8, value: u16)
        ensures
            *final(self) == old(self).spec_set_16(index, value),
    {
        let high = ((value & 0xFF00) >> 8) as u8;
        let low = (value & 0x00FF) as u8;
        match index {
            0 => {
                self.accumulator = high;
                self.flags = low;
            },
            1 => {
                self.b_register = high;
                self.c_register = low;
            },
            2 => {
                self.d_register = high;
                self.e_register = low;
            },
            3 => {
                self.h_register = high;
                self.l_register = low;
            },
            4 => self.stack_pointer = value,
            _ => (),
        }
    }
}

} // verus!
