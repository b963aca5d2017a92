//! The memory management unit: the 64KB unified address space, the backing
//! ROM/RAM bank storage, address translation with its per-region side
//! effects, and the cartridge-controller bank switching protocols.
//!
//! Every read and write first folds echo-RAM addresses (`0xE000..0xFDFF`
//! mirrors `0xC000..0xDDFF`), then special-cases a small set of registers,
//! then falls through to bank-aware storage.

use vstd::prelude::*;

verus! {

/// Mathematical model of the unit: the unified map and the bank stores as
/// sequences, beside the cartridge-controller state.
#[verifier::ext_equal]
pub struct MmuView {
    pub mem: Seq<u8>,
    pub banks: Seq<Seq<u8>>,
    pub rams: Seq<Seq<u8>>,
    pub cartridge_type: u8,
    pub rom_size: u16,
    pub ram_size: u8,
    pub rom_bank: u8,
    pub ram_bank: u8,
    pub ram_enable: bool,
    pub banking_mode: u8,
    pub div_reset: bool,
    pub rtc_enable: bool,
    pub ram_rtc_bank: u8,
}

pub struct MMU {
    pub mem_map: Vec<u8>,
    pub memory_banks: Vec<Vec<u8>>,
    pub ram_banks: Vec<Vec<u8>>,
    pub cartridge_type: u8,
    pub rom_size: u16,
    pub ram_size: u8,
    pub rom_bank: u8,
    pub ram_bank: u8,
    pub ram_enable: bool,
    pub banking_mode: u8,
    pub div_reset: bool,
    pub rtc_enable: bool,
    pub ram_rtc_bank: u8,
}

/// Each nested vector as a sequence.
pub open spec fn rows_view(v: Seq<Vec<u8>>) -> Seq<Seq<u8>> {
    Seq::new(v.len(), |i: int| v[i]@)
}

impl View for MMU {
    type V = MmuView;

    open spec fn view(&self) -> MmuView {
        MmuView {
            mem: self.mem_map@,
            banks: rows_view(self.memory_banks@),
            rams: rows_view(self.ram_banks@),
            cartridge_type: self.cartridge_type,
            rom_size: self.rom_size,
            ram_size: self.ram_size,
            rom_bank: self.rom_bank,
            ram_bank: self.ram_bank,
            ram_enable: self.ram_enable,
            banking_mode: self.banking_mode,
            div_reset: self.div_reset,
            rtc_enable: self.rtc_enable,
            ram_rtc_bank: self.ram_rtc_bank,
        }
    }
}

/// Echo RAM: an address in `0xE000..0xFDFF` is rewritten to the internal-RAM
/// address one step (`0x2000`) below it before it touches the backing store.
pub open spec fn fold_echo(address: int) -> int {
    if 0xE000 <= address && address < 0xFE00 {
        address - 0x2000
    } else {
        address
    }
}

impl MmuView {
    /// Shape of the storage: a 64KB unified map, 256 ROM banks of 16KB,
    /// 4 RAM banks of 8KB, and an active RAM bank index inside the store.
    pub open spec fn inv(self) -> bool {
        &&& self.mem.len() == 0x10000
        &&& self.banks.len() == 0x100
        &&& (forall|i: int| 0 <= i < 0x100 ==> (#[trigger] self.banks[i]).len() == 0x4000)
        &&& self.rams.len() == 4
        &&& (forall|i: int| 0 <= i < 4 ==> (#[trigger] self.rams[i]).len() == 0x2000)
        &&& self.ram_bank < 4
    }

    /// The power-on state: all storage zeroed, ROM bank 1 active.
    pub open spec fn initial() -> MmuView {
        MmuView {
            mem: Seq::new(0x10000, |i: int| 0u8),
            banks: Seq::new(0x100, |i: int| Seq::new(0x4000, |j: int| 0u8)),
            rams: Seq::new(4, |i: int| Seq::new(0x2000, |j: int| 0u8)),
            cartridge_type: 0,
            rom_size: 0,
            ram_size: 0,
            rom_bank: 1,
            ram_bank: 0,
            ram_enable: false,
            banking_mode: 0,
            div_reset: false,
            rtc_enable: false,
            ram_rtc_bank: 0,
        }
    }

    /// What a read observes, after echo folding: the timer-control register
    /// with its three unused high bits forced set, the switchable ROM window
    /// from the active bank, the external-RAM window gated by the enable
    /// latch and the declared RAM capacity, and the unified map elsewhere.
    pub open spec fn read(self, address: int, masked_read: bool) -> u8 {
        let folded = fold_echo(address);
        if folded == 0xFF07 {
            self.mem[folded] | 0xF8
        } else if 0x4000 <= folded && folded < 0x8000 {
            self.banks[self.rom_bank as int][folded - 0x4000]
        } else if 0xA000 <= folded && folded < 0xC000 {
            if self.ram_enable && !self.rtc_enable {
                if (self.ram_size == 2 && folded > 0xA7FF) || self.ram_size == 0 {
                    0xFF
                } else {
                    self.rams[self.ram_bank as int][folded - 0xA000]
                }
            } else if self.ram_enable && self.rtc_enable {
                if self.ram_rtc_bank >= 0x04 {
                    // an RTC register is selected on a controller that has
                    // not implemented RTC: the read yields 0xFF
                    0xFF
                } else if (self.ram_size == 2 && folded > 0xA7FF) || self.ram_size == 0 {
                    0xFF
                } else {
                    self.rams[self.ram_rtc_bank as int][folded - 0xA000]
                }
            } else {
                0xFF
            }
        } else {
            self.mem[folded]
        }
    }

    /// The active ROM bank index never points at the fixed bank: hardware
    /// aliases bank-select value 0 to 1.  Under the first controller family
    /// even the low five bank bits stay nonzero, so that clearing the upper
    /// extension bits cannot re-expose bank 0.
    pub open spec fn bank_inv(self) -> bool {
        &&& self.rom_bank != 0
        &&& ((self.cartridge_type == 0x01 || self.cartridge_type == 0x02 || self.cartridge_type
            == 0x03) ==> self.rom_bank & 0x1F != 0)
    }

    /// What the first controller family (with the 5+2-bit split bank index
    /// and the ROM/RAM banking-mode toggle) does to a write in one of its
    /// address windows; outside them the state is untouched.
    pub open spec fn mbc1_write(self, address: int, value: u8) -> MmuView {
        if 0x0000 <= address && address < 0x2000 {
            MmuView { ram_enable: value & 0x0F == 0x0A, ..self }
        } else if 0x2000 <= address && address < 0x4000 {
            let bank = if value & 0x1F == 0 {
                1u8
            } else {
                value & 0x1F
            };
            MmuView { rom_bank: (self.rom_bank & 0xE0) | bank, ..self }
        } else if 0x4000 <= address && address < 0x6000 {
            if self.banking_mode == 0 {
                MmuView { rom_bank: (self.rom_bank & 0x1F) | ((value & 0x03) << 5), ..self }
            } else {
                MmuView { rom_bank: self.rom_bank & 0x1F, ram_bank: value & 0x03, ..self }
            }
        } else if 0x6000 <= address && address < 0x8000 {
            let mode = value & 0x01;
            if mode == 0 {
                MmuView { banking_mode: mode, ram_bank: 0, ..self }
            } else {
                MmuView { banking_mode: mode, rom_bank: self.rom_bank & 0x1F, ..self }
            }
        } else if 0xA000 <= address && address < 0xC000 {
            if self.ram_enable {
                MmuView {
                    rams: self.rams.update(
                        self.ram_bank as int,
                        self.rams[self.ram_bank as int].update(address - 0xA000, value),
                    ),
                    ..self
                }
            } else {
                self
            }
        } else {
            self
        }
    }

    /// What the RTC-capable controller (7-bit bank index, combined RAM/RTC
    /// selector, latch window left unimplemented) does to a write in one of
    /// its address windows.
    pub open spec fn mbc3_write(self, address: int, value: u8) -> MmuView {
        if 0x0000 <= address && address < 0x2000 {
            MmuView {
                ram_enable: value & 0x0F == 0x0A,
                rtc_enable: value & 0x0F == 0x0A,
                ..self
            }
        } else if 0x2000 <= address && address < 0x4000 {
            let bank = if value & 0x7F == 0 {
                1u8
            } else {
                value & 0x7F
            };
            MmuView { rom_bank: bank, ..self }
        } else if 0x4000 <= address && address < 0x6000 {
            MmuView { ram_rtc_bank: value & 0x0F, ..self }
        } else if 0x6000 <= address && address < 0x8000 {
            // the RTC latch operation is not modeled
            self
        } else if 0xA000 <= address && address < 0xC000 {
            if self.ram_enable && self.ram_rtc_bank < 0x04 {
                MmuView {
                    rams: self.rams.update(
                        self.ram_rtc_bank as int,
                        self.rams[self.ram_rtc_bank as int].update(address - 0xA000, value),
                    ),
                    ..self
                }
            } else {
                self
            }
        } else {
            self
        }
    }

    /// The installed controller's intercept, selected by the cartridge-type
    /// byte: the stepped state beside whether the address was claimed (a
    /// claimed write never reaches the unified map).
    pub open spec fn controller_write(self, address: int, value: u8) -> (MmuView, bool) {
        if self.cartridge_type == 0x01 || self.cartridge_type == 0x02 || self.cartridge_type
            == 0x03 {
            (self.mbc1_write(address, value), mbc_claims(address))
        } else if self.cartridge_type == 0x13 {
            (self.mbc3_write(address, value), mbc_claims(address))
        } else {
            (self, false)
        }
    }

    /// The effect of loading a raw cartridge image: bank 0 and the header
    /// decode, the declared banks populated from fixed 16KB slices of the
    /// image (slices past its end left as they were), and banks 0 and 1
    /// mirrored into the unified map's initial `0x0000..0x7FFF` window.  An
    /// image shorter than two banks leaves the state untouched.
    pub open spec fn load_cartridge(self, image: Seq<u8>) -> MmuView {
        if image.len() < 0x8000 {
            self
        } else {
            let banks_n = spec_rom_size(image[0x0148]);
            let loaded = Seq::new(
                self.banks.len(),
                |i: int|
                    if i == 0 {
                        image.subrange(0, 0x4000)
                    } else if i == 1 && banks_n == 0 {
                        image.subrange(0x4000, 0x8000)
                    } else if 1 <= i && i < banks_n && 0x4000 * (i + 1) <= image.len() {
                        image.subrange(0x4000 * i, 0x4000 * (i + 1))
                    } else {
                        self.banks[i]
                    },
            );
            let mirrored = Seq::new(
                self.mem.len(),
                |j: int|
                    if 0 <= j && j < 0x4000 {
                        loaded[0][j]
                    } else if 0x4000 <= j && j < 0x8000 {
                        loaded[1][j - 0x4000]
                    } else {
                        self.mem[j]
                    },
            );
            MmuView {
                mem: mirrored,
                banks: loaded,
                cartridge_type: image[0x0147],
                rom_size: banks_n,
                ram_size: spec_ram_size(image[0x0149]),
                ..self
            }
        }
    }

    /// The complete effect of one write: echo folding, then (for CPU
    /// accesses) the DMA trigger, the joypad select-bit merge, the divider
    /// reset and the controller intercept, then the plain store unless the
    /// write was claimed.  Internal writes skip every side effect.
    pub open spec fn write(self, address: int, value: u8, masked_set: bool) -> MmuView {
        let folded = fold_echo(address);
        if masked_set {
            if folded == 0xFF46 {
                MmuView { mem: dma(self.mem, value), ..self }
            } else {
                let set_value = if folded == 0xFF00 {
                    (self.mem[folded] & 0xCF) | (value & 0x30)
                } else if folded == 0xFF04 {
                    0u8
                } else {
                    value
                };
                let with_div = if folded == 0xFF04 {
                    MmuView { div_reset: true, ..self }
                } else {
                    self
                };
                let stepped = with_div.controller_write(folded, set_value).0;
                let handled = with_div.controller_write(folded, set_value).1;
                if handled {
                    stepped
                } else {
                    MmuView { mem: stepped.mem.update(folded, set_value), ..stepped }
                }
            }
        } else {
            MmuView { mem: self.mem.update(folded, value), ..self }
        }
    }
}

/// The ROM-size header byte mapped to its declared bank count: a fixed
/// lookup table, unmapped codes defaulting to zero banks.
pub open spec fn spec_rom_size(rom_tag: u8) -> u16 {
    match rom_tag {
        0x00 => 0,
        0x01 => 4,
        0x02 => 8,
        0x03 => 16,
        0x04 => 32,
        0x05 => 64,
        0x06 => 128,
        0x07 => 256,
        0x52 => 72,
        0x53 => 80,
        0x54 => 96,
        _ => 0,
    }
}

/// The RAM-size header byte mapped to its declared capacity code: a fixed
/// lookup table, unmapped codes defaulting to zero.
pub open spec fn spec_ram_size(ram_tag: u8) -> u8 {
    match ram_tag {
        0x00 => 0,
        0x01 => 2,
        0x02 => 8,
        0x03 => 32,
        _ => 0,
    }
}

/// The address windows a cartridge controller intercepts: the four banking
/// windows below the video RAM and the external-RAM window.
pub open spec fn mbc_claims(address: int) -> bool {
    (0x0000 <= address && address < 0x8000) || (0xA000 <= address && address < 0xC000)
}

/// OAM DMA: the 160 object-attribute bytes replaced by the bytes of the
/// source page, every other address untouched.
pub open spec fn dma(mem: Seq<u8>, page: u8) -> Seq<u8> {
    Seq::new(
        mem.len(),
        |j: int|
            if 0xFE00 <= j && j < 0xFEA0 {
                mem[page as int * 0x100 + (j - 0xFE00)]
            } else {
                mem[j]
            },
    )
}

impl MMU {
    pub fn new() -> (r: MMU)
        ensures
            r@ == MmuView::initial(),
            r@.inv(),
    {
        let mut mem_map: Vec<u8> = Vec::new();
        mem_map.resize(0x10000, 0u8);
        let mut bank: Vec<u8> = Vec::new();
        bank.resize(0x4000, 0u8);
        let mut memory_banks: Vec<Vec<u8>> = Vec::new();
        memory_banks.resize(0x100, bank);
        let mut ram: Vec<u8> = Vec::new();
        ram.resize(0x2000, 0u8);
        let mut ram_banks: Vec<Vec<u8>> = Vec::new();
        ram_banks.resize(4, ram);
        let r = MMU {
            mem_map,
            memory_banks,
            ram_banks,
            cartridge_type: 0,
            rom_size: 0x00,
            ram_size: 0x00,
            rom_bank: 1,
            ram_bank: 0,
            ram_enable: false,
            banking_mode: 0,
            div_reset: false,
            rtc_enable: false,
            ram_rtc_bank: 0,
        };
        proof {
            assert(r@.mem =~= MmuView::initial().mem);
            assert(r@.banks =~~= MmuView::initial().banks);
            assert(r@.rams =~~= MmuView::initial().rams);
            assert(r@ =~= MmuView::initial());
        }
        r
    }

    pub fn get_from_memory(&self, location: usize, masked_read: bool) -> (r: u8)
        requires
            self@.inv(),
            location < 0x10000,
        ensures
            r == self@.read(location as int, masked_read),
    {
        let mut location_fixed = location;
        if location_fixed >= 0xE000 && location_fixed < 0xFE00 {
            location_fixed -= 0x2000;
        } else if location_fixed == 0xFF07 {
            return self.mem_map[location_fixed] | 0b11111000;
        }
        if location_fixed >= 0x4000 && location_fixed < 0x8000 {
            proof {
                assert(self@.banks[self.rom_bank as int].len() == 0x4000);
            }
            return self.memory_banks[self.rom_bank as usize][location_fixed - 0x4000];
        }
        if location_fixed >= 0xA000 && location_fixed < 0xC000 {
            if self.ram_enable && !self.rtc_enable {
                if (self.ram_size == 2 && location_fixed > 0xA7FF) || self.ram_size == 0 {
                    return 0xFF;
                } else {
                    proof {
                        assert(self@.rams[self.ram_bank as int].len() == 0x2000);
                    }
                    return self.ram_banks[self.ram_bank as usize][location_fixed - 0xA000];
                }
            }
            if self.ram_enable && self.rtc_enable {
                if self.ram_rtc_bank >= 0x04 {
                    // an RTC register is selected: no time-keeping is modeled
                    return 0xFF;
                } else if (self.ram_size == 2 && location_fixed > 0xA7FF) || self.ram_size == 0 {
                    return 0xFF;
                } else {
                    proof {
                        assert(self@.rams[self.ram_rtc_bank as int].len() == 0x2000);
                    }
                    return self.ram_banks[self.ram_rtc_bank as usize][location_fixed - 0xA000];
                }
            } else {
                return 0xFF;
            }
        }
        self.mem_map[location_fixed]
    }

    pub fn set_to_memory(&mut self, location_old: usize, value: u8, masked_set: bool)
        requires
            old(self)@.inv(),
            location_old < 0x10000,
        ensures
            final(self)@ == old(self)@.write(location_old as int, value, masked_set),
            final(self)@.inv(),
            old(self)@.bank_inv() ==> final(self)@.bank_inv(),
    {
        let mut location = location_old;
        if location >= 0xE000 && location < 0xFE00 {
            location -= 0x2000;
        }
        let mut set_value = value;
        let mut rom_flag = false;
        if masked_set {
            if location == 0xFF46 {
                self.oam_dma_transfer(set_value);
                // the plain store is skipped for the DMA trigger
                return ;
            } else if location == 0xFF00 {
                let previous_value = self.mem_map[location];
                set_value = (previous_value & 0b11001111) | (set_value & 0b00110000);
            } else if location == 0xFF04 {
                set_value = 0;
                self.div_reset = true;
            }
            match self.cartridge_type {
                0x00 => (),
                0x01 | 0x02 | 0x03 => {
                    rom_flag = self.mbc1_parse(location, set_value);
                },
                0x13 => {
                    rom_flag = self.mbc3_parse(location, set_value);
                },
                _ => (),
            }
        }
        if !rom_flag {
            self.mem_map[location] = set_value;
        }
    }

    pub fn oam_dma_transfer(&mut self, value: u8)
        requires
            old(self)@.inv(),
        ensures
            final(self)@ == (MmuView { mem: dma(old(self)@.mem, value), ..old(self)@ }),
            final(self)@.inv(),
    {
        let ghost m0 = self@;
        let start_address = ((value as u16) << 8) as usize;
        proof {
            assert((value as u16) << 8 == value as u16 * 0x100) by (bit_vector);
        }
        let mut i: usize = 0;
        while i < 0xA0
            invariant
                i <= 0xA0,
                start_address == value as int * 0x100,
                self@ == (MmuView { mem: self@.mem, ..m0 }),
                self@.mem.len() == 0x10000,
                m0.inv(),
                forall|j: int|
                    0xFE00 <= j && j < 0xFE00 + i ==> self@.mem[j] == m0.mem[value as int * 0x100
                        + (j - 0xFE00)],
                forall|j: int|
                    0 <= j && j < 0x10000 && !(0xFE00 <= j && j < 0xFE00 + i) ==> self@.mem[j]
                        == m0.mem[j],
            decreases 0xA0 - i,
        {
            proof {
                if value <= 0xFD {
                    assert(start_address <= 0xFD00);
                }
            }
            self.mem_map[0xFE00 + i] = self.mem_map[start_address + i];
            i += 1;
        }
        proof {
            assert(self@.mem =~= dma(m0.mem, value));
        }
    }

    pub fn mbc1_parse(&mut self, location: usize, value: u8) -> (handled: bool)
        requires
            old(self)@.inv(),
        ensures
            handled == mbc_claims(location as int),
            final(self)@ == old(self)@.mbc1_write(location as int, value),
            final(self)@.inv(),
            (old(self)@.bank_inv() && (old(self)@.cartridge_type == 0x01
                || old(self)@.cartridge_type == 0x02 || old(self)@.cartridge_type == 0x03))
                ==> final(self)@.bank_inv(),
    {
        if location < 0x2000 {
            if (value & 0x0F) == 0x0A {
                self.ram_enable = true;
            } else {
                self.ram_enable = false;
            }
            true
        } else if location < 0x4000 {
            let mut bank = value & 0x1F;
            if bank == 0 {
                bank += 1;
            }
            proof {
                let rb = old(self)@.rom_bank;
                assert(((rb & 0xE0) | bank) != 0 && ((rb & 0xE0) | bank) & 0x1F == bank)
                    by (bit_vector)
                    requires
                        (bank == (value & 0x1F) || bank == 1) && bank != 0,
                ;
            }
            self.rom_bank &= 0xE0;
            self.rom_bank |= bank;
            true
        } else if location < 0x6000 {
            proof {
                let rb = old(self)@.rom_bank;
                assert(rb & 0x1F != 0 ==> ((rb & 0x1F) | ((value & 0x03) << 5)) != 0 && ((rb
                    & 0x1F) | ((value & 0x03) << 5)) & 0x1F != 0) by (bit_vector);
                assert(rb & 0x1F != 0 ==> (rb & 0x1F) & 0x1F != 0) by (bit_vector);
                assert(value & 0x03 < 4) by (bit_vector);
            }
            self.rom_bank &= 0x1F;
            if self.banking_mode == 0 {
                self.rom_bank |= (value & 0x03) << 5;
            } else {
                self.ram_bank = value & 0x03;
            }
            true
        } else if location < 0x8000 {
            proof {
                let rb = old(self)@.rom_bank;
                assert(rb & 0x1F != 0 ==> (rb & 0x1F) != 0 && (rb & 0x1F) & 0x1F != 0)
                    by (bit_vector);
            }
            self.banking_mode = value & 0x01;
            if self.banking_mode == 0 {
                self.ram_bank = 0;
            } else {
                self.rom_bank &= 0x1F;
            }
            true
        } else if 0xA000 <= location && location < 0xC000 {
            if self.ram_enable {
                proof {
                    assert(self@.rams[self.ram_bank as int].len() == 0x2000);
                }
                self.ram_banks[self.ram_bank as usize][location - 0xA000] = value;
                proof {
                    let target = old(self)@.mbc1_write(location as int, value);
                    assert(self@.rams =~~= target.rams);
                    assert(self@ =~~= target);
                }
            }
            true
        } else {
            false
        }
    }

    pub fn mbc3_parse(&mut self, location: usize, value: u8) -> (handled: bool)
        requires
            old(self)@.inv(),
        ensures
            handled == mbc_claims(location as int),
            final(self)@ == old(self)@.mbc3_write(location as int, value),
            final(self)@.inv(),
            (old(self)@.bank_inv() && old(self)@.cartridge_type == 0x13)
                ==> final(self)@.bank_inv(),
    {
        if location < 0x2000 {
            if (value & 0x0F) == 0x0A {
                self.ram_enable = true;
                self.rtc_enable = true;
            } else {
                self.ram_enable = false;
                self.rtc_enable = false;
            }
            true
        } else if location < 0x4000 {
            let mut bank = value & 0x7F;
            if bank == 0 {
                bank += 1;
            }
            self.rom_bank = bank;
            true
        } else if location < 0x6000 {
            self.ram_rtc_bank = value & 0x0F;
            true
        } else if location < 0x8000 {
            // the RTC latch operation is not modeled
            true
        } else if 0xA000 <= location && location < 0xC000 {
            if self.ram_enable && self.ram_rtc_bank < 0x04 {
                proof {
                    assert(self@.rams[self.ram_rtc_bank as int].len() == 0x2000);
                }
                self.ram_banks[self.ram_rtc_bank as usize][location - 0xA000] = value;
                proof {
                    let target = old(self)@.mbc3_write(location as int, value);
                    assert(self@.rams =~~= target.rams);
                    assert(self@ =~~= target);
                }
            }
            true
        } else {
            false
        }
    }

    pub fn parse_rom_size(&mut self, rom_tag: u8) -> (banks: u16)
        ensures
            *final(self) == *old(self),
            banks == spec_rom_size(rom_tag),
    {
        match rom_tag {
            0x00 => 0,
            0x01 => 4,
            0x02 => 8,
            0x03 => 16,
            0x04 => 32,
            0x05 => 64,
            0x06 => 128,
            0x07 => 256,
            0x52 => 72,
            0x53 => 80,
            0x54 => 96,
            _ => 0,
        }
    }

    pub fn parse_ram_size(&mut self, ram_tag: u8) -> (size: u8)
        ensures
            *final(self) == *old(self),
            size == spec_ram_size(ram_tag),
    {
        match ram_tag {
            0x00 => 0,
            0x01 => 2,
            0x02 => 8,
            0x03 => 32,
            _ => 0,
        }
    }

    /// Copies one fixed 16KB slice of the image into the given ROM bank.
    fn copy_bank(&mut self, bank_index: usize, rom_image: &Vec<u8>, start: usize)
        requires
            old(self)@.inv(),
            bank_index < 0x100,
            start + 0x4000 <= rom_image@.len(),
        ensures
            final(self)@ == (MmuView {
                banks: old(self)@.banks.update(
                    bank_index as int,
                    rom_image@.subrange(start as int, start + 0x4000),
                ),
                ..old(self)@
            }),
            final(self)@.inv(),
    {
        let ghost m0 = self@;
        let image_len = rom_image.len();
        let mut j: usize = 0;
        while j < 0x4000
            invariant
                j <= 0x4000,
                bank_index < 0x100,
                image_len == rom_image@.len(),
                start + 0x4000 <= image_len,
                m0.inv(),
                self@.banks.len() == 0x100,
                self@.banks[bank_index as int].len() == 0x4000,
                self@ == (MmuView { banks: self@.banks, ..m0 }),
                forall|k: int|
                    0 <= k < 0x100 && k != bank_index ==> self@.banks[k] == m0.banks[k],
                forall|k: int|
                    0 <= k < j ==> self@.banks[bank_index as int][k] == rom_image@[start + k],
                forall|k: int|
                    j <= k < 0x4000 ==> self@.banks[bank_index as int][k]
                        == m0.banks[bank_index as int][k],
            decreases 0x4000 - j,
        {
            self.memory_banks[bank_index][j] = rom_image[start + j];
            j += 1;
        }
        proof {
            assert(self@.banks =~~= m0.banks.update(
                bank_index as int,
                rom_image@.subrange(start as int, start + 0x4000),
            ));
            assert(self@ =~~= (MmuView {
                banks: m0.banks.update(
                    bank_index as int,
                    rom_image@.subrange(start as int, start + 0x4000),
                ),
                ..m0
            }));
        }
    }

    pub fn initialize_cartridge(&mut self, rom_image: &Vec<u8>)
        requires
            old(self)@.inv(),
        ensures
            final(self)@ == old(self)@.load_cartridge(rom_image@),
            final(self)@.inv(),
    {
        if rom_image.len() < 0x8000 {
            return ;
        }
        let ghost m0 = self@;
        self.copy_bank(0, rom_image, 0);
        proof {
            assert(self@.banks[0] == rom_image@.subrange(0, 0x4000));
            assert(self@.banks[0][0x0147] == rom_image@[0x0147]);
            assert(self@.banks[0][0x0148] == rom_image@[0x0148]);
            assert(self@.banks[0][0x0149] == rom_image@[0x0149]);
        }
        self.cartridge_type = self.memory_banks[0][0x0147];
        let rom_tag = self.memory_banks[0][0x0148];
        self.rom_size = self.parse_rom_size(rom_tag);
        let ram_tag = self.memory_banks[0][0x0149];
        self.ram_size = self.parse_ram_size(ram_tag);
        let ghost banks_n = spec_rom_size(rom_image@[0x0148]);
        if self.rom_size == 0 {
            self.copy_bank(1, rom_image, 0x4000);
        } else {
            let mut i: u16 = 1;
            while i < self.rom_size
                invariant
                    1 <= i <= banks_n,
                    self@.rom_size == banks_n,
                    banks_n <= 256,
                    rom_image@.len() >= 0x8000,
                    banks_n == spec_rom_size(rom_image@[0x0148]),
                    self@.inv(),
                    self@ == (MmuView {
                        banks: self@.banks,
                        cartridge_type: rom_image@[0x0147],
                        rom_size: banks_n,
                        ram_size: spec_ram_size(rom_image@[0x0149]),
                        ..m0
                    }),
                    self@.banks[0] == rom_image@.subrange(0, 0x4000),
                    forall|k: int|
                        1 <= k < i && 0x4000 * (k + 1) <= rom_image@.len() ==> self@.banks[k]
                            == rom_image@.subrange(0x4000 * k, 0x4000 * (k + 1)),
                    forall|k: int|
                        1 <= k < 0x100 && !(1 <= k < i && 0x4000 * (k + 1) <= rom_image@.len())
                            ==> self@.banks[k] == m0.banks[k],
                decreases banks_n - i,
            {
                let end: usize = 0x4000 * ((i as usize) + 1);
                if end <= rom_image.len() {
                    self.copy_bank(i as usize, rom_image, 0x4000 * (i as usize));
                }
                i += 1;
            }
        }
        let ghost m1 = self@;
        proof {
            let image = rom_image@;
            let loaded = old(self)@.load_cartridge(image).banks;
            assert forall|k: int| 0 <= k < 0x100 implies m1.banks[k] == loaded[k] by {
                if k == 0 {
                    assert(m1.banks[0] == image.subrange(0, 0x4000));
                } else if k == 1 && banks_n == 0 {
                    assert(m1.banks[1] == image.subrange(0x4000, 0x8000));
                } else if 1 <= k && k < banks_n && 0x4000 * (k + 1) <= image.len() {
                    assert(m1.banks[k] == image.subrange(0x4000 * k, 0x4000 * (k + 1)));
                } else {
                    assert(m1.banks[k] == m0.banks[k]);
                }
            }
            assert(m1.banks =~~= loaded);
        }
        let mut j: usize = 0;
        while j < 0x4000
            invariant
                j <= 0x4000,
                m1.inv(),
                self@ == (MmuView { mem: self@.mem, ..m1 }),
                self@.mem.len() == 0x10000,
                forall|k: int| 0 <= k < j ==> self@.mem[k] == m1.banks[0][k],
                forall|k: int| 0 <= k < j ==> self@.mem[0x4000 + k] == m1.banks[1][k],
                forall|k: int|
                    0 <= k < 0x10000 && !(0 <= k < j) && !(0x4000 <= k < 0x4000 + j)
                        ==> self@.mem[k] == m1.mem[k],
            decreases 0x4000 - j,
        {
            proof {
                assert(m1.banks[0].len() == 0x4000);
                assert(m1.banks[1].len() == 0x4000);
            }
            self.mem_map[j] = self.memory_banks[0][j];
            self.mem_map[j + 0x4000] = self.memory_banks[1][j];
            j += 1;
        }
        proof {
            let target = old(self)@.load_cartridge(rom_image@);
            assert(self@.mem =~= target.mem);
            assert(self@ =~~= target);
        }
    }
}

/// Echo-RAM round trip: a write to an address in the echo range is observed
/// unchanged both at that address and at the internal-RAM address one step
/// (`0x2000`) below it, and a write to the internal-RAM address is observed
/// at its echo address — for CPU and internal accesses alike.
pub proof fn lemma_echo_ram_round_trip(
    m: MmuView,
    address: int,
    value: u8,
    masked_set: bool,
    masked_read: bool,
)
    requires
        m.inv(),
        0xE000 <= address < 0xFE00,
    ensures
        m.write(address, value, masked_set).read(address, masked_read) == value,
        m.write(address, value, masked_set).read(address - 0x2000, masked_read) == value,
        m.write(address - 0x2000, value, masked_set).read(address, masked_read) == value,
{
}

/// OAM DMA: after the CPU writes source page `page` to the DMA trigger,
/// every object-attribute byte at offset `i` equals the source byte
/// `page * 0x100 + i` of the unified map before the transfer.
pub proof fn lemma_oam_dma(m: MmuView, page: u8, i: int)
    requires
        m.inv(),
        0 <= i < 0xA0,
    ensures
        m.write(0xFF46, page, true).mem[0xFE00 + i] == m.mem[page as int * 0x100 + i],
{
}

/// MBC1 bank aliasing: writing bank-select value 0 into the ROM-bank-select
/// window always selects bank 1 in the low five bits, never bank 0.
pub proof fn lemma_mbc1_zero_bank_alias(m: MmuView, address: int)
    requires
        0x2000 <= address < 0x4000,
    ensures
        m.mbc1_write(address, 0x00).rom_bank != 0,
        m.mbc1_write(address, 0x00).rom_bank & 0x1F == 1,
        m.rom_bank & 0xE0 == 0 ==> m.mbc1_write(address, 0x00).rom_bank == 1,
{
    let rb = m.rom_bank;
    assert(0u8 & 0x1F == 0) by (bit_vector);
    assert(((rb & 0xE0) | 1) != 0 && ((rb & 0xE0) | 1) & 0x1F == 1 && (rb & 0xE0 == 0 ==> ((rb
        & 0xE0) | 1) == 1)) by (bit_vector);
}

/// Cartridge-load round trip: a well-formed header whose ROM-size code is
/// `0x01` declares exactly 4 ROM banks, and bank 0's first byte (and its
/// mirror in the unified map) matches the image's first byte.
pub proof fn lemma_cartridge_round_trip(m: MmuView, image: Seq<u8>)
    requires
        m.inv(),
        image.len() >= 0x8000,
        image[0x0148] == 0x01,
    ensures
        m.load_cartridge(image).rom_size == 4,
        m.load_cartridge(image).banks[0][0] == image[0],
        m.load_cartridge(image).mem[0] == image[0],
{
}

} // verus!
