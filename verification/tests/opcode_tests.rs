use rustboy::opcode::add_register;
use rustboy::opcode::and_register;
use rustboy::opcode::bit_check_register;
use rustboy::opcode::compare_register;
use rustboy::opcode::complement_accumulator;
use rustboy::opcode::complement_carry_flag;
use rustboy::opcode::decrement_16_bit_register;
use rustboy::opcode::increment_16_bit_register;
use rustboy::opcode::load_accumulator_with_bc_address;
use rustboy::opcode::load_accumulator_with_hl_address_decrement;
use rustboy::opcode::load_accumulator_with_hl_address_increment;
use rustboy::opcode::load_accumulator_with_io_port_c_offset;
use rustboy::opcode::load_accumulator_with_io_port_n_offset;
use rustboy::opcode::load_bc_address_with_accumulator;
use rustboy::opcode::load_de_address_with_accumulator;
use rustboy::opcode::load_increment_hl_register_location_with_accumulator;
use rustboy::opcode::set_carry_flag;
use rustboy::opcode::or_register;
use rustboy::opcode::sub_register;
use rustboy::opcode::call_nn;
use rustboy::opcode::cpu_continue;
use rustboy::opcode::decrement;
use rustboy::opcode::increment;
use rustboy::opcode::init_registers;
use rustboy::opcode::jump_displacement;
use rustboy::opcode::jump_nn;
use rustboy::opcode::jump_displacement_on_nonzero_flag;
use rustboy::opcode::load_8_bit_register_to_register;
use rustboy::opcode::load_accumulator_to_io_port_with_c_offset;
use rustboy::opcode::load_accumulator_to_io_port_with_n_offset;
use rustboy::opcode::load_accumulator_with_de_address;
use rustboy::opcode::load_decrement_hl_register_location_with_accumulator;
use rustboy::opcode::load_hl_address_with_register;
use rustboy::opcode::load_n_to_8bit_register;
use rustboy::opcode::load_nn_to_16bit_register;
use rustboy::opcode::pop_16bit_register;
use rustboy::opcode::push_16bit_register;
use rustboy::opcode::return_from_call;
use rustboy::opcode::rotate_accumulator;
use rustboy::opcode::xor_register;
use rustboy::registers::Registers;
use rustboy::system::get_system_data;
use rustboy::system::SystemData;

#[test]
fn increments_propper_register() {
    let mut system_data: SystemData = get_system_data("CLASSIC");
    let mut registers: Registers = init_registers();
    //A
    let opcode = 0x3C;
    increment(&mut system_data, &mut registers, opcode);
    assert_eq!(registers.accumulator, 1);
    //B
    registers.program_counter -= 1;
    let opcode = 0x04;
    increment(&mut system_data, &mut registers, opcode);
    assert_eq!(registers.b_register, 1);
    //C
    registers.program_counter -= 1;
    let opcode = 0x0C;
    increment(&mut system_data, &mut registers, opcode);
    assert_eq!(registers.c_register, 1);
    //D
    registers.program_counter -= 1;
    let opcode = 0x14;
    increment(&mut system_data, &mut registers, opcode);
    assert_eq!(registers.d_register, 1);
    //E
    registers.program_counter -= 1;
    let opcode = 0x1C;
    increment(&mut system_data, &mut registers, opcode);
    assert_eq!(registers.e_register, 1);
    //H
    registers.program_counter -= 1;
    let opcode = 0x24;
    increment(&mut system_data, &mut registers, opcode);
    assert_eq!(registers.h_register, 1);
    //L
    registers.program_counter -= 1;
    let opcode = 0x2C;
    increment(&mut system_data, &mut registers, opcode);
    assert_eq!(registers.l_register, 1);
}

#[test]
fn increment_twice_from_ff_wraps_with_half_carry() {
    let mut system_data: SystemData = get_system_data("CLASSIC");
    let mut registers: Registers = init_registers();
    registers.accumulator = 0xFF;
    increment(&mut system_data, &mut registers, 0x3C);
    assert_eq!(registers.accumulator, 0x00);
    assert_eq!(registers.flags, 0xA0);
    increment(&mut system_data, &mut registers, 0x3C);
    assert_eq!(registers.accumulator, 0x01);
    assert_eq!(registers.flags, 0x00);
}

#[test]
fn increment_memory_twice_from_ff_wraps_with_half_carry() {
    let mut system_data: SystemData = get_system_data("CLASSIC");
    let mut registers: Registers = init_registers();
    registers.h_register = 0xC1;
    registers.l_register = 0x00;
    system_data.mmu.mem_map[0xC100] = 0xFF;
    increment(&mut system_data, &mut registers, 0x34);
    assert_eq!(system_data.mmu.mem_map[0xC100], 0x00);
    assert_eq!(registers.flags, 0xA0);
    increment(&mut system_data, &mut registers, 0x34);
    assert_eq!(system_data.mmu.mem_map[0xC100], 0x01);
    assert_eq!(registers.flags, 0x00);
}

#[test]
fn loads_n_to_correct_register_8_bit() {
    let mut system_data: SystemData = get_system_data("CLASSIC");
    let mut registers: Registers = init_registers();
    system_data.mmu.mem_map[1] = 1;
    //A
    let opcode = 0x3E;
    load_n_to_8bit_register(&mut system_data, &mut registers, opcode);
    assert_eq!(registers.accumulator, 1);
    //B
    registers.program_counter -= 2;
    let opcode = 0x06;
    load_n_to_8bit_register(&mut system_data, &mut registers, opcode);
    assert_eq!(registers.b_register, 1);
    //C
    registers.program_counter -= 2;
    let opcode = 0x0E;
    load_n_to_8bit_register(&mut system_data, &mut registers, opcode);
    assert_eq!(registers.c_register, 1);
    //D
    registers.program_counter -= 2;
    let opcode = 0x16;
    load_n_to_8bit_register(&mut system_data, &mut registers, opcode);
    assert_eq!(registers.d_register, 1);
    //E
    registers.program_counter -= 2;
    let opcode = 0x1E;
    load_n_to_8bit_register(&mut system_data, &mut registers, opcode);
    assert_eq!(registers.e_register, 1);
    //H
    registers.program_counter -= 2;
    let opcode = 0x26;
    load_n_to_8bit_register(&mut system_data, &mut registers, opcode);
    assert_eq!(registers.h_register, 1);
    //L
    registers.program_counter -= 2;
    let opcode = 0x2E;
    load_n_to_8bit_register(&mut system_data, &mut registers, opcode);
    assert_eq!(registers.l_register, 1);
}

#[test]
fn accumulator_io_load_with_c_offset() {
    let mut system_data: SystemData = get_system_data("CLASSIC");
    let mut registers: Registers = init_registers();
    registers.accumulator = 1;
    registers.c_register = 1;
    load_accumulator_to_io_port_with_c_offset(&mut system_data, &mut registers);
    assert_eq!(system_data.mmu.mem_map[0xFF01], 1);
}

#[test]
fn loads_nn_to_correct_register_16_bit() {
    let mut system_data: SystemData = get_system_data("CLASSIC");
    let mut registers: Registers = init_registers();
    system_data.mmu.mem_map[1] = 0x01;
    system_data.mmu.mem_map[2] = 0x02;
    //bc
    let opcode = 0x01;
    load_nn_to_16bit_register(&mut system_data, &mut registers, opcode);
    assert_eq!(registers.b_register, 2);
    assert_eq!(registers.c_register, 1);
    //de
    registers.program_counter -= 3;
    let opcode = 0x11;
    load_nn_to_16bit_register(&mut system_data, &mut registers, opcode);
    assert_eq!(registers.d_register, 2);
    assert_eq!(registers.e_register, 1);
    //hl
    registers.program_counter -= 3;
    let opcode = 0x21;
    load_nn_to_16bit_register(&mut system_data, &mut registers, opcode);
    assert_eq!(registers.h_register, 2);
    assert_eq!(registers.l_register, 1);
    //stack pointer
    registers.program_counter -= 3;
    let opcode = 0x31;
    load_nn_to_16bit_register(&mut system_data, &mut registers, opcode);
    assert_eq!(registers.stack_pointer, 0x0201);
}

#[test]
fn xor_register_test() {
    let mut system_data: SystemData = get_system_data("CLASSIC");
    let mut registers: Registers = init_registers();
    let opcode = 0xAF;
    //A
    registers.accumulator = 0xFF;
    xor_register(&mut system_data, &mut registers, opcode);
    assert_eq!(registers.accumulator, 0);
}

#[test]
fn pc_jumps_displacement_on_nonzero_flag() {
    let mut system_data: SystemData = get_system_data("CLASSIC");
    let mut registers: Registers = init_registers();
    registers.program_counter = 100;
    //Positive Jump
    system_data.mmu.mem_map[101] = 10;
    registers.flags = 0x00;
    jump_displacement_on_nonzero_flag(&mut system_data, &mut registers);
    assert_eq!(registers.program_counter, 112);
    //Negative Jump
    registers.program_counter = 100;
    system_data.mmu.mem_map[101] = 253;
    registers.flags = 0x00;
    jump_displacement_on_nonzero_flag(&mut system_data, &mut registers);
    assert_eq!(registers.program_counter, 99);
    //Zero Flag
    registers.program_counter = 100;
    system_data.mmu.mem_map[101] = 0xFF;
    registers.flags = 0xFF;
    jump_displacement_on_nonzero_flag(&mut system_data, &mut registers);
    assert_eq!(registers.program_counter, 102)
}

#[test]
fn pc_always_jumps_displacement() {
    let mut system_data: SystemData = get_system_data("CLASSIC");
    let mut registers: Registers = init_registers();
    registers.program_counter = 100;
    system_data.mmu.mem_map[101] = 10;
    registers.flags = 0xFF;
    jump_displacement(&mut system_data, &mut registers);
    assert_eq!(registers.program_counter, 112);
}

#[test]
fn load_decrement_hl_register_location_with_accumulator_test() {
    let mut system_data: SystemData = get_system_data("CLASSIC");
    let mut registers: Registers = init_registers();
    //Normal increment
    registers.h_register = 0xFF;
    registers.l_register = 0xFF;
    registers.accumulator = 1;
    load_decrement_hl_register_location_with_accumulator(&mut system_data, &mut registers);
    assert_eq!(system_data.mmu.mem_map[0xFFFF], 1);
    assert_eq!(registers.h_register, 0xFF);
    assert_eq!(registers.l_register, 0xFE);
}

#[test]
fn bit_check_register_test() {
    let mut system_data: SystemData = get_system_data("CLASSIC");
    let mut registers: Registers = init_registers();
    //H
    //Zero Flag
    let opcode = 0x7C;
    let test_bit = 7;
    registers.h_register = 0x00;
    bit_check_register(&mut system_data, &mut registers, opcode, test_bit);
    assert_eq!(registers.flags, 0xA0);
    //No Zero Flag
    let opcode = 0x7C;
    let test_bit = 7;
    registers.h_register = 0xFF;
    bit_check_register(&mut system_data, &mut registers, opcode, test_bit);
    assert_eq!(registers.flags, 0x20);
}

#[test]
fn load_hl_address_with_register_test() {
    let mut system_data: SystemData = get_system_data("CLASSIC");
    let mut registers: Registers = init_registers();
    registers.h_register = 0xFF;
    registers.l_register = 0xFF;
    registers.accumulator = 1;
    registers.b_register = 2;
    registers.c_register = 3;
    registers.d_register = 4;
    registers.e_register = 5;

    //A
    let opcode = 0x77;
    load_hl_address_with_register(&mut system_data, &mut registers, opcode);
    assert_eq!(system_data.mmu.mem_map[0xFFFF], 1);
    //B
    let opcode = 0x70;
    load_hl_address_with_register(&mut system_data, &mut registers, opcode);
    assert_eq!(system_data.mmu.mem_map[0xFFFF], 2);
    //C
    let opcode = 0x71;
    load_hl_address_with_register(&mut system_data, &mut registers, opcode);
    assert_eq!(system_data.mmu.mem_map[0xFFFF], 3);
    //D
    let opcode = 0x72;
    load_hl_address_with_register(&mut system_data, &mut registers, opcode);
    assert_eq!(system_data.mmu.mem_map[0xFFFF], 4);
    //E
    let opcode = 0x73;
    load_hl_address_with_register(&mut system_data, &mut registers, opcode);
    assert_eq!(system_data.mmu.mem_map[0xFFFF], 5);
    //H
    let opcode = 0x74;
    load_hl_address_with_register(&mut system_data, &mut registers, opcode);
    assert_eq!(system_data.mmu.mem_map[0xFFFF], 0xFF);
    //L
    let opcode = 0x75;
    load_hl_address_with_register(&mut system_data, &mut registers, opcode);
    assert_eq!(system_data.mmu.mem_map[0xFFFF], 0xFF);
}

#[test]
fn load_accumulator_to_io_port_with_a_offset_test() {
    let mut system_data: SystemData = get_system_data("CLASSIC");
    let mut registers: Registers = init_registers();
    registers.accumulator = 1;
    system_data.mmu.mem_map[1] = 1;
    load_accumulator_to_io_port_with_n_offset(&mut system_data, &mut registers);
    assert_eq!(system_data.mmu.mem_map[0xFF01], 1);
}

#[test]
fn load_8_bit_register_to_register_test() {
    let mut system_data: SystemData = get_system_data("CLASSIC");
    let mut registers: Registers = init_registers();
    registers.mapped_register_setter(0, 1);
    registers.mapped_register_setter(1, 2);
    registers.mapped_register_setter(2, 3);
    // LD B, A: destination B takes the accumulator's value
    load_8_bit_register_to_register(&mut system_data, &mut registers, 0x47);
    assert_eq!(registers.b_register, 1);
    // LD A, C
    load_8_bit_register_to_register(&mut system_data, &mut registers, 0x79);
    assert_eq!(registers.accumulator, 3);
    // LD D, B
    load_8_bit_register_to_register(&mut system_data, &mut registers, 0x50);
    assert_eq!(registers.d_register, 1);
    assert_eq!(registers.program_counter, 3);
}

#[test]
fn load_accumulator_with_de_address_test() {
    let mut system_data: SystemData = get_system_data("CLASSIC");
    let mut registers: Registers = init_registers();
    registers.d_register = 0xFF;
    registers.e_register = 0xEE;
    system_data.mmu.mem_map[0xFFEE] = 1;
    load_accumulator_with_de_address(&mut system_data, &mut registers);
    assert_eq!(registers.accumulator, 1);
}

#[test]
fn ei_enables_interrupts_only_after_following_instruction() {
    let mut system_data: SystemData = get_system_data("CLASSIC");
    let mut registers: Registers = init_registers();
    registers.stack_pointer = 0xD000;
    system_data.mmu.mem_map[0] = 0xFB;  // EI
    system_data.mmu.mem_map[1] = 0x00;  // NOP
    system_data.mmu.mem_map[0xFFFF] = 0x04;  // timer interrupt enabled
    system_data.mmu.mem_map[0xFF0F] = 0x04;  // and pending
    cpu_continue(&mut system_data, &mut registers);
    assert!(!registers.interrupt_master_enable_flag);
    assert!(registers.interrupt_master_enable_delay_flag);
    assert_eq!(registers.program_counter, 1);
    cpu_continue(&mut system_data, &mut registers);
    // the following instruction executed; no interrupt was serviced
    assert!(registers.interrupt_master_enable_flag);
    assert_eq!(registers.program_counter, 2);
    cpu_continue(&mut system_data, &mut registers);
    // now the pending timer interrupt is serviced at its vector
    assert_eq!(registers.program_counter, 0x50);
    assert!(!registers.interrupt_master_enable_flag);
    assert_eq!(system_data.mmu.mem_map[0xFF0F] & 0x04, 0);
    assert_eq!(registers.stack_pointer, 0xCFFE);
    assert_eq!(system_data.mmu.mem_map[0xCFFF], 0x00);
    assert_eq!(system_data.mmu.mem_map[0xCFFE], 0x02);
    assert_eq!(system_data.cycles, 5);
}

#[test]
fn illegal_opcode_reports_zero_cycles() {
    let mut system_data: SystemData = get_system_data("CLASSIC");
    let mut registers: Registers = init_registers();
    system_data.mmu.mem_map[0] = 0xD3;
    cpu_continue(&mut system_data, &mut registers);
    assert_eq!(system_data.cycles, 0);
    assert_eq!(registers.program_counter, 0);
}

#[test]
fn halted_core_idles_until_interrupt_pends() {
    let mut system_data: SystemData = get_system_data("CLASSIC");
    let mut registers: Registers = init_registers();
    system_data.mmu.mem_map[0] = 0x76;  // HALT
    system_data.mmu.mem_map[1] = 0x3C;  // INC A
    cpu_continue(&mut system_data, &mut registers);
    assert!(registers.halt_flag);
    assert_eq!(registers.program_counter, 1);
    // no enabled pending interrupt: the step is an idle tick
    cpu_continue(&mut system_data, &mut registers);
    assert!(registers.halt_flag);
    assert_eq!(registers.program_counter, 1);
    assert_eq!(system_data.cycles, 1);
    // an enabled pending interrupt clears the halt and resumes the fetch
    system_data.mmu.mem_map[0xFFFF] = 0x01;
    system_data.mmu.mem_map[0xFF0F] = 0x01;
    cpu_continue(&mut system_data, &mut registers);
    assert!(!registers.halt_flag);
    assert_eq!(registers.accumulator, 1);
    assert_eq!(registers.program_counter, 2);
}

#[test]
fn cb_prefixed_bit_test_dispatches() {
    let mut system_data: SystemData = get_system_data("CLASSIC");
    let mut registers: Registers = init_registers();
    system_data.mmu.mem_map[0] = 0xCB;
    system_data.mmu.mem_map[1] = 0x7C;  // BIT 7, H
    registers.h_register = 0x80;
    cpu_continue(&mut system_data, &mut registers);
    assert_eq!(registers.flags, 0x20);
    assert_eq!(registers.program_counter, 2);
    assert_eq!(system_data.cycles, 2);
}

#[test]
fn decrement_wraps_and_sets_flags() {
    let mut system_data: SystemData = get_system_data("CLASSIC");
    let mut registers: Registers = init_registers();
    registers.b_register = 0;
    decrement(&mut system_data, &mut registers, 0x05);
    assert_eq!(registers.b_register, 0xFF);
    assert_eq!(registers.flags, 0x60);
    registers.c_register = 1;
    decrement(&mut system_data, &mut registers, 0x0D);
    assert_eq!(registers.c_register, 0);
    assert_eq!(registers.flags, 0xC0);
}

#[test]
fn jump_nn_moves_to_immediate_target() {
    let mut system_data: SystemData = get_system_data("CLASSIC");
    let mut registers: Registers = init_registers();
    system_data.mmu.mem_map[1] = 0x34;
    system_data.mmu.mem_map[2] = 0x12;
    jump_nn(&mut system_data, &mut registers);
    assert_eq!(registers.program_counter, 0x1234);
    assert_eq!(system_data.cycles, 4);
}

#[test]
fn push_pop_round_trip() {
    let mut system_data: SystemData = get_system_data("CLASSIC");
    let mut registers: Registers = init_registers();
    registers.b_register = 0x12;
    registers.c_register = 0x34;
    registers.stack_pointer = 0xD000;
    push_16bit_register(&mut system_data, &mut registers, 0xC5);
    assert_eq!(registers.stack_pointer, 0xCFFE);
    assert_eq!(system_data.mmu.mem_map[0xCFFF], 0x12);
    assert_eq!(system_data.mmu.mem_map[0xCFFE], 0x34);
    pop_16bit_register(&mut system_data, &mut registers, 0xD1);
    assert_eq!(registers.d_register, 0x12);
    assert_eq!(registers.e_register, 0x34);
    assert_eq!(registers.stack_pointer, 0xD000);
}

#[test]
fn pop_into_af_keeps_flags_low_nibble_zero() {
    let mut system_data: SystemData = get_system_data("CLASSIC");
    let mut registers: Registers = init_registers();
    registers.stack_pointer = 0xC800;
    system_data.mmu.mem_map[0xC800] = 0xFF;
    system_data.mmu.mem_map[0xC801] = 0x12;
    pop_16bit_register(&mut system_data, &mut registers, 0xF1);
    assert_eq!(registers.accumulator, 0x12);
    assert_eq!(registers.flags, 0xF0);
}

#[test]
fn call_and_return_round_trip() {
    let mut system_data: SystemData = get_system_data("CLASSIC");
    let mut registers: Registers = init_registers();
    registers.program_counter = 0x0100;
    registers.stack_pointer = 0xD000;
    system_data.mmu.mem_map[0x0101] = 0x00;
    system_data.mmu.mem_map[0x0102] = 0x20;
    call_nn(&mut system_data, &mut registers);
    assert_eq!(registers.program_counter, 0x2000);
    assert_eq!(registers.stack_pointer, 0xCFFE);
    assert_eq!(system_data.mmu.mem_map[0xCFFF], 0x01);
    assert_eq!(system_data.mmu.mem_map[0xCFFE], 0x03);
    return_from_call(&mut system_data, &mut registers);
    assert_eq!(registers.program_counter, 0x0103);
    assert_eq!(registers.stack_pointer, 0xD000);
}

#[test]
fn rotate_accumulator_variants() {
    let mut system_data: SystemData = get_system_data("CLASSIC");
    let mut registers: Registers = init_registers();
    // plain left rotate: bit 7 re-enters at bit 0 and lands in Carry
    registers.accumulator = 0x85;
    rotate_accumulator(&mut system_data, &mut registers, 0x07);
    assert_eq!(registers.accumulator, 0x0B);
    assert_eq!(registers.flags, 0x10);
    // right rotate through carry: the old Carry enters at bit 7
    registers.accumulator = 0x01;
    rotate_accumulator(&mut system_data, &mut registers, 0x1F);
    assert_eq!(registers.accumulator, 0x80);
    assert_eq!(registers.flags, 0x10);
    // plain right rotate with an even value clears Carry
    registers.accumulator = 0x02;
    rotate_accumulator(&mut system_data, &mut registers, 0x0F);
    assert_eq!(registers.accumulator, 0x01);
    assert_eq!(registers.flags, 0x00);
}

#[test]
fn add_register_sets_all_carries() {
    let mut system_data: SystemData = get_system_data("CLASSIC");
    let mut registers: Registers = init_registers();
    registers.accumulator = 0x3A;
    registers.b_register = 0xC6;
    add_register(&mut system_data, &mut registers, 0x80);
    assert_eq!(registers.accumulator, 0x00);
    assert_eq!(registers.flags, 0xB0);
    registers.accumulator = 0x02;
    registers.c_register = 0x03;
    add_register(&mut system_data, &mut registers, 0x81);
    assert_eq!(registers.accumulator, 0x05);
    assert_eq!(registers.flags, 0x00);
}

#[test]
fn sub_register_borrows() {
    let mut system_data: SystemData = get_system_data("CLASSIC");
    let mut registers: Registers = init_registers();
    registers.accumulator = 0x3E;
    registers.e_register = 0x0F;
    sub_register(&mut system_data, &mut registers, 0x93);
    assert_eq!(registers.accumulator, 0x2F);
    assert_eq!(registers.flags, 0x60);
    registers.accumulator = 0x10;
    registers.d_register = 0x20;
    sub_register(&mut system_data, &mut registers, 0x92);
    assert_eq!(registers.accumulator, 0xF0);
    assert_eq!(registers.flags, 0x50);
}

#[test]
fn compare_register_keeps_accumulator() {
    let mut system_data: SystemData = get_system_data("CLASSIC");
    let mut registers: Registers = init_registers();
    registers.accumulator = 0x3C;
    registers.b_register = 0x3C;
    compare_register(&mut system_data, &mut registers, 0xB8);
    assert_eq!(registers.accumulator, 0x3C);
    assert_eq!(registers.flags, 0xC0);
    registers.c_register = 0x40;
    compare_register(&mut system_data, &mut registers, 0xB9);
    assert_eq!(registers.accumulator, 0x3C);
    assert_eq!(registers.flags, 0x50);
}

#[test]
fn and_or_registers_mask_and_merge() {
    let mut system_data: SystemData = get_system_data("CLASSIC");
    let mut registers: Registers = init_registers();
    registers.accumulator = 0x5A;
    registers.l_register = 0x3F;
    and_register(&mut system_data, &mut registers, 0xA5);
    assert_eq!(registers.accumulator, 0x1A);
    assert_eq!(registers.flags, 0x20);
    registers.b_register = 0x00;
    and_register(&mut system_data, &mut registers, 0xA0);
    assert_eq!(registers.accumulator, 0x00);
    assert_eq!(registers.flags, 0xA0);
    or_register(&mut system_data, &mut registers, 0xB0);
    assert_eq!(registers.accumulator, 0x00);
    assert_eq!(registers.flags, 0x80);
    registers.h_register = 0x0F;
    or_register(&mut system_data, &mut registers, 0xB4);
    assert_eq!(registers.accumulator, 0x0F);
    assert_eq!(registers.flags, 0x00);
}

#[test]
fn sixteen_bit_increment_and_decrement_wrap() {
    let mut system_data: SystemData = get_system_data("CLASSIC");
    let mut registers: Registers = init_registers();
    registers.b_register = 0xFF;
    registers.c_register = 0xFF;
    increment_16_bit_register(&mut system_data, &mut registers, 0x03);
    assert_eq!(registers.b_register, 0x00);
    assert_eq!(registers.c_register, 0x00);
    assert_eq!(registers.flags, 0x00);
    decrement_16_bit_register(&mut system_data, &mut registers, 0x0B);
    assert_eq!(registers.b_register, 0xFF);
    assert_eq!(registers.c_register, 0xFF);
}

#[test]
fn accumulator_pair_stores_and_loads_round_trip() {
    let mut system_data: SystemData = get_system_data("CLASSIC");
    let mut registers: Registers = init_registers();
    registers.accumulator = 0x77;
    registers.b_register = 0xC2;
    registers.c_register = 0x00;
    load_bc_address_with_accumulator(&mut system_data, &mut registers);
    assert_eq!(system_data.mmu.mem_map[0xC200], 0x77);
    registers.accumulator = 0;
    load_accumulator_with_bc_address(&mut system_data, &mut registers);
    assert_eq!(registers.accumulator, 0x77);
    registers.accumulator = 0x55;
    registers.d_register = 0xC3;
    registers.e_register = 0x10;
    load_de_address_with_accumulator(&mut system_data, &mut registers);
    assert_eq!(system_data.mmu.mem_map[0xC310], 0x55);
}

#[test]
fn hl_post_step_loads_and_stores() {
    let mut system_data: SystemData = get_system_data("CLASSIC");
    let mut registers: Registers = init_registers();
    registers.accumulator = 0x11;
    registers.h_register = 0xC0;
    registers.l_register = 0x00;
    load_increment_hl_register_location_with_accumulator(&mut system_data, &mut registers);
    assert_eq!(system_data.mmu.mem_map[0xC000], 0x11);
    assert_eq!(registers.l_register, 0x01);
    system_data.mmu.mem_map[0xC001] = 0x22;
    load_accumulator_with_hl_address_increment(&mut system_data, &mut registers);
    assert_eq!(registers.accumulator, 0x22);
    assert_eq!(registers.l_register, 0x02);
    system_data.mmu.mem_map[0xC002] = 0x33;
    load_accumulator_with_hl_address_decrement(&mut system_data, &mut registers);
    assert_eq!(registers.accumulator, 0x33);
    assert_eq!(registers.l_register, 0x01);
}

#[test]
fn io_port_reads_with_n_and_c_offsets() {
    let mut system_data: SystemData = get_system_data("CLASSIC");
    let mut registers: Registers = init_registers();
    system_data.mmu.mem_map[1] = 0x44;
    system_data.mmu.mem_map[0xFF44] = 0x90;
    load_accumulator_with_io_port_n_offset(&mut system_data, &mut registers);
    assert_eq!(registers.accumulator, 0x90);
    assert_eq!(registers.program_counter, 2);
    registers.c_register = 0x44;
    load_accumulator_with_io_port_c_offset(&mut system_data, &mut registers);
    assert_eq!(registers.accumulator, 0x90);
}

#[test]
fn carry_and_complement_flag_operations() {
    let mut system_data: SystemData = get_system_data("CLASSIC");
    let mut registers: Registers = init_registers();
    registers.accumulator = 0x35;
    registers.flags = 0x90;
    complement_accumulator(&mut system_data, &mut registers);
    assert_eq!(registers.accumulator, 0xCA);
    assert_eq!(registers.flags, 0xF0);
    registers.flags = 0x80;
    set_carry_flag(&mut system_data, &mut registers);
    assert_eq!(registers.flags, 0x90);
    complement_carry_flag(&mut system_data, &mut registers);
    assert_eq!(registers.flags, 0x80);
    complement_carry_flag(&mut system_data, &mut registers);
    assert_eq!(registers.flags, 0x90);
}
