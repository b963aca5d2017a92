use rustboy::opcode::accumulator_operation_with_n;
use rustboy::opcode::add_carry_register;
use rustboy::opcode::add_hl_16bit_register;
use rustboy::opcode::add_sp_displacement;
use rustboy::opcode::bit_check_hl_address;
use rustboy::opcode::call_nn_on_zero_flag;
use rustboy::opcode::cpu_continue;
use rustboy::opcode::decimal_adjust_accumulator;
use rustboy::opcode::init_registers;
use rustboy::opcode::jump_hl;
use rustboy::opcode::jump_nn_on_carry_flag;
use rustboy::opcode::jump_nn_on_nonzero_flag;
use rustboy::opcode::load_accumulator_with_nn_address;
use rustboy::opcode::load_hl_address_with_n;
use rustboy::opcode::load_hl_with_sp_displacement;
use rustboy::opcode::load_nn_address_with_accumulator;
use rustboy::opcode::load_nn_address_with_stack_pointer;
use rustboy::opcode::load_register_with_hl_address;
use rustboy::opcode::load_stack_pointer_with_hl;
use rustboy::opcode::reset_bit;
use rustboy::opcode::restart;
use rustboy::opcode::return_from_interrupt;
use rustboy::opcode::return_on_nonzero_flag;
use rustboy::opcode::rotate_shift_operation;
use rustboy::opcode::set_bit;
use rustboy::opcode::sub_carry_register;
use rustboy::registers::Registers;
use rustboy::system::get_system_data;
use rustboy::system::SystemData;

#[test]
fn add_and_sub_with_carry_in() {
    let mut system_data: SystemData = get_system_data("CLASSIC");
    let mut registers: Registers = init_registers();
    registers.accumulator = 0xE1;
    registers.b_register = 0x0F;
    registers.flags = 0x10;
    add_carry_register(&mut system_data, &mut registers, 0x88);
    assert_eq!(registers.accumulator, 0xF1);
    assert_eq!(registers.flags, 0x20);
    registers.accumulator = 0x3B;
    registers.c_register = 0x2A;
    registers.flags = 0x10;
    sub_carry_register(&mut system_data, &mut registers, 0x99);
    assert_eq!(registers.accumulator, 0x10);
    assert_eq!(registers.flags, 0x40);
}

#[test]
fn immediate_alu_row_operates_on_the_operand_byte() {
    let mut system_data: SystemData = get_system_data("CLASSIC");
    let mut registers: Registers = init_registers();
    // ADD n
    registers.accumulator = 0x3A;
    system_data.mmu.mem_map[1] = 0xC6;
    accumulator_operation_with_n(&mut system_data, &mut registers, 0xC6);
    assert_eq!(registers.accumulator, 0x00);
    assert_eq!(registers.flags, 0xB0);
    assert_eq!(registers.program_counter, 2);
    // SUB n
    registers.accumulator = 0x3E;
    system_data.mmu.mem_map[3] = 0x0F;
    accumulator_operation_with_n(&mut system_data, &mut registers, 0xD6);
    assert_eq!(registers.accumulator, 0x2F);
    assert_eq!(registers.flags, 0x60);
    // AND n
    registers.accumulator = 0x5A;
    system_data.mmu.mem_map[5] = 0x38;
    accumulator_operation_with_n(&mut system_data, &mut registers, 0xE6);
    assert_eq!(registers.accumulator, 0x18);
    assert_eq!(registers.flags, 0x20);
    // CP n leaves the accumulator alone
    system_data.mmu.mem_map[7] = 0x18;
    accumulator_operation_with_n(&mut system_data, &mut registers, 0xFE);
    assert_eq!(registers.accumulator, 0x18);
    assert_eq!(registers.flags, 0xC0);
}

#[test]
fn hl_memory_operand_loads_and_stores() {
    let mut system_data: SystemData = get_system_data("CLASSIC");
    let mut registers: Registers = init_registers();
    registers.h_register = 0xC1;
    registers.l_register = 0x23;
    system_data.mmu.mem_map[0xC123] = 7;
    // LD B, (HL)
    load_register_with_hl_address(&mut system_data, &mut registers, 0x46);
    assert_eq!(registers.b_register, 7);
    assert_eq!(system_data.cycles, 2);
    // LD (HL), n
    system_data.mmu.mem_map[2] = 0x99;
    load_hl_address_with_n(&mut system_data, &mut registers);
    assert_eq!(system_data.mmu.mem_map[0xC123], 0x99);
    assert_eq!(registers.program_counter, 3);
    assert_eq!(system_data.cycles, 3);
}

#[test]
fn absolute_address_accumulator_round_trip() {
    let mut system_data: SystemData = get_system_data("CLASSIC");
    let mut registers: Registers = init_registers();
    registers.accumulator = 0x42;
    system_data.mmu.mem_map[1] = 0x34;
    system_data.mmu.mem_map[2] = 0xC2;
    load_nn_address_with_accumulator(&mut system_data, &mut registers);
    assert_eq!(system_data.mmu.mem_map[0xC234], 0x42);
    assert_eq!(registers.program_counter, 3);
    registers.accumulator = 0;
    system_data.mmu.mem_map[4] = 0x34;
    system_data.mmu.mem_map[5] = 0xC2;
    load_accumulator_with_nn_address(&mut system_data, &mut registers);
    assert_eq!(registers.accumulator, 0x42);
    assert_eq!(registers.program_counter, 6);
}

#[test]
fn stack_pointer_transfers() {
    let mut system_data: SystemData = get_system_data("CLASSIC");
    let mut registers: Registers = init_registers();
    registers.h_register = 0xBE;
    registers.l_register = 0xEF;
    load_stack_pointer_with_hl(&mut system_data, &mut registers);
    assert_eq!(registers.stack_pointer, 0xBEEF);
    system_data.mmu.mem_map[2] = 0x00;
    system_data.mmu.mem_map[3] = 0xC2;
    load_nn_address_with_stack_pointer(&mut system_data, &mut registers);
    assert_eq!(system_data.mmu.mem_map[0xC200], 0xEF);
    assert_eq!(system_data.mmu.mem_map[0xC201], 0xBE);
    assert_eq!(registers.program_counter, 4);
    assert_eq!(system_data.cycles, 5);
}

#[test]
fn conditional_jumps_calls_and_returns() {
    let mut system_data: SystemData = get_system_data("CLASSIC");
    let mut registers: Registers = init_registers();
    registers.stack_pointer = 0xD000;
    // JP NZ taken
    system_data.mmu.mem_map[1] = 0x00;
    system_data.mmu.mem_map[2] = 0x20;
    registers.flags = 0x00;
    jump_nn_on_nonzero_flag(&mut system_data, &mut registers);
    assert_eq!(registers.program_counter, 0x2000);
    // JP C not taken: the counter passes the 3-byte instruction
    registers.flags = 0x00;
    jump_nn_on_carry_flag(&mut system_data, &mut registers);
    assert_eq!(registers.program_counter, 0x2003);
    // CALL Z taken
    registers.flags = 0x80;
    system_data.mmu.mem_map[0x2004] = 0x00;
    system_data.mmu.mem_map[0x2005] = 0x30;
    call_nn_on_zero_flag(&mut system_data, &mut registers);
    assert_eq!(registers.program_counter, 0x3000);
    assert_eq!(registers.stack_pointer, 0xCFFE);
    assert_eq!(system_data.mmu.mem_map[0xCFFF], 0x20);
    assert_eq!(system_data.mmu.mem_map[0xCFFE], 0x06);
    // RET NZ taken
    registers.flags = 0x00;
    return_on_nonzero_flag(&mut system_data, &mut registers);
    assert_eq!(registers.program_counter, 0x2006);
    assert_eq!(registers.stack_pointer, 0xD000);
    // RET NZ not taken: the counter passes the 1-byte instruction
    registers.flags = 0x80;
    return_on_nonzero_flag(&mut system_data, &mut registers);
    assert_eq!(registers.program_counter, 0x2007);
}

#[test]
fn restart_pushes_and_jumps_to_its_vector() {
    let mut system_data: SystemData = get_system_data("CLASSIC");
    let mut registers: Registers = init_registers();
    registers.program_counter = 0x0123;
    registers.stack_pointer = 0xD000;
    restart(&mut system_data, &mut registers, 0xEF);
    assert_eq!(registers.program_counter, 0x28);
    assert_eq!(registers.stack_pointer, 0xCFFE);
    assert_eq!(system_data.mmu.mem_map[0xCFFF], 0x01);
    assert_eq!(system_data.mmu.mem_map[0xCFFE], 0x24);
    assert_eq!(system_data.cycles, 4);
}

#[test]
fn return_from_interrupt_restores_master_enable() {
    let mut system_data: SystemData = get_system_data("CLASSIC");
    let mut registers: Registers = init_registers();
    registers.stack_pointer = 0xC800;
    system_data.mmu.mem_map[0xC800] = 0x34;
    system_data.mmu.mem_map[0xC801] = 0x12;
    return_from_interrupt(&mut system_data, &mut registers);
    assert_eq!(registers.program_counter, 0x1234);
    assert_eq!(registers.stack_pointer, 0xC802);
    assert!(registers.interrupt_master_enable_flag);
}

#[test]
fn jump_hl_loads_the_counter_from_the_pair() {
    let mut system_data: SystemData = get_system_data("CLASSIC");
    let mut registers: Registers = init_registers();
    registers.h_register = 0x43;
    registers.l_register = 0x21;
    jump_hl(&mut system_data, &mut registers);
    assert_eq!(registers.program_counter, 0x4321);
    assert_eq!(system_data.cycles, 1);
}

#[test]
fn add_hl_sets_the_high_carries_and_keeps_zero() {
    let mut system_data: SystemData = get_system_data("CLASSIC");
    let mut registers: Registers = init_registers();
    registers.h_register = 0x8A;
    registers.l_register = 0x23;
    registers.b_register = 0x06;
    registers.c_register = 0x05;
    registers.flags = 0x80;
    add_hl_16bit_register(&mut system_data, &mut registers, 0x09);
    assert_eq!(registers.h_register, 0x90);
    assert_eq!(registers.l_register, 0x28);
    assert_eq!(registers.flags, 0xA0);
    registers.h_register = 0xFF;
    registers.l_register = 0xFF;
    registers.d_register = 0x00;
    registers.e_register = 0x01;
    registers.flags = 0x00;
    add_hl_16bit_register(&mut system_data, &mut registers, 0x19);
    assert_eq!(registers.h_register, 0x00);
    assert_eq!(registers.l_register, 0x00);
    assert_eq!(registers.flags, 0x30);
}

#[test]
fn decimal_adjust_corrects_bcd_sums() {
    let mut system_data: SystemData = get_system_data("CLASSIC");
    let mut registers: Registers = init_registers();
    // 0x45 + 0x38 left 0x7D with no carries: adjusted to 0x83
    registers.accumulator = 0x7D;
    registers.flags = 0x00;
    decimal_adjust_accumulator(&mut system_data, &mut registers);
    assert_eq!(registers.accumulator, 0x83);
    assert_eq!(registers.flags, 0x00);
    // 0x9A adjusts past the top and wraps to zero with carry
    registers.accumulator = 0x9A;
    registers.flags = 0x00;
    decimal_adjust_accumulator(&mut system_data, &mut registers);
    assert_eq!(registers.accumulator, 0x00);
    assert_eq!(registers.flags, 0x90);
    // after a BCD subtraction with half-borrow the low digit adjusts down
    registers.accumulator = 0x0F;
    registers.flags = 0x60;
    decimal_adjust_accumulator(&mut system_data, &mut registers);
    assert_eq!(registers.accumulator, 0x09);
    assert_eq!(registers.flags, 0x40);
}

#[test]
fn stack_pointer_displacement_arithmetic() {
    let mut system_data: SystemData = get_system_data("CLASSIC");
    let mut registers: Registers = init_registers();
    registers.stack_pointer = 0xFFF8;
    system_data.mmu.mem_map[1] = 0x08;
    add_sp_displacement(&mut system_data, &mut registers);
    assert_eq!(registers.stack_pointer, 0x0000);
    assert_eq!(registers.flags, 0x30);
    assert_eq!(registers.program_counter, 2);
    registers.stack_pointer = 0xFFF8;
    system_data.mmu.mem_map[3] = 0xF8;  // -8
    load_hl_with_sp_displacement(&mut system_data, &mut registers);
    assert_eq!(registers.h_register, 0xFF);
    assert_eq!(registers.l_register, 0xF0);
    assert_eq!(registers.flags, 0x30);
    assert_eq!(registers.stack_pointer, 0xFFF8);
}

#[test]
fn cb_rotates_shifts_and_swap() {
    let mut system_data: SystemData = get_system_data("CLASSIC");
    let mut registers: Registers = init_registers();
    // RLC B
    registers.b_register = 0x85;
    rotate_shift_operation(&mut system_data, &mut registers, 0x00);
    assert_eq!(registers.b_register, 0x0B);
    assert_eq!(registers.flags, 0x10);
    // SWAP A
    registers.accumulator = 0xF0;
    rotate_shift_operation(&mut system_data, &mut registers, 0x37);
    assert_eq!(registers.accumulator, 0x0F);
    assert_eq!(registers.flags, 0x00);
    // SRA A keeps the sign bit
    registers.accumulator = 0x81;
    rotate_shift_operation(&mut system_data, &mut registers, 0x2F);
    assert_eq!(registers.accumulator, 0xC0);
    assert_eq!(registers.flags, 0x10);
    // SRL B shifts the last bit out into Carry and hits zero
    registers.b_register = 0x01;
    rotate_shift_operation(&mut system_data, &mut registers, 0x38);
    assert_eq!(registers.b_register, 0x00);
    assert_eq!(registers.flags, 0x90);
    // RL through carry on memory at HL
    registers.h_register = 0xC0;
    registers.l_register = 0x50;
    system_data.mmu.mem_map[0xC050] = 0x80;
    registers.flags = 0x10;
    rotate_shift_operation(&mut system_data, &mut registers, 0x16);
    assert_eq!(system_data.mmu.mem_map[0xC050], 0x01);
    assert_eq!(registers.flags, 0x10);
    assert_eq!(system_data.cycles, 4);
}

#[test]
fn cb_set_and_reset_bits() {
    let mut system_data: SystemData = get_system_data("CLASSIC");
    let mut registers: Registers = init_registers();
    registers.b_register = 0x00;
    set_bit(&mut system_data, &mut registers, 0xD8, 3);
    assert_eq!(registers.b_register, 0x08);
    reset_bit(&mut system_data, &mut registers, 0x98, 3);
    assert_eq!(registers.b_register, 0x00);
    // the memory form read-modify-writes at HL
    registers.h_register = 0xC0;
    registers.l_register = 0x50;
    system_data.mmu.mem_map[0xC050] = 0x00;
    set_bit(&mut system_data, &mut registers, 0xC6, 0);
    assert_eq!(system_data.mmu.mem_map[0xC050], 0x01);
    assert_eq!(system_data.cycles, 4);
    reset_bit(&mut system_data, &mut registers, 0x86, 0);
    assert_eq!(system_data.mmu.mem_map[0xC050], 0x00);
}

#[test]
fn cb_bit_test_on_memory() {
    let mut system_data: SystemData = get_system_data("CLASSIC");
    let mut registers: Registers = init_registers();
    registers.h_register = 0xC0;
    registers.l_register = 0x50;
    system_data.mmu.mem_map[0xC050] = 0x00;
    bit_check_hl_address(&mut system_data, &mut registers, 0x56, 2);
    assert_eq!(registers.flags, 0xA0);
    assert_eq!(system_data.cycles, 3);
    system_data.mmu.mem_map[0xC050] = 0x04;
    bit_check_hl_address(&mut system_data, &mut registers, 0x56, 2);
    assert_eq!(registers.flags, 0x20);
}

#[test]
fn cpu_continue_runs_a_small_program() {
    let mut system_data: SystemData = get_system_data("CLASSIC");
    let mut registers: Registers = init_registers();
    system_data.mmu.mem_map[0] = 0x3E;  // LD A, n
    system_data.mmu.mem_map[1] = 0x05;
    system_data.mmu.mem_map[2] = 0xC6;  // ADD n
    system_data.mmu.mem_map[3] = 0x03;
    system_data.mmu.mem_map[4] = 0xCB;  // SWAP A
    system_data.mmu.mem_map[5] = 0x37;
    cpu_continue(&mut system_data, &mut registers);
    assert_eq!(registers.accumulator, 5);
    cpu_continue(&mut system_data, &mut registers);
    assert_eq!(registers.accumulator, 8);
    cpu_continue(&mut system_data, &mut registers);
    assert_eq!(registers.accumulator, 0x80);
    assert_eq!(registers.program_counter, 6);
}
