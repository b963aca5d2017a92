use rustboy::registers::Registers;
use rustboy::system::get_system_data;
use rustboy::system::PlayerInput;
use rustboy::system::SystemData;
use rustboy::timer::Timer;

#[test]
fn passing_bad_data_to_get_system_data_returns_empty_struct_data() {
    let system_data: SystemData = get_system_data("");
    assert_eq!(system_data.mmu.mem_map, vec![0; 0x10000]);
    assert_eq!(system_data.width, 0);
    assert_eq!(system_data.tile_width, 0);
    assert_eq!(system_data.height, 0);
    assert_eq!(system_data.tile_height, 0);
    assert_eq!(system_data.clock_speed, 0);
    assert_eq!(system_data.horizontal_sync, 0);
    assert_eq!(system_data.vertical_sync_millihertz, 0);
    assert_eq!(system_data.cycles, 0);
}

#[test]
fn classic_system_data_holds_hardware_rates() {
    let system_data: SystemData = get_system_data("CLASSIC");
    assert_eq!(system_data.width, 160);
    assert_eq!(system_data.tile_width, 20);
    assert_eq!(system_data.height, 144);
    assert_eq!(system_data.tile_height, 18);
    assert_eq!(system_data.clock_speed, 4194304);
    assert_eq!(system_data.horizontal_sync, 9198000);
    assert_eq!(system_data.vertical_sync_millihertz, 59730);
    assert_eq!(system_data.mmu.rom_bank, 1);
}

#[test]
fn timer_overflow_sets_interrupt_and_reloads_next_tick() {
    let mut system_data: SystemData = get_system_data("CLASSIC");
    system_data.mmu.mem_map[0xFF05] = 0xFF;  // TIMA at the brink
    system_data.mmu.mem_map[0xFF06] = 0x42;  // TMA
    system_data.mmu.mem_map[0xFF07] = 0x05;  // enabled, fastest rate
    system_data.cycles = 4;
    system_data.timer_tick();
    // the overflow raised the timer interrupt and wrapped TIMA to zero;
    // the TMA reload is left for the following tick
    assert_ne!(system_data.mmu.mem_map[0xFF0F] & 0x04, 0);
    assert_eq!(system_data.mmu.mem_map[0xFF05], 0x00);
    assert!(system_data.timer.mod_delay);
    system_data.cycles = 1;
    system_data.timer_tick();
    assert_eq!(system_data.mmu.mem_map[0xFF05], 0x42);
    assert!(!system_data.timer.mod_delay);
}

#[test]
fn timer_disabled_leaves_tima_alone() {
    let mut system_data: SystemData = get_system_data("CLASSIC");
    system_data.mmu.mem_map[0xFF05] = 0x10;
    system_data.mmu.mem_map[0xFF07] = 0x01;  // rate set but enable bit clear
    system_data.cycles = 255;
    system_data.timer_tick();
    assert_eq!(system_data.mmu.mem_map[0xFF05], 0x10);
    assert_eq!(system_data.mmu.mem_map[0xFF0F] & 0x04, 0);
}

#[test]
fn divider_is_counter_high_byte_and_reset_takes_effect() {
    let mut system_data: SystemData = get_system_data("CLASSIC");
    system_data.timer.cycle_register = 0x01FE;
    system_data.cycles = 4;
    system_data.timer_tick();
    assert_eq!(system_data.timer.cycle_register, 0x0202);
    assert_eq!(system_data.mmu.mem_map[0xFF04], 0x02);
    // a CPU write to the divider requests a reset, consumed by the next tick
    system_data.mmu.set_to_memory(0xFF04, 0x55, true);
    assert!(system_data.mmu.div_reset);
    system_data.timer_tick();
    assert_eq!(system_data.timer.cycle_register, 0);
    assert_eq!(system_data.mmu.mem_map[0xFF04], 0);
    assert!(!system_data.mmu.div_reset);
}

#[test]
fn joypad_button_select_reads_pressed_bits_low() {
    let mut system_data: SystemData = get_system_data("CLASSIC");
    system_data.mmu.mem_map[0xFF00] = 0x10;  // select the button group
    let mut input = PlayerInput::new();
    input.a_button = true;
    assert_eq!(input.update_input(&system_data), 0xDE);
    let mut direction_input = PlayerInput::new();
    direction_input.up = true;
    system_data.mmu.mem_map[0xFF00] = 0x20;  // select the direction group
    assert_eq!(direction_input.update_input(&system_data), 0xEB);
    system_data.mmu.mem_map[0xFF00] = 0x30;  // neither group selected
    assert_eq!(direction_input.update_input(&system_data), 0xFF);
}

#[test]
fn timer_new_is_all_zero() {
    let timer = Timer::new();
    assert_eq!(timer.cycle_register, 0);
    assert_eq!(timer.divider_register, 0);
    assert_eq!(timer.timer_counter, 0);
    assert_eq!(timer.timer_modulo, 0);
    assert_eq!(timer.timer_control, 0);
    assert!(!timer.mod_delay);
}

#[test]
fn registers_mapped_accessors_round_trip() {
    let mut registers = Registers::new();
    for index in 0..7 {
        registers.mapped_register_setter(index, index + 10);
        assert_eq!(registers.mapped_register_getter(index), index + 10);
    }
    assert_eq!(registers.mapped_register_getter(9), 0xFF);
    registers.mapped_register_setter_with_flags(1, 0xF0);
    assert_eq!(registers.flags, 0xF0);
    assert_eq!(registers.mapped_register_getter_with_flags(1), 0xF0);
    assert_eq!(registers.mapped_register_getter_with_flags(8), 0xFF);
    registers.mapped_16_bit_register_setter(3, 0xBEEF);
    assert_eq!(registers.h_register, 0xBE);
    assert_eq!(registers.l_register, 0xEF);
    assert_eq!(registers.mapped_16_bit_register_getter(3), 0xBEEF);
    registers.mapped_16_bit_register_setter(4, 0x1234);
    assert_eq!(registers.stack_pointer, 0x1234);
    assert_eq!(registers.mapped_16_bit_register_getter(7), 0xFFFF);
}
