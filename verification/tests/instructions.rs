use super_rs8::Chip8VM;

fn machine_with(program: &[u8]) -> Chip8VM {
    let mut vm = Chip8VM::new();
    vm.load_rom(program);
    vm
}

fn after(program: &[u8]) -> Chip8VM {
    let mut vm = machine_with(program);
    for _ in 0..program.len() / 2 {
        vm.step(0);
    }
    vm
}

#[test]
fn load_byte_sets_the_register() {
    let vm = after(&[0x6A, 0x42]);
    assert_eq!(vm.registers()[0xA], 0x42);
    assert_eq!(vm.pc(), 0x202);
}

#[test]
fn add_byte_wraps_and_leaves_the_flag() {
    let vm = after(&[0x60, 0xFF, 0x70, 0x02]);
    assert_eq!(vm.registers()[0], 0x01);
    assert_eq!(vm.registers()[0xF], 0);
}

#[test]
fn load_register_copies() {
    let vm = after(&[0x61, 0x77, 0x80, 0x10]);
    assert_eq!(vm.registers()[0], 0x77);
    assert_eq!(vm.registers()[1], 0x77);
}

#[test]
fn or_and_xor() {
    let vm = after(&[
        0x60, 0xCC, 0x61, 0xAA, 0x62, 0xCC, 0x63, 0xCC, 0x80, 0x11, 0x82, 0x12, 0x83, 0x13,
    ]);
    assert_eq!(vm.registers()[0], 0xCC | 0xAA);
    assert_eq!(vm.registers()[2], 0xCC & 0xAA);
    assert_eq!(vm.registers()[3], 0xCC ^ 0xAA);
    assert_eq!(vm.registers()[1], 0xAA);
}

#[test]
fn add_registers_with_carry() {
    let vm = after(&[0x60, 0xFF, 0x61, 0x01, 0x80, 0x14]);
    assert_eq!(vm.registers()[0], 0x00);
    assert_eq!(vm.registers()[0xF], 1);
}

#[test]
fn add_registers_without_carry() {
    let vm = after(&[0x6F, 0x01, 0x60, 0xFE, 0x61, 0x01, 0x80, 0x14]);
    assert_eq!(vm.registers()[0], 0xFF);
    assert_eq!(vm.registers()[0xF], 0);
}

#[test]
fn sub_with_borrow() {
    let vm = after(&[0x60, 0x01, 0x61, 0x02, 0x80, 0x15]);
    assert_eq!(vm.registers()[0], 0xFF);
    assert_eq!(vm.registers()[0xF], 0);
}

#[test]
fn sub_without_borrow() {
    let vm = after(&[0x60, 0x07, 0x61, 0x02, 0x80, 0x15]);
    assert_eq!(vm.registers()[0], 0x05);
    assert_eq!(vm.registers()[0xF], 1);
}

#[test]
fn sub_of_equal_values_does_not_borrow() {
    let vm = after(&[0x60, 0x09, 0x61, 0x09, 0x80, 0x15]);
    assert_eq!(vm.registers()[0], 0);
    assert_eq!(vm.registers()[0xF], 1);
}

#[test]
fn subn_without_borrow() {
    let vm = after(&[0x60, 0x01, 0x61, 0x02, 0x80, 0x17]);
    assert_eq!(vm.registers()[0], 0x01);
    assert_eq!(vm.registers()[0xF], 1);
}

#[test]
fn subn_with_borrow() {
    let vm = after(&[0x60, 0x02, 0x61, 0x01, 0x80, 0x17]);
    assert_eq!(vm.registers()[0], 0xFF);
    assert_eq!(vm.registers()[0xF], 0);
}

#[test]
fn subn_of_equal_values_does_not_borrow() {
    let vm = after(&[0x60, 0x09, 0x61, 0x09, 0x80, 0x17]);
    assert_eq!(vm.registers()[0], 0);
    assert_eq!(vm.registers()[0xF], 1);
}

#[test]
fn shift_right_keeps_the_low_bit_in_the_flag() {
    let odd = after(&[0x60, 0x05, 0x80, 0x06]);
    assert_eq!(odd.registers()[0], 0x02);
    assert_eq!(odd.registers()[0xF], 1);
    let even = after(&[0x6F, 0x01, 0x60, 0x04, 0x80, 0x06]);
    assert_eq!(even.registers()[0], 0x02);
    assert_eq!(even.registers()[0xF], 0);
}

#[test]
fn shift_left_keeps_the_high_bit_in_the_flag() {
    let high = after(&[0x60, 0x81, 0x80, 0x0E]);
    assert_eq!(high.registers()[0], 0x02);
    assert_eq!(high.registers()[0xF], 1);
    let low = after(&[0x6F, 0x01, 0x60, 0x41, 0x80, 0x0E]);
    assert_eq!(low.registers()[0], 0x82);
    assert_eq!(low.registers()[0xF], 0);
}

#[test]
fn flag_is_written_last_when_it_is_the_destination() {
    // VF = 0xFF + 0x01: the sum would be 0, the carry 1.
    let add = after(&[0x6F, 0xFF, 0x61, 0x01, 0x8F, 0x14]);
    assert_eq!(add.registers()[0xF], 1);
    // VF = 0x05 >> 1: the result would be 2, the bit shifted out 1.
    let shr = after(&[0x6F, 0x05, 0x8F, 0x06]);
    assert_eq!(shr.registers()[0xF], 1);
    // VF = 0x03 - 0x05: the result would be 0xFE, "no borrow" is 0.
    let sub = after(&[0x6F, 0x03, 0x61, 0x05, 0x8F, 0x15]);
    assert_eq!(sub.registers()[0xF], 0);
}

#[test]
fn flag_as_source_is_read_before_it_is_written() {
    // V0 = 0xF0 + VF, where VF = 0x20: the sum wraps to 0x10 with carry.
    let vm = after(&[0x60, 0xF0, 0x6F, 0x20, 0x80, 0xF4]);
    assert_eq!(vm.registers()[0], 0x10);
    assert_eq!(vm.registers()[0xF], 1);
}

#[test]
fn skip_if_equal_to_byte() {
    let taken = after(&[0x60, 0x33, 0x30, 0x33]);
    assert_eq!(taken.pc(), 0x206);
    let not_taken = after(&[0x60, 0x33, 0x30, 0x34]);
    assert_eq!(not_taken.pc(), 0x204);
}

#[test]
fn skip_if_not_equal_to_byte() {
    let taken = after(&[0x60, 0x33, 0x40, 0x34]);
    assert_eq!(taken.pc(), 0x206);
    let not_taken = after(&[0x60, 0x33, 0x40, 0x33]);
    assert_eq!(not_taken.pc(), 0x204);
}

#[test]
fn skip_if_registers_equal() {
    let taken = after(&[0x60, 0x33, 0x61, 0x33, 0x50, 0x10]);
    assert_eq!(taken.pc(), 0x208);
    let not_taken = after(&[0x60, 0x33, 0x61, 0x34, 0x50, 0x10]);
    assert_eq!(not_taken.pc(), 0x206);
}

#[test]
fn skip_if_registers_differ() {
    let taken = after(&[0x60, 0x33, 0x61, 0x34, 0x90, 0x10]);
    assert_eq!(taken.pc(), 0x208);
    let not_taken = after(&[0x60, 0x33, 0x61, 0x33, 0x90, 0x10]);
    assert_eq!(not_taken.pc(), 0x206);
}

#[test]
fn skip_at_the_end_of_memory_wraps() {
    // 0x200: LD V0, 1; 0x202: JP 0xFFE; 0xFFE: SE V0, 1
    let mut rom: Vec<u8> = vec![0; 0xE00];
    rom[0] = 0x60;
    rom[1] = 0x01;
    rom[2] = 0x1F;
    rom[3] = 0xFE;
    rom[0xDFE] = 0x30;
    rom[0xDFF] = 0x01;
    let mut vm = machine_with(&rom);
    for _ in 0..3 {
        vm.step(0);
    }
    assert_eq!(vm.pc(), 2);
}

#[test]
fn skip_if_key_down() {
    let mut vm = machine_with(&[0x60, 0x07, 0xE0, 0x9E, 0x00, 0x00, 0xE0, 0x9E]);
    vm.step(0);
    vm.step(0);
    assert_eq!(vm.pc(), 0x204);
    vm.set_key(7, true);
    vm.step(0);
    vm.step(0);
    assert_eq!(vm.pc(), 0x20A);
}

#[test]
fn skip_if_key_up() {
    let mut vm = machine_with(&[0x60, 0x07, 0xE0, 0xA1, 0x00, 0x00, 0x00, 0x00, 0xE0, 0xA1]);
    vm.step(0);
    vm.step(0);
    assert_eq!(vm.pc(), 0x206);
    vm.set_key(7, true);
    vm.step(0);
    vm.step(0);
    assert_eq!(vm.pc(), 0x20A);
}

#[test]
fn key_skips_treat_a_number_that_names_no_key_as_up() {
    let mut down = machine_with(&[0x60, 0x10, 0xE0, 0x9E]);
    for key in 0..16usize {
        down.set_key(key, true);
    }
    down.step(0);
    down.step(0);
    assert_eq!(down.pc(), 0x204);
    let mut up = machine_with(&[0x60, 0xFF, 0xE0, 0xA1]);
    for key in 0..16usize {
        up.set_key(key, true);
    }
    up.step(0);
    up.step(0);
    assert_eq!(up.pc(), 0x206);
}

#[test]
fn key_skip_sees_key_fifteen() {
    let mut vm = machine_with(&[0x60, 0x0F, 0xE0, 0x9E]);
    vm.set_key(15, true);
    vm.step(0);
    vm.step(0);
    assert_eq!(vm.pc(), 0x206);
}

#[test]
fn load_index() {
    let vm = after(&[0xAF, 0xFF]);
    assert_eq!(vm.index(), 0xFFF);
    assert_eq!(vm.pc(), 0x202);
}

#[test]
fn add_to_index_wraps_at_4096() {
    let vm = after(&[0x60, 0x05, 0xAF, 0xFE, 0xF0, 0x1E]);
    assert_eq!(vm.index(), 0x003);
    let plain = after(&[0x60, 0x05, 0xA1, 0x00, 0xF0, 0x1E]);
    assert_eq!(plain.index(), 0x105);
}

#[test]
fn small_glyph_address_is_five_times_the_value() {
    let vm = after(&[0x60, 0x0A, 0xF0, 0x29]);
    assert_eq!(vm.index(), 50);
    let large = after(&[0x60, 0xFF, 0xF0, 0x29]);
    assert_eq!(large.index(), 1275);
}

#[test]
fn large_glyph_address_is_ten_times_the_value_plus_eighty() {
    let vm = after(&[0x60, 0x09, 0xF0, 0x30]);
    assert_eq!(vm.index(), 170);
    let large = after(&[0x60, 0xFF, 0xF0, 0x30]);
    assert_eq!(large.index(), 2630);
}

#[test]
fn delay_timer_is_written_and_read() {
    let vm = after(&[0x60, 0x2A, 0xF0, 0x15, 0xF1, 0x07]);
    assert_eq!(vm.delay_timer(), 0x2A);
    assert_eq!(vm.registers()[1], 0x2A);
    assert_eq!(vm.sound_timer(), 0);
}

#[test]
fn sound_timer_is_written() {
    let vm = after(&[0x60, 0x2A, 0xF0, 0x18]);
    assert_eq!(vm.sound_timer(), 0x2A);
    assert_eq!(vm.delay_timer(), 0);
}

#[test]
fn decimal_digits_of_157() {
    let vm = after(&[0x60, 157, 0xA3, 0x00, 0xF0, 0x33]);
    assert_eq!(&vm.memory()[0x300..0x303], &[1, 5, 7]);
    assert_eq!(vm.index(), 0x300);
    assert_eq!(vm.pc(), 0x206);
}

#[test]
fn decimal_digits_of_small_and_large_values() {
    let zero = after(&[0x60, 0, 0xA3, 0x00, 0xF0, 0x33]);
    assert_eq!(&zero.memory()[0x300..0x303], &[0, 0, 0]);
    let nine = after(&[0x60, 9, 0xA3, 0x00, 0xF0, 0x33]);
    assert_eq!(&nine.memory()[0x300..0x303], &[0, 0, 9]);
    let forty = after(&[0x60, 40, 0xA3, 0x00, 0xF0, 0x33]);
    assert_eq!(&forty.memory()[0x300..0x303], &[0, 4, 0]);
    let most = after(&[0x60, 255, 0xA3, 0x00, 0xF0, 0x33]);
    assert_eq!(&most.memory()[0x300..0x303], &[2, 5, 5]);
}

#[test]
fn decimal_digits_wrap_at_the_end_of_memory() {
    let vm = after(&[0x60, 123, 0xAF, 0xFF, 0xF0, 0x33]);
    assert_eq!(vm.memory()[0xFFF], 1);
    assert_eq!(vm.memory()[0x000], 2);
    assert_eq!(vm.memory()[0x001], 3);
}

#[test]
fn store_writes_registers_up_to_x() {
    let vm = after(&[0x60, 0x11, 0x61, 0x22, 0x62, 0x33, 0x63, 0x44, 0xA3, 0x00, 0xF2, 0x55]);
    assert_eq!(&vm.memory()[0x300..0x304], &[0x11, 0x22, 0x33, 0x00]);
    assert_eq!(vm.index(), 0x300);
    assert_eq!(vm.pc(), 0x20C);
}

#[test]
fn store_of_one_register() {
    let vm = after(&[0x60, 0x11, 0x61, 0x22, 0xA3, 0x00, 0xF0, 0x55]);
    assert_eq!(&vm.memory()[0x300..0x302], &[0x11, 0x00]);
}

#[test]
fn store_wraps_at_the_end_of_memory() {
    let vm = after(&[0x60, 0x11, 0x61, 0x22, 0x62, 0x33, 0xAF, 0xFE, 0xF2, 0x55]);
    assert_eq!(vm.memory()[0xFFE], 0x11);
    assert_eq!(vm.memory()[0xFFF], 0x22);
    assert_eq!(vm.memory()[0x000], 0x33);
    assert_eq!(vm.memory()[0x001], 0x90);
}

#[test]
fn store_of_all_registers() {
    let mut program: Vec<u8> = Vec::new();
    for x in 0..16u8 {
        program.push(0x60 | x);
        program.push(0xA0 + x);
    }
    program.extend_from_slice(&[0xA4, 0x00, 0xFF, 0x55]);
    let vm = after(&program);
    for x in 0..16usize {
        assert_eq!(vm.memory()[0x400 + x], 0xA0 + x as u8);
    }
    assert_eq!(vm.memory()[0x410], 0);
}

#[test]
fn load_reads_registers_up_to_x() {
    // LD V3, 0x99; LD I, 0x208; LD V2, [I]; (pad); data
    let vm = {
        let mut vm = machine_with(&[0x63, 0x99, 0xA2, 0x08, 0xF2, 0x65, 0x00, 0x00, 1, 2, 3, 4]);
        for _ in 0..3 {
            vm.step(0);
        }
        vm
    };
    assert_eq!(&vm.registers()[0..4], &[1, 2, 3, 0x99]);
    assert_eq!(vm.index(), 0x208);
    assert_eq!(vm.pc(), 0x206);
}

#[test]
fn load_wraps_at_the_end_of_memory() {
    let mut rom: Vec<u8> = vec![0; 0xE00];
    rom[0] = 0xAF;
    rom[1] = 0xFF;
    rom[2] = 0xF1;
    rom[3] = 0x65;
    rom[0xDFF] = 0x5A;
    let mut vm = machine_with(&rom);
    vm.step(0);
    vm.step(0);
    assert_eq!(vm.registers()[0], 0x5A);
    assert_eq!(vm.registers()[1], 0xF0);
}

#[test]
fn store_then_load_round_trips() {
    let vm = after(&[
        0x60, 0x11, 0x61, 0x22, 0xA3, 0x00, 0xF1, 0x55, 0x60, 0x00, 0x61, 0x00, 0xF1, 0x65,
    ]);
    assert_eq!(&vm.registers()[0..2], &[0x11, 0x22]);
}
