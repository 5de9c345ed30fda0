use super_rs8::display::clear;
use super_rs8::display::draw;
use super_rs8::display::scroll_down;
use super_rs8::display::scroll_left;
use super_rs8::display::scroll_right;
use super_rs8::Chip8VM;

fn lit(display: &[bool; 8192]) -> Vec<(usize, usize)> {
    let mut cells: Vec<(usize, usize)> = Vec::new();
    for row in 0..64usize {
        for col in 0..128usize {
            if display[row * 128 + col] {
                cells.push((row, col));
            }
        }
    }
    cells
}

fn memory_with(at: usize, bytes: &[u8]) -> [u8; 4096] {
    let mut memory = [0u8; 4096];
    for (k, byte) in bytes.iter().enumerate() {
        memory[(at + k) % 4096] = *byte;
    }
    memory
}

#[test]
fn clear_turns_every_cell_off() {
    let mut display = [true; 8192];
    clear(&mut display);
    assert!(display.iter().all(|c| !*c));
}

#[test]
fn cls_instruction_clears_the_display() {
    // LD I, 0 (glyph 0); DRW V0, V0, 5; CLS
    let mut vm = Chip8VM::new();
    vm.load_rom(&[0xA0, 0x00, 0xD0, 0x05, 0x00, 0xE0]);
    vm.step(0);
    vm.step(0);
    assert!(vm.vram().iter().any(|c| *c));
    vm.step(0);
    assert_eq!(vm.vram().len(), 8192);
    assert!(vm.vram().iter().all(|c| !*c));
    assert_eq!(vm.pc(), 0x206);
}

#[test]
fn draw_clips_at_the_right_edge() {
    // 0xFF at (60, 0) on the 64x32 screen: only four of the eight pixels
    // fit, each two cells wide and two cells high.
    let memory = memory_with(0x300, &[0xFF]);
    let mut display = [false; 8192];
    let hit = draw(&mut display, &memory, 0x300, 60, 0, 1, false);
    assert!(!hit);
    let mut expected: Vec<(usize, usize)> = Vec::new();
    for row in 0..2usize {
        for col in 120..128usize {
            expected.push((row, col));
        }
    }
    assert_eq!(lit(&display), expected);
}

#[test]
fn draw_instruction_clips_at_the_right_edge() {
    // LD V0, 60; LD V1, 0; LD I, 0x20A; DRW V0, V1, 1; (pad); 0xFF
    let mut vm = Chip8VM::new();
    vm.load_rom(&[0x60, 0x3C, 0x61, 0x00, 0xA2, 0x0A, 0xD0, 0x11, 0x00, 0x00, 0xFF]);
    for _ in 0..4 {
        vm.step(0);
    }
    let cells = lit(vm.vram());
    assert_eq!(cells.len(), 16);
    assert!(cells.iter().all(|(row, col)| *row < 2 && *col >= 120));
    assert_eq!(vm.registers()[0xF], 0);
    assert_eq!(vm.pc(), 0x208);
}

#[test]
fn draw_clips_at_the_bottom_edge() {
    let memory = memory_with(0x300, &[0x80, 0x80, 0x80, 0x80]);
    let mut display = [false; 8192];
    let hit = draw(&mut display, &memory, 0x300, 0, 30, 4, false);
    assert!(!hit);
    assert_eq!(
        lit(&display),
        vec![(60, 0), (60, 1), (61, 0), (61, 1), (62, 0), (62, 1), (63, 0), (63, 1)]
    );
}

#[test]
fn draw_in_extended_mode_uses_single_cells() {
    let memory = memory_with(0x300, &[0b1010_0001, 0b0100_0000]);
    let mut display = [false; 8192];
    let hit = draw(&mut display, &memory, 0x300, 10, 20, 2, true);
    assert!(!hit);
    assert_eq!(lit(&display), vec![(20, 10), (20, 12), (20, 17), (21, 11)]);
}

#[test]
fn draw_in_extended_mode_clips_at_both_edges() {
    let memory = memory_with(0x300, &[0xFF, 0xFF, 0xFF]);
    let mut display = [false; 8192];
    draw(&mut display, &memory, 0x300, 125, 62, 3, true);
    assert_eq!(
        lit(&display),
        vec![(62, 125), (62, 126), (62, 127), (63, 125), (63, 126), (63, 127)]
    );
}

#[test]
fn draw_reduces_the_position_to_the_screen() {
    let memory = memory_with(0x300, &[0x80]);
    let mut low = [false; 8192];
    draw(&mut low, &memory, 0x300, 64 + 3, 32 + 5, 1, false);
    assert_eq!(lit(&low), vec![(10, 6), (10, 7), (11, 6), (11, 7)]);
    let mut high = [false; 8192];
    draw(&mut high, &memory, 0x300, 128 + 3, 64 + 5, 1, true);
    assert_eq!(lit(&high), vec![(5, 3)]);
    let mut high_again = [false; 8192];
    draw(&mut high_again, &memory, 0x300, 255, 255, 1, true);
    assert_eq!(lit(&high_again), vec![(63, 127)]);
}

#[test]
fn draw_big_sprite_is_sixteen_by_sixteen() {
    let mut bytes: Vec<u8> = Vec::new();
    for _ in 0..16 {
        bytes.push(0x80);
        bytes.push(0x01);
    }
    let memory = memory_with(0x300, &bytes);
    let mut display = [false; 8192];
    let hit = draw(&mut display, &memory, 0x300, 8, 4, 0, true);
    assert!(!hit);
    let mut expected: Vec<(usize, usize)> = Vec::new();
    for row in 4..20usize {
        expected.push((row, 8));
        expected.push((row, 23));
    }
    assert_eq!(lit(&display), expected);
}

#[test]
fn draw_big_sprite_clips() {
    let bytes: Vec<u8> = vec![0xFF; 32];
    let memory = memory_with(0x300, &bytes);
    let mut display = [false; 8192];
    draw(&mut display, &memory, 0x300, 120, 60, 0, true);
    let cells = lit(&display);
    assert_eq!(cells.len(), 8 * 4);
    assert!(cells.iter().all(|(row, col)| *row >= 60 && *col >= 120));
}

#[test]
fn draw_of_no_rows_outside_extended_mode_draws_nothing() {
    let memory = memory_with(0x300, &[0xFF; 32]);
    let mut display = [false; 8192];
    display[5] = true;
    let hit = draw(&mut display, &memory, 0x300, 0, 0, 0, false);
    assert!(!hit);
    assert_eq!(lit(&display), vec![(0, 5)]);
}

#[test]
fn draw_instruction_of_no_rows_resets_the_flag() {
    // LD VF, 1; DRW V0, V0, 0
    let mut vm = Chip8VM::new();
    vm.load_rom(&[0x6F, 0x01, 0xD0, 0x00]);
    vm.step(0);
    assert_eq!(vm.registers()[0xF], 1);
    vm.step(0);
    assert_eq!(vm.registers()[0xF], 0);
    assert!(vm.vram().iter().all(|c| !*c));
    assert_eq!(vm.pc(), 0x204);
}

#[test]
fn draw_reads_sprite_bytes_around_the_end_of_memory() {
    let memory = memory_with(0xFFF, &[0x80, 0x40]);
    assert_eq!(memory[0], 0x40);
    let mut display = [false; 8192];
    draw(&mut display, &memory, 0xFFF, 0, 0, 2, true);
    assert_eq!(lit(&display), vec![(0, 0), (1, 1)]);
}

#[test]
fn draw_twice_restores_the_display_and_collides() {
    let memory = memory_with(0x300, &[0xF0, 0x90, 0x90, 0x90, 0xF0]);
    let mut display = [false; 8192];
    display[0] = true;
    display[700] = true;
    display[8191] = true;
    let before = display;
    let first = draw(&mut display, &memory, 0x300, 12, 7, 5, false);
    assert!(!first);
    assert_ne!(display, before);
    let second = draw(&mut display, &memory, 0x300, 12, 7, 5, false);
    assert!(second);
    assert_eq!(display, before);
}

#[test]
fn draw_twice_in_extended_mode_restores_the_display() {
    let memory = memory_with(0x300, &[0xFF; 32]);
    let mut display = [false; 8192];
    for p in (0..8192usize).step_by(7) {
        display[p] = true;
    }
    let before = display;
    let first = draw(&mut display, &memory, 0x300, 100, 50, 0, true);
    assert!(first);
    let second = draw(&mut display, &memory, 0x300, 100, 50, 0, true);
    assert!(second);
    assert_eq!(display, before);
}

#[test]
fn second_draw_on_cells_that_were_all_lit_does_not_collide() {
    let memory = memory_with(0x300, &[0x80]);
    let mut display = [false; 8192];
    display[0] = true;
    let first = draw(&mut display, &memory, 0x300, 0, 0, 1, true);
    assert!(first);
    assert!(!display[0]);
    let second = draw(&mut display, &memory, 0x300, 0, 0, 1, true);
    assert!(!second);
    assert!(display[0]);
}

#[test]
fn draw_instruction_twice_sets_the_flag_the_second_time() {
    // LD V0, 5; LD V1, 6; LD I, 5 (glyph 1); DRW V0, V1, 5; DRW V0, V1, 5
    let mut vm = Chip8VM::new();
    vm.load_rom(&[0x60, 0x05, 0x61, 0x06, 0xA0, 0x05, 0xD0, 0x15, 0xD0, 0x15]);
    for _ in 0..4 {
        vm.step(0);
    }
    assert_eq!(vm.registers()[0xF], 0);
    assert!(vm.vram().iter().any(|c| *c));
    vm.step(0);
    assert_eq!(vm.registers()[0xF], 1);
    assert!(vm.vram().iter().all(|c| !*c));
}

#[test]
fn collision_is_seen_on_any_cell_of_a_block() {
    let memory = memory_with(0x300, &[0x80]);
    let mut display = [false; 8192];
    display[129] = true;
    let hit = draw(&mut display, &memory, 0x300, 0, 0, 1, false);
    assert!(hit);
    assert_eq!(lit(&display), vec![(0, 0), (0, 1), (1, 0)]);
}

#[test]
fn draw_without_overlap_does_not_collide() {
    let memory = memory_with(0x300, &[0x80]);
    let mut display = [false; 8192];
    display[2] = true;
    let hit = draw(&mut display, &memory, 0x300, 0, 0, 1, false);
    assert!(!hit);
}

#[test]
fn draw_small_glyph_zero() {
    let vm = Chip8VM::new();
    let mut display = [false; 8192];
    draw(&mut display, vm.memory(), 0, 0, 0, 5, true);
    assert_eq!(
        lit(&display),
        vec![
            (0, 0), (0, 1), (0, 2), (0, 3),
            (1, 0), (1, 3),
            (2, 0), (2, 3),
            (3, 0), (3, 3),
            (4, 0), (4, 1), (4, 2), (4, 3),
        ]
    );
}

#[test]
fn scroll_down_moves_rows_and_blanks_the_top() {
    let mut display = [false; 8192];
    display[0] = true;
    display[5 * 128 + 7] = true;
    display[63 * 128 + 127] = true;
    display[60 * 128] = true;
    scroll_down(&mut display, 3);
    assert_eq!(lit(&display), vec![(3, 0), (8, 7), (63, 0)]);
}

#[test]
fn scroll_down_by_zero_changes_nothing() {
    let mut display = [false; 8192];
    display[77] = true;
    display[8000] = true;
    let before = display;
    scroll_down(&mut display, 0);
    assert_eq!(display, before);
}

#[test]
fn scroll_down_by_fifteen() {
    let mut display = [true; 8192];
    scroll_down(&mut display, 15);
    for p in 0..8192usize {
        assert_eq!(display[p], p / 128 >= 15);
    }
}

#[test]
fn scroll_down_past_the_screen_blanks_it() {
    let mut display = [true; 8192];
    scroll_down(&mut display, 64);
    assert!(display.iter().all(|c| !*c));
    let mut again = [true; 8192];
    scroll_down(&mut again, 255);
    assert!(again.iter().all(|c| !*c));
}

#[test]
fn scroll_right_moves_four_cells_and_blanks_the_left() {
    let mut display = [false; 8192];
    display[0] = true;
    display[123] = true;
    display[124] = true;
    display[128 + 10] = true;
    scroll_right(&mut display);
    assert_eq!(lit(&display), vec![(0, 4), (0, 127), (1, 14)]);
}

#[test]
fn scroll_right_of_a_full_screen() {
    let mut display = [true; 8192];
    scroll_right(&mut display);
    for p in 0..8192usize {
        assert_eq!(display[p], p % 128 >= 4);
    }
}

#[test]
fn scroll_left_moves_four_cells_and_blanks_the_right() {
    let mut display = [false; 8192];
    display[3] = true;
    display[4] = true;
    display[127] = true;
    display[128 + 10] = true;
    scroll_left(&mut display);
    assert_eq!(lit(&display), vec![(0, 0), (0, 123), (1, 6)]);
}

#[test]
fn scroll_left_of_a_full_screen() {
    let mut display = [true; 8192];
    scroll_left(&mut display);
    for p in 0..8192usize {
        assert_eq!(display[p], p % 128 < 124);
    }
}

#[test]
fn scroll_instructions_move_the_display() {
    // HIGH; LD I, 0x20E; DRW V0, V0, 1; SCD 2; SCR; SCL; SCL; 0x80
    let mut vm = Chip8VM::new();
    vm.load_rom(&[
        0x00, 0xFF, 0xA2, 0x0E, 0xD0, 0x01, 0x00, 0xC2, 0x00, 0xFB, 0x00, 0xFC, 0x00, 0xFC, 0x80,
    ]);
    for _ in 0..3 {
        vm.step(0);
    }
    assert_eq!(lit(vm.vram()), vec![(0, 0)]);
    vm.step(0);
    assert_eq!(lit(vm.vram()), vec![(2, 0)]);
    vm.step(0);
    assert_eq!(lit(vm.vram()), vec![(2, 4)]);
    vm.step(0);
    assert_eq!(lit(vm.vram()), vec![(2, 0)]);
    vm.step(0);
    assert!(lit(vm.vram()).is_empty());
    assert_eq!(vm.pc(), 0x20E);
}
