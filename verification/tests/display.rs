use chip_8_wasm::display::{get_addr_from_xy, Display};
use chip_8_wasm::keypad::Keypad;
use chip_8_wasm::memory::{is_span_in_memory, Ram, FONT_SPRITES, MEM_SIZE};

fn lit(display: &Display) -> Vec<usize> {
    let vram = display.get_vram();
    let mut on = Vec::new();
    for (addr, px) in vram.iter().enumerate() {
        if *px != 0 {
            on.push(addr);
        }
    }
    on
}

#[test]
fn new_display_is_blank() {
    let display = Display::new();
    let vram = display.get_vram();
    assert_eq!(vram.len(), 2048);
    assert!(vram.iter().all(|px| *px == 0));
}

#[test]
fn addr_is_row_major() {
    assert_eq!(get_addr_from_xy(0, 0), 0);
    assert_eq!(get_addr_from_xy(63, 0), 63);
    assert_eq!(get_addr_from_xy(0, 1), 64);
    assert_eq!(get_addr_from_xy(5, 3), 197);
    assert_eq!(get_addr_from_xy(63, 31), 2047);
}

#[test]
fn draw_sets_bits_most_significant_first() {
    let mut display = Display::new();
    let collision = display.draw_sprite(0, 0, &[0b1010_0001]);
    assert!(!collision);
    assert_eq!(lit(&display), vec![0, 2, 7]);
}

#[test]
fn draw_rows_go_down() {
    let mut display = Display::new();
    let collision = display.draw_sprite(3, 2, &[0x80, 0x40, 0xC0]);
    assert!(!collision);
    assert_eq!(lit(&display), vec![2 * 64 + 3, 3 * 64 + 4, 4 * 64 + 3, 4 * 64 + 4]);
}

#[test]
fn draw_twice_restores_and_collides() {
    for byte in [0x00u8, 0x01, 0x80, 0x5A, 0xFF] {
        let mut display = Display::new();
        display.draw_sprite(10, 5, &[0x3C]);
        let before = display.get_vram();
        let first = display.draw_sprite(12, 5, &[byte]);
        let turned_on = display
            .get_vram()
            .iter()
            .zip(before.iter())
            .any(|(now, was)| *was == 0 && *now == 1);
        let second = display.draw_sprite(12, 5, &[byte]);
        assert_eq!(display.get_vram(), before);
        assert_eq!(second, turned_on);
        let erased_by_first = (byte & 0b1111_0000) != 0;
        assert_eq!(first, erased_by_first);
    }
}

#[test]
fn draw_wraps_columns() {
    let mut display = Display::new();
    let collision = display.draw_sprite(60, 0, &[0xFF]);
    assert!(!collision);
    assert_eq!(lit(&display), vec![0, 1, 2, 3, 60, 61, 62, 63]);
}

#[test]
fn draw_wraps_rows() {
    let mut display = Display::new();
    display.draw_sprite(0, 31, &[0x80, 0x80]);
    assert_eq!(lit(&display), vec![0, 31 * 64]);
}

#[test]
fn draw_wraps_large_origin() {
    let mut display = Display::new();
    display.draw_sprite(255, 255, &[0xC0]);
    assert_eq!(lit(&display), vec![31 * 64, 31 * 64 + 63]);
}

#[test]
fn collision_only_when_lit_pixel_is_erased() {
    let mut display = Display::new();
    display.draw_sprite(0, 0, &[0xF0]);
    assert!(!display.draw_sprite(0, 0, &[0x0F]));
    assert!(!display.draw_sprite(0, 1, &[0xFF]));
    assert!(display.draw_sprite(0, 0, &[0x01]));
    assert_eq!(lit(&display)[..7], [0, 1, 2, 3, 4, 5, 6]);
}

#[test]
fn empty_sprite_changes_nothing() {
    let mut display = Display::new();
    display.draw_sprite(1, 1, &[0xFF]);
    let before = display.get_vram();
    assert!(!display.draw_sprite(1, 1, &[]));
    assert_eq!(display.get_vram(), before);
}

#[test]
fn sprite_taller_than_screen_overdraws() {
    let mut display = Display::new();
    let rows = [0x80u8; 33];
    let collision = display.draw_sprite(0, 0, &rows);
    assert!(collision);
    let on = lit(&display);
    assert_eq!(on.len(), 31);
    assert!(!on.contains(&0));
}

#[test]
fn clrs_blanks_the_screen() {
    let mut display = Display::new();
    display.draw_sprite(7, 7, &[0xFF, 0xFF]);
    display.clrs();
    assert!(lit(&display).is_empty());
}

#[test]
fn pixels_stay_bits() {
    let mut display = Display::new();
    display.draw_sprite(0, 0, &[0xFF, 0xAA, 0x55]);
    display.draw_sprite(4, 1, &[0xFF, 0xFF]);
    assert!(display.get_vram().iter().all(|px| *px <= 1));
}

#[test]
fn ram_starts_with_font() {
    let ram = Ram::new();
    for addr in 0..80u16 {
        assert_eq!(ram.memread(addr), FONT_SPRITES[addr as usize]);
    }
    assert_eq!(ram.memread(0), 0xF0);
    assert_eq!(ram.memread(1), 0x90);
    assert_eq!(ram.memread(79), 0x80);
    for addr in 80..MEM_SIZE as u16 {
        assert_eq!(ram.memread(addr), 0);
    }
}

#[test]
fn ram_write_then_read() {
    let mut ram = Ram::new();
    ram.memwrite(0x200, 0xAB);
    ram.memwrite(0xFFF, 0xCD);
    assert_eq!(ram.memread(0x200), 0xAB);
    assert_eq!(ram.memread(0xFFF), 0xCD);
    assert_eq!(ram.memread(0x201), 0);
}

#[test]
fn ram_reset_restores_font() {
    let mut ram = Ram::new();
    ram.memwrite(3, 0x11);
    ram.memwrite(0x300, 0x22);
    ram.reset();
    assert_eq!(ram.memread(3), 0x90);
    assert_eq!(ram.memread(0x300), 0);
}

#[test]
fn span_checks() {
    assert!(is_span_in_memory(0, 0));
    assert!(is_span_in_memory(0xFFFF, 0));
    assert!(is_span_in_memory(0, 4096));
    assert!(is_span_in_memory(4095, 1));
    assert!(!is_span_in_memory(4095, 2));
    assert!(!is_span_in_memory(4096, 1));
    assert!(!is_span_in_memory(0xFFFF, 0xFFFF));
}

#[test]
fn keypad_latches_one_key() {
    let mut keypad = Keypad::new();
    assert_eq!(keypad.get_pressed_key(), None);
    assert!(!keypad.is_key_pressed(0));
    keypad.set_pressed_key(Some(0xA));
    assert_eq!(keypad.get_pressed_key(), Some(0xA));
    assert!(keypad.is_key_pressed(0xA));
    assert!(!keypad.is_key_pressed(0xB));
    keypad.set_pressed_key(Some(3));
    assert!(!keypad.is_key_pressed(0xA));
    keypad.set_pressed_key(None);
    assert_eq!(keypad.get_pressed_key(), None);
}
