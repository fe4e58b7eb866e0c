use chip_8_wasm::bus::Bus;
use chip_8_wasm::cpu::{Cpu, Fault, ProgramCounterKind, PROG_START};

fn machine() -> (Cpu, Bus) {
    (Cpu::new(), Bus::new())
}

fn run(cpu: &mut Cpu, bus: &mut Bus, opcode: u16) -> Result<ProgramCounterKind, Fault> {
    cpu.execute_instruction(opcode, bus, None)
}

fn poke(bus: &mut Bus, addr: u16, opcode: u16) {
    bus.memwrite(addr, (opcode >> 8) as u8);
    bus.memwrite(addr + 1, (opcode & 0xFF) as u8);
}

#[test]
fn new_cpu_is_at_program_start() {
    let cpu = Cpu::new();
    assert_eq!(PROG_START, 0x200);
    assert_eq!(cpu.program_counter(), 0x200);
    assert_eq!(cpu.index(), 0);
    assert_eq!(cpu.delay_timer(), 0);
    assert_eq!(cpu.sound_timer(), 0);
    assert_eq!(cpu.call_depth(), 0);
    for x in 0..16 {
        assert_eq!(cpu.register(x), 0);
    }
}

#[test]
fn sub_sets_flag_when_no_borrow() {
    let (mut cpu, mut bus) = machine();
    run(&mut cpu, &mut bus, 0x6005).unwrap();
    run(&mut cpu, &mut bus, 0x6103).unwrap();
    assert_eq!(run(&mut cpu, &mut bus, 0x8015), Ok(ProgramCounterKind::Next));
    assert_eq!(cpu.register(0), 2);
    assert_eq!(cpu.register(0xF), 1);
}

#[test]
fn sub_clears_flag_on_borrow() {
    let (mut cpu, mut bus) = machine();
    run(&mut cpu, &mut bus, 0x6003).unwrap();
    run(&mut cpu, &mut bus, 0x6105).unwrap();
    run(&mut cpu, &mut bus, 0x8015).unwrap();
    assert_eq!(cpu.register(0), 254);
    assert_eq!(cpu.register(0xF), 0);
}

#[test]
fn sub_of_equal_values_does_not_borrow() {
    let (mut cpu, mut bus) = machine();
    run(&mut cpu, &mut bus, 0x6007).unwrap();
    run(&mut cpu, &mut bus, 0x6107).unwrap();
    run(&mut cpu, &mut bus, 0x8015).unwrap();
    assert_eq!(cpu.register(0), 0);
    assert_eq!(cpu.register(0xF), 1);
}

#[test]
fn reverse_sub_takes_vx_from_vy() {
    let (mut cpu, mut bus) = machine();
    run(&mut cpu, &mut bus, 0x6003).unwrap();
    run(&mut cpu, &mut bus, 0x6105).unwrap();
    run(&mut cpu, &mut bus, 0x8017).unwrap();
    assert_eq!(cpu.register(0), 2);
    assert_eq!(cpu.register(0xF), 1);
    run(&mut cpu, &mut bus, 0x6009).unwrap();
    run(&mut cpu, &mut bus, 0x8017).unwrap();
    assert_eq!(cpu.register(0), 252);
    assert_eq!(cpu.register(0xF), 0);
}

#[test]
fn add_wraps_and_carries() {
    let (mut cpu, mut bus) = machine();
    run(&mut cpu, &mut bus, 0x60FA).unwrap();
    run(&mut cpu, &mut bus, 0x610A).unwrap();
    run(&mut cpu, &mut bus, 0x8014).unwrap();
    assert_eq!(cpu.register(0), 4);
    assert_eq!(cpu.register(1), 10);
    assert_eq!(cpu.register(0xF), 1);
    run(&mut cpu, &mut bus, 0x8014).unwrap();
    assert_eq!(cpu.register(0), 14);
    assert_eq!(cpu.register(0xF), 0);
}

#[test]
fn flag_wins_when_target_is_vf() {
    let (mut cpu, mut bus) = machine();
    run(&mut cpu, &mut bus, 0x6FF0).unwrap();
    run(&mut cpu, &mut bus, 0x6120).unwrap();
    run(&mut cpu, &mut bus, 0x8F14).unwrap();
    assert_eq!(cpu.register(0xF), 1);
}

#[test]
fn add_immediate_wraps_without_flag() {
    let (mut cpu, mut bus) = machine();
    run(&mut cpu, &mut bus, 0x62FF).unwrap();
    run(&mut cpu, &mut bus, 0x7203).unwrap();
    assert_eq!(cpu.register(2), 2);
    assert_eq!(cpu.register(0xF), 0);
}

#[test]
fn logic_ops() {
    let (mut cpu, mut bus) = machine();
    run(&mut cpu, &mut bus, 0x60CC).unwrap();
    run(&mut cpu, &mut bus, 0x61AA).unwrap();
    run(&mut cpu, &mut bus, 0x8200).unwrap();
    assert_eq!(cpu.register(2), 0xCC);
    run(&mut cpu, &mut bus, 0x8211).unwrap();
    assert_eq!(cpu.register(2), 0xEE);
    run(&mut cpu, &mut bus, 0x8302).unwrap();
    run(&mut cpu, &mut bus, 0x8300).unwrap();
    run(&mut cpu, &mut bus, 0x8312).unwrap();
    assert_eq!(cpu.register(3), 0x88);
    run(&mut cpu, &mut bus, 0x8013).unwrap();
    assert_eq!(cpu.register(0), 0x66);
}

#[test]
fn shift_right_takes_flag_from_vx() {
    let (mut cpu, mut bus) = machine();
    run(&mut cpu, &mut bus, 0x6005).unwrap();
    run(&mut cpu, &mut bus, 0x6102).unwrap();
    run(&mut cpu, &mut bus, 0x8016).unwrap();
    assert_eq!(cpu.register(0), 2);
    assert_eq!(cpu.register(1), 2);
    assert_eq!(cpu.register(0xF), 1);
    run(&mut cpu, &mut bus, 0x8016).unwrap();
    assert_eq!(cpu.register(0), 1);
    assert_eq!(cpu.register(0xF), 0);
}

#[test]
fn shift_left_flag_is_raw_top_bit() {
    let (mut cpu, mut bus) = machine();
    run(&mut cpu, &mut bus, 0x6081).unwrap();
    run(&mut cpu, &mut bus, 0x61FF).unwrap();
    run(&mut cpu, &mut bus, 0x801E).unwrap();
    assert_eq!(cpu.register(0), 0x02);
    assert_eq!(cpu.register(0xF), 0x80);
    assert_ne!(cpu.register(0xF), 1);
    run(&mut cpu, &mut bus, 0x801E).unwrap();
    assert_eq!(cpu.register(0), 0x04);
    assert_eq!(cpu.register(0xF), 0);
}

#[test]
fn shift_of_vf_itself() {
    let (mut cpu, mut bus) = machine();
    run(&mut cpu, &mut bus, 0x6F03).unwrap();
    run(&mut cpu, &mut bus, 0x8F06).unwrap();
    assert_eq!(cpu.register(0xF), 0);
    run(&mut cpu, &mut bus, 0x6FC0).unwrap();
    run(&mut cpu, &mut bus, 0x8F0E).unwrap();
    assert_eq!(cpu.register(0xF), 0);
}

#[test]
fn call_then_return_comes_back() {
    let (mut cpu, mut bus) = machine();
    poke(&mut bus, 0x200, 0x2ABC);
    poke(&mut bus, 0xABC, 0x00EE);
    assert_eq!(cpu.tick(&mut bus), Ok(()));
    assert_eq!(cpu.program_counter(), 0xABC);
    assert_eq!(cpu.call_depth(), 1);
    assert_eq!(cpu.tick(&mut bus), Ok(()));
    assert_eq!(cpu.program_counter(), 0x202);
    assert_eq!(cpu.call_depth(), 0);
}

#[test]
fn return_on_empty_stack_faults() {
    let (mut cpu, mut bus) = machine();
    poke(&mut bus, 0x200, 0x00EE);
    assert_eq!(cpu.tick(&mut bus), Err(Fault::StackUnderflow));
    assert_eq!(cpu.program_counter(), 0x200);
    assert_eq!(cpu.call_00ee(), Err(Fault::StackUnderflow));
}

#[test]
fn skip_if_equal_immediate() {
    let (mut cpu, mut bus) = machine();
    poke(&mut bus, 0x200, 0x6042);
    poke(&mut bus, 0x202, 0x3042);
    poke(&mut bus, 0x206, 0x3041);
    cpu.tick(&mut bus).unwrap();
    assert_eq!(cpu.program_counter(), 0x202);
    cpu.tick(&mut bus).unwrap();
    assert_eq!(cpu.program_counter(), 0x206);
    cpu.tick(&mut bus).unwrap();
    assert_eq!(cpu.program_counter(), 0x208);
}

#[test]
fn other_skips() {
    let (mut cpu, mut bus) = machine();
    run(&mut cpu, &mut bus, 0x6042).unwrap();
    run(&mut cpu, &mut bus, 0x6142).unwrap();
    run(&mut cpu, &mut bus, 0x6207).unwrap();
    assert_eq!(run(&mut cpu, &mut bus, 0x4042), Ok(ProgramCounterKind::Next));
    assert_eq!(run(&mut cpu, &mut bus, 0x4041), Ok(ProgramCounterKind::Skip));
    assert_eq!(run(&mut cpu, &mut bus, 0x5010), Ok(ProgramCounterKind::Skip));
    assert_eq!(run(&mut cpu, &mut bus, 0x5020), Ok(ProgramCounterKind::Next));
    assert_eq!(run(&mut cpu, &mut bus, 0x9010), Ok(ProgramCounterKind::Next));
    assert_eq!(run(&mut cpu, &mut bus, 0x9020), Ok(ProgramCounterKind::Skip));
}

#[test]
fn jumps() {
    let (mut cpu, mut bus) = machine();
    assert_eq!(run(&mut cpu, &mut bus, 0x1234), Ok(ProgramCounterKind::Jump(0x234)));
    run(&mut cpu, &mut bus, 0x60FF).unwrap();
    assert_eq!(run(&mut cpu, &mut bus, 0xBFFF), Ok(ProgramCounterKind::Jump(0x10FE)));
    poke(&mut bus, 0x200, 0x1300);
    cpu.tick(&mut bus).unwrap();
    assert_eq!(cpu.program_counter(), 0x300);
}

#[test]
fn wait_for_key_stalls_until_key_matches() {
    let (mut cpu, mut bus) = machine();
    poke(&mut bus, 0x200, 0x6307);
    poke(&mut bus, 0x202, 0xF30A);
    cpu.tick(&mut bus).unwrap();
    for _ in 0..5 {
        assert_eq!(cpu.tick(&mut bus), Ok(()));
        assert_eq!(cpu.program_counter(), 0x202);
    }
    bus.press_key(Some(2));
    for _ in 0..3 {
        cpu.tick(&mut bus).unwrap();
        assert_eq!(cpu.program_counter(), 0x202);
    }
    bus.press_key(Some(7));
    cpu.tick(&mut bus).unwrap();
    assert_eq!(cpu.program_counter(), 0x204);
}

#[test]
fn key_skips() {
    let (mut cpu, mut bus) = machine();
    run(&mut cpu, &mut bus, 0x6409).unwrap();
    assert_eq!(run(&mut cpu, &mut bus, 0xE49E), Ok(ProgramCounterKind::Next));
    assert_eq!(run(&mut cpu, &mut bus, 0xE4A1), Ok(ProgramCounterKind::Skip));
    bus.press_key(Some(9));
    assert_eq!(run(&mut cpu, &mut bus, 0xE49E), Ok(ProgramCounterKind::Skip));
    assert_eq!(run(&mut cpu, &mut bus, 0xE4A1), Ok(ProgramCounterKind::Next));
    bus.press_key(Some(1));
    assert_eq!(run(&mut cpu, &mut bus, 0xE49E), Ok(ProgramCounterKind::Next));
    assert_eq!(run(&mut cpu, &mut bus, 0xE4A1), Ok(ProgramCounterKind::Skip));
}

#[test]
fn decimal_digits_go_to_memory() {
    let (mut cpu, mut bus) = machine();
    run(&mut cpu, &mut bus, 0x65EA).unwrap();
    run(&mut cpu, &mut bus, 0xA300).unwrap();
    assert_eq!(run(&mut cpu, &mut bus, 0xF533), Ok(ProgramCounterKind::Next));
    assert_eq!(bus.memread(0x300), 2);
    assert_eq!(bus.memread(0x301), 3);
    assert_eq!(bus.memread(0x302), 4);
    assert_eq!(bus.memread(0x303), 0);
    run(&mut cpu, &mut bus, 0x6507).unwrap();
    run(&mut cpu, &mut bus, 0xF533).unwrap();
    assert_eq!((bus.memread(0x300), bus.memread(0x301), bus.memread(0x302)), (0, 0, 7));
}

#[test]
fn decimal_digits_past_memory_fault() {
    let (mut cpu, mut bus) = machine();
    run(&mut cpu, &mut bus, 0x6063).unwrap();
    run(&mut cpu, &mut bus, 0xAFFE).unwrap();
    assert_eq!(run(&mut cpu, &mut bus, 0xF033), Err(Fault::AddressOutOfRange));
    assert_eq!(bus.memread(0xFFE), 0);
    assert_eq!(bus.memread(0xFFF), 0);
    run(&mut cpu, &mut bus, 0xAFFD).unwrap();
    assert_eq!(run(&mut cpu, &mut bus, 0xF033), Ok(ProgramCounterKind::Next));
    assert_eq!(bus.memread(0xFFF), 9);
}

#[test]
fn store_and_load_registers() {
    let (mut cpu, mut bus) = machine();
    run(&mut cpu, &mut bus, 0x6011).unwrap();
    run(&mut cpu, &mut bus, 0x6122).unwrap();
    run(&mut cpu, &mut bus, 0x6233).unwrap();
    run(&mut cpu, &mut bus, 0x6344).unwrap();
    run(&mut cpu, &mut bus, 0xA400).unwrap();
    assert_eq!(run(&mut cpu, &mut bus, 0xF255), Ok(ProgramCounterKind::Next));
    assert_eq!(bus.memread(0x400), 0x11);
    assert_eq!(bus.memread(0x401), 0x22);
    assert_eq!(bus.memread(0x402), 0x33);
    assert_eq!(bus.memread(0x403), 0);
    assert_eq!(cpu.index(), 0x400);
    run(&mut cpu, &mut bus, 0xA401).unwrap();
    assert_eq!(run(&mut cpu, &mut bus, 0xF165), Ok(ProgramCounterKind::Next));
    assert_eq!(cpu.register(0), 0x22);
    assert_eq!(cpu.register(1), 0x33);
    assert_eq!(cpu.register(2), 0x33);
    assert_eq!(cpu.register(3), 0x44);
    assert_eq!(cpu.index(), 0x401);
}

#[test]
fn store_and_load_past_memory_fault() {
    let (mut cpu, mut bus) = machine();
    run(&mut cpu, &mut bus, 0x6011).unwrap();
    run(&mut cpu, &mut bus, 0xAFFF).unwrap();
    assert_eq!(run(&mut cpu, &mut bus, 0xF155), Err(Fault::AddressOutOfRange));
    assert_eq!(bus.memread(0xFFF), 0);
    assert_eq!(run(&mut cpu, &mut bus, 0xF165), Err(Fault::AddressOutOfRange));
    assert_eq!(cpu.register(0), 0x11);
    assert_eq!(run(&mut cpu, &mut bus, 0xF055), Ok(ProgramCounterKind::Next));
    assert_eq!(bus.memread(0xFFF), 0x11);
}

#[test]
fn index_ops() {
    let (mut cpu, mut bus) = machine();
    run(&mut cpu, &mut bus, 0xAFFF).unwrap();
    assert_eq!(cpu.index(), 0xFFF);
    run(&mut cpu, &mut bus, 0x6010).unwrap();
    run(&mut cpu, &mut bus, 0xF01E).unwrap();
    assert_eq!(cpu.index(), 0x100F);
    run(&mut cpu, &mut bus, 0x610A).unwrap();
    run(&mut cpu, &mut bus, 0xF129).unwrap();
    assert_eq!(cpu.index(), 50);
    run(&mut cpu, &mut bus, 0x61FF).unwrap();
    run(&mut cpu, &mut bus, 0xF129).unwrap();
    assert_eq!(cpu.index(), 1275);
}

#[test]
fn index_add_wraps_at_sixteen_bits() {
    let (mut cpu, mut bus) = machine();
    run(&mut cpu, &mut bus, 0x60FF).unwrap();
    run(&mut cpu, &mut bus, 0xAFFF).unwrap();
    for _ in 0..241 {
        run(&mut cpu, &mut bus, 0xF01E).unwrap();
    }
    assert_eq!(cpu.index(), ((0xFFFu32 + 241 * 255) % 65536) as u16);
    assert_eq!(cpu.index(), 14);
}

#[test]
fn timers_count_down_and_sound_follows() {
    let (mut cpu, mut bus) = machine();
    poke(&mut bus, 0x200, 0x6002);
    poke(&mut bus, 0x202, 0xF015);
    poke(&mut bus, 0x204, 0xF018);
    poke(&mut bus, 0x206, 0xF107);
    cpu.tick(&mut bus).unwrap();
    cpu.tick(&mut bus).unwrap();
    assert_eq!(cpu.delay_timer(), 2);
    assert!(!bus.is_sound_on());
    cpu.tick(&mut bus).unwrap();
    assert_eq!(cpu.delay_timer(), 1);
    assert_eq!(cpu.sound_timer(), 2);
    assert!(!bus.is_sound_on());
    cpu.tick(&mut bus).unwrap();
    assert_eq!(cpu.register(1), 0);
    assert_eq!(cpu.delay_timer(), 0);
    assert_eq!(cpu.sound_timer(), 1);
    assert!(bus.is_sound_on());
    cpu.tick(&mut bus).unwrap();
    assert_eq!(cpu.sound_timer(), 0);
    assert!(bus.is_sound_on());
    cpu.tick(&mut bus).unwrap();
    assert_eq!(cpu.sound_timer(), 0);
    assert_eq!(cpu.delay_timer(), 0);
    assert!(!bus.is_sound_on());
}

#[test]
fn random_byte_is_masked() {
    let (mut cpu, mut bus) = machine();
    poke(&mut bus, 0x200, 0xC30F);
    assert!(cpu.wants_random(&bus));
    assert_eq!(cpu.tick_with(&mut bus, Some(0xA7)), Ok(()));
    assert_eq!(cpu.register(3), 0x07);
    assert_eq!(cpu.program_counter(), 0x202);
    assert!(!cpu.wants_random(&bus));
    assert_eq!(cpu.call_cxnn(4, 0xF0, Some(0xA7)), Ok(ProgramCounterKind::Next));
    assert_eq!(cpu.register(4), 0xA0);
}

#[test]
fn random_byte_missing_faults() {
    let (mut cpu, mut bus) = machine();
    poke(&mut bus, 0x200, 0x63AA);
    poke(&mut bus, 0x202, 0xC3FF);
    cpu.tick(&mut bus).unwrap();
    assert_eq!(cpu.tick_with(&mut bus, None), Err(Fault::RandomUnavailable));
    assert_eq!(cpu.register(3), 0xAA);
    assert_eq!(cpu.program_counter(), 0x202);
}

#[test]
fn fetch_past_memory_faults() {
    let (mut cpu, mut bus) = machine();
    poke(&mut bus, 0x200, 0x1FFF);
    cpu.tick(&mut bus).unwrap();
    assert_eq!(cpu.program_counter(), 0xFFF);
    assert_eq!(cpu.tick(&mut bus), Err(Fault::AddressOutOfRange));
    assert_eq!(cpu.program_counter(), 0xFFF);
    assert!(!cpu.wants_random(&bus));
}

#[test]
fn last_instruction_in_memory_runs() {
    let (mut cpu, mut bus) = machine();
    poke(&mut bus, 0x200, 0x1FFE);
    poke(&mut bus, 0xFFE, 0x6155);
    cpu.tick(&mut bus).unwrap();
    assert_eq!(cpu.tick(&mut bus), Ok(()));
    assert_eq!(cpu.register(1), 0x55);
    assert_eq!(cpu.program_counter(), 0x1000);
}

#[test]
fn unknown_opcode_only_advances() {
    let (mut cpu, mut bus) = machine();
    for opcode in [0x0000u16, 0x0123, 0x5011, 0x8008, 0x9001, 0xE000, 0xF0FF] {
        assert_eq!(run(&mut cpu, &mut bus, opcode), Ok(ProgramCounterKind::Next));
    }
    poke(&mut bus, 0x200, 0xFFFF);
    cpu.tick(&mut bus).unwrap();
    assert_eq!(cpu.program_counter(), 0x202);
    for x in 0..16 {
        assert_eq!(cpu.register(x), 0);
    }
}

#[test]
fn draw_glyph_and_collide() {
    let (mut cpu, mut bus) = machine();
    run(&mut cpu, &mut bus, 0x6002).unwrap();
    run(&mut cpu, &mut bus, 0xF029).unwrap();
    assert_eq!(cpu.index(), 10);
    run(&mut cpu, &mut bus, 0x613C).unwrap();
    run(&mut cpu, &mut bus, 0x621E).unwrap();
    assert_eq!(run(&mut cpu, &mut bus, 0xD125), Ok(ProgramCounterKind::Next));
    assert_eq!(cpu.register(0xF), 0);
    let vram = bus.get_vram();
    let glyph_two = [0xF0u8, 0x10, 0xF0, 0x80, 0xF0];
    for (r, byte) in glyph_two.iter().enumerate() {
        for c in 0..8usize {
            let bit = (byte >> (7 - c)) & 1;
            let addr = ((30 + r) % 32) * 64 + (60 + c) % 64;
            assert_eq!(vram[addr], bit);
        }
    }
    assert_eq!(vram.iter().filter(|px| **px == 1).count(), 14);
    assert_eq!(run(&mut cpu, &mut bus, 0xD125), Ok(ProgramCounterKind::Next));
    assert_eq!(cpu.register(0xF), 1);
    assert!(bus.get_vram().iter().all(|px| *px == 0));
}

#[test]
fn draw_past_memory_faults() {
    let (mut cpu, mut bus) = machine();
    run(&mut cpu, &mut bus, 0xAFFF).unwrap();
    run(&mut cpu, &mut bus, 0x6F07).unwrap();
    assert_eq!(run(&mut cpu, &mut bus, 0xD002), Err(Fault::AddressOutOfRange));
    assert_eq!(cpu.register(0xF), 7);
    assert_eq!(run(&mut cpu, &mut bus, 0xD000), Ok(ProgramCounterKind::Next));
    assert_eq!(cpu.register(0xF), 0);
}

#[test]
fn clear_screen_instruction() {
    let (mut cpu, mut bus) = machine();
    run(&mut cpu, &mut bus, 0xD005).unwrap();
    assert!(bus.get_vram().iter().any(|px| *px == 1));
    assert_eq!(run(&mut cpu, &mut bus, 0x00E0), Ok(ProgramCounterKind::Next));
    assert!(bus.get_vram().iter().all(|px| *px == 0));
}

#[test]
fn cpu_reset_clears_everything() {
    let (mut cpu, mut bus) = machine();
    run(&mut cpu, &mut bus, 0x6A55).unwrap();
    run(&mut cpu, &mut bus, 0xFA15).unwrap();
    run(&mut cpu, &mut bus, 0xFA18).unwrap();
    run(&mut cpu, &mut bus, 0xA123).unwrap();
    run(&mut cpu, &mut bus, 0x2400).unwrap();
    poke(&mut bus, 0x200, 0x1300);
    cpu.tick(&mut bus).unwrap();
    cpu.reset();
    assert_eq!(cpu.program_counter(), 0x200);
    assert_eq!(cpu.index(), 0);
    assert_eq!(cpu.delay_timer(), 0);
    assert_eq!(cpu.sound_timer(), 0);
    assert_eq!(cpu.call_depth(), 0);
    for x in 0..16 {
        assert_eq!(cpu.register(x), 0);
    }
}

#[test]
fn handlers_in_isolation() {
    let (mut cpu, mut bus) = machine();
    assert_eq!(cpu.call_6xnn(1, 9), ProgramCounterKind::Next);
    assert_eq!(cpu.call_3xnn(1, 9), ProgramCounterKind::Skip);
    assert_eq!(cpu.call_4xnn(1, 9), ProgramCounterKind::Next);
    assert_eq!(cpu.call_1nnn(0x345), ProgramCounterKind::Jump(0x345));
    assert_eq!(cpu.call_2nnn(0x345), ProgramCounterKind::Jump(0x345));
    assert_eq!(cpu.call_00ee(), Ok(ProgramCounterKind::Jump(0x202)));
    assert_eq!(cpu.call_fx0a(&bus, 1), ProgramCounterKind::Jump(0x200));
    bus.press_key(Some(9));
    assert_eq!(cpu.call_fx0a(&bus, 1), ProgramCounterKind::Next);
    assert_eq!(cpu.call_ex9e(&bus, 1), ProgramCounterKind::Skip);
    assert_eq!(cpu.call_exa1(&bus, 1), ProgramCounterKind::Next);
    assert_eq!(cpu.call_7xnn(1, 0xFF), ProgramCounterKind::Next);
    assert_eq!(cpu.register(1), 8);
    assert_eq!(cpu.call_bnnn(0x100), ProgramCounterKind::Jump(0x100));
    assert_eq!(cpu.call_00e0(&mut bus), ProgramCounterKind::Next);
}
