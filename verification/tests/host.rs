use chip_8_lib::cpu::Cpu;
use chip_8_lib::disassembler::disassemble;
use chip_8_lib::frame::rgba_pixels;
use chip_8_lib::inspect::{memory_listing, register_listing, status_line};

#[test]
fn frame_has_four_channels_per_cell() {
    let mut cpu = Cpu::new();
    cpu.display[0] = 1;
    cpu.display[2047] = 1;
    let frame = rgba_pixels(cpu.get_display());
    assert_eq!(frame.len(), 8192);
    assert_eq!(&frame[0..4], &[240, 246, 240, 255]);
    assert_eq!(&frame[4..8], &[34, 35, 35, 255]);
    assert_eq!(&frame[8184..8188], &[34, 35, 35, 255]);
    assert_eq!(&frame[8188..8192], &[240, 246, 240, 255]);
}

#[test]
fn frame_of_a_blank_display_is_dark() {
    let cpu = Cpu::new();
    let frame = rgba_pixels(cpu.get_display());
    for pixel in frame.chunks(4) {
        assert_eq!(pixel, &[34, 35, 35, 255]);
    }
}

#[test]
fn listing_shows_twenty_five_instructions() {
    let mut cpu = Cpu::new();
    assert_eq!(cpu.load_program(&[0x12, 0x34, 0x00, 0xE0, 0x80, 0x08]), Ok(()));
    let listing = memory_listing(&cpu);
    let mut expected = String::new();
    expected.push_str("<li>0x200 - JP 0x234</li>");
    expected.push_str("<li>0x202 - CLS</li>");
    expected.push_str("<li>0x204 - ??? 8008</li>");
    let mut address = 0x206;
    while address < 0x232 {
        expected.push_str(&format!("<li>0x{:X} - </li>", address));
        address += 2;
    }
    assert_eq!(listing, expected);
    assert_eq!(listing.matches("<li>").count(), 25);
}

#[test]
fn listing_stops_at_the_end_of_memory() {
    let mut cpu = Cpu::new();
    cpu.memory[4090] = 0x60;
    cpu.memory[4091] = 0x07;
    cpu.memory[4094] = 0x00;
    cpu.memory[4095] = 0xEE;
    cpu.pc = 4090;
    assert_eq!(
        memory_listing(&cpu),
        "<li>0xFFA - LD V0 7</li><li>0xFFC - </li><li>0xFFE - RET</li>"
    );
    cpu.pc = 4095;
    assert_eq!(
        memory_listing(&cpu),
        format!("<li>0xFFF - {}</li>", disassemble(0xEEF0))
    );
    cpu.pc = 4096;
    assert_eq!(memory_listing(&cpu), "");
    cpu.pc = 0xFFFF;
    assert_eq!(memory_listing(&cpu), "");
    cpu.pc = 4046;
    assert_eq!(memory_listing(&cpu).matches("<li>").count(), 25);
    cpu.pc = 4047;
    assert_eq!(memory_listing(&cpu).matches("<li>").count(), 25);
    cpu.pc = 4048;
    assert_eq!(memory_listing(&cpu).matches("<li>").count(), 24);
}

#[test]
fn register_listing_shows_all_registers_in_decimal() {
    let mut cpu = Cpu::new();
    cpu.v[0] = 7;
    cpu.v[10] = 0xFF;
    cpu.i = 0x123;
    let mut expected = String::new();
    for k in 0..16 {
        expected.push_str(&format!("v{}: {}<br />", k, cpu.v[k]));
    }
    expected.push_str("I: 291");
    assert_eq!(register_listing(&cpu), expected);
    assert!(register_listing(&cpu).starts_with("v0: 7<br />v1: 0<br />"));
    assert!(register_listing(&cpu).contains("v10: 255<br />"));
}

#[test]
fn status_line_shows_program_counter_and_delay_timer() {
    let mut cpu = Cpu::new();
    assert_eq!(status_line(&cpu), "PC: 512 - 0x200 <br />DT: 0");
    cpu.pc = 0xABC;
    cpu.dt = 60;
    assert_eq!(status_line(&cpu), "PC: 2748 - 0xABC <br />DT: 60");
}

#[test]
fn shape_check_notices_a_broken_state() {
    let mut cpu = Cpu::new();
    assert!(cpu.is_well_formed());
    cpu.display[100] = 2;
    assert!(!cpu.is_well_formed());
    cpu.display[100] = 1;
    assert!(cpu.is_well_formed());
    cpu.sp = 17;
    assert!(!cpu.is_well_formed());
    cpu.sp = 16;
    assert!(cpu.is_well_formed());
}

#[test]
fn word_at_reads_high_byte_first() {
    let mut cpu = Cpu::new();
    cpu.memory[0x300] = 0xAB;
    cpu.memory[0x301] = 0xCD;
    assert_eq!(cpu.word_at(0x300), 0xABCD);
    assert_eq!(cpu.word_at(0x1300), 0xABCD);
    assert_eq!(cpu.word_at(0x000), 0xF090);
}
