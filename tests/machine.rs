use chip8::chip8::Chip8;
use chip8::cpu::Step;
use chip8::error::Fault;
use chip8::opcodes::OpCode;

#[test]
fn load_and_run_to_halt() {
    let mut c8 = Chip8::new(&[0x60, 0x05, 0x0A, 0x00]).unwrap();
    assert_eq!(c8.execute_cycle(), Ok(Step::Continue));
    assert!(!c8.should_exit());
    assert_eq!(c8.execute_cycle(), Ok(Step::Halted));
    assert_eq!(c8.cpu.reg_vx[0], 0x05);
    assert!(c8.should_exit());
    assert_eq!(c8.execute_cycle(), Ok(Step::Halted));
    assert_eq!(c8.cpu.instruction_count(), 2);
}

#[test]
fn program_too_large() {
    assert!(Chip8::new(&vec![0u8; 4096 - 0x200]).is_ok());
    assert_eq!(Chip8::new(&vec![0u8; 4096 - 0x200 + 1]).err(), Some(Fault::ProgramTooLarge));
}

#[test]
fn draw_font_glyph_through_machine() {
    // I = glyph of V0 (0), draw 5 rows at (V1, V1) = (0, 0)
    let mut c8 = Chip8::new(&[0xF0, 0x29, 0xD1, 0x15, 0x0A]).unwrap();
    assert!(c8.display.take_changed());
    c8.execute_cycle().unwrap();
    c8.execute_cycle().unwrap();
    assert!(c8.display.take_changed());
    assert_eq!(c8.cpu.reg_vx[0xF], 0);
    // the glyph 0 is 0xF0 0x90 0x90 0x90 0xF0
    for x in 0..8 {
        assert_eq!(c8.display.pixel(x, 0), x < 4);
        assert_eq!(c8.display.pixel(x, 1), x == 0 || x == 3);
    }
    assert_eq!(c8.execute_cycle(), Ok(Step::Halted));
}

#[test]
fn sound_timer_runs_in_cycles() {
    let mut c8 = Chip8::new(&[0x60, 0x30, 0xF0, 0x18, 0x0A]).unwrap();
    assert!(!c8.sound_active());
    c8.execute_cycle().unwrap();
    c8.execute_cycle().unwrap();
    assert!(c8.sound_active());
}

#[test]
fn pause_fills_the_instruction_period() {
    assert_eq!(Chip8::pause_after(0), 2_000_000);
    assert_eq!(Chip8::pause_after(500_000), 1_500_000);
    assert_eq!(Chip8::pause_after(2_000_000), 0);
    assert_eq!(Chip8::pause_after(u64::MAX), 0);
}

#[test]
fn disassembly_listing() {
    let listing = Chip8::disassemble(&[0x60, 0x05, 0x0A, 0xFF, 0x12, 0x00, 0x0A]);
    assert_eq!(
        listing,
        vec![
            (0x200, 0x6005, OpCode::SetConst { x: 0, nn: 5 }),
            (0x202, 0x0A00, OpCode::Eof),
            (0x204, 0x1200, OpCode::JpConst { nnn: 0x200 }),
            (0x206, 0x0A00, OpCode::Eof),
        ]
    );
}

#[test]
fn disassembly_drops_lone_trailing_byte() {
    assert_eq!(Chip8::disassemble(&[0x00, 0xE0, 0x12]), vec![(0x200, 0x00E0, OpCode::DrawClr)]);
    assert!(Chip8::disassemble(&[]).is_empty());
}

#[test]
fn loop_stops_on_budget_or_halt() {
    let mut c8 = Chip8::new(&[0x60, 0x01, 0x60, 0x02, 0x0A, 0x00]).unwrap();
    assert!(c8.may_run(None));
    assert!(c8.may_run(Some(1)));
    assert!(!c8.may_run(Some(0)));
    c8.execute_cycle().unwrap();
    assert!(!c8.may_run(Some(1)));
    assert!(c8.may_run(Some(2)));
    c8.execute_cycle().unwrap();
    c8.execute_cycle().unwrap();
    assert!(!c8.may_run(None));
}
