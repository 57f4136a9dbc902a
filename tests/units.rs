use chip8::chip8::{Chip8, ExecError, LoadError, HEX_SPRITE_ZERO_ADDR};
use chip8::debugiface::{ends_pause, EmulatorCommand, EmulatorResponse};
use chip8::display::{PanelData, Pixel, PixelGrid, Point32, Pxcolor, Rectangle, Sprite};
use chip8::keyboard::{inverse_map, is_key_down, pressed_key, KeyError};
use chip8::lexer::{LexError, Lexer, Token};
use chip8::opcode::{DecodeError, Opcode};
use chip8::panels::{RamPanel, StackPanel};
use chip8::register::RegisterArray;
use chip8::timers::Timers;

fn lit(grid: &PixelGrid) -> Vec<bool> {
    grid.pixels.iter().map(|p| p.value == Pxcolor::Black).collect()
}

#[test]
fn decode_examples() {
    assert_eq!(Opcode::new(0x0000), Ok(Opcode::BRK));
    assert_eq!(Opcode::new(0x00E0), Ok(Opcode::CLS));
    assert_eq!(Opcode::new(0x00EE), Ok(Opcode::RET));
    assert_eq!(Opcode::new(0x0123), Ok(Opcode::SYS(0x123)));
    assert_eq!(Opcode::new(0x1ABC), Ok(Opcode::JP(0xABC)));
    assert_eq!(Opcode::new(0x2ABC), Ok(Opcode::CALL(0xABC)));
    assert_eq!(Opcode::new(0x3A7F), Ok(Opcode::SEVxByte(0xA, 0x7F)));
    assert_eq!(Opcode::new(0x5AB0), Ok(Opcode::SEVxVy(0xA, 0xB)));
    assert_eq!(Opcode::new(0x8AB4), Ok(Opcode::ADDVxVy(0xA, 0xB)));
    assert_eq!(Opcode::new(0x8AB6), Ok(Opcode::SHRVx(0xA)));
    assert_eq!(Opcode::new(0x8ABE), Ok(Opcode::SHLVx(0xA)));
    assert_eq!(Opcode::new(0xD12F), Ok(Opcode::DRWVxVyNibble(1, 2, 0xF)));
    assert_eq!(Opcode::new(0xE19E), Ok(Opcode::SKPVx(1)));
    assert_eq!(Opcode::new(0xE1A1), Ok(Opcode::SKNPVx(1)));
    assert_eq!(Opcode::new(0xF333), Ok(Opcode::LDBVx(3)));
    assert_eq!(Opcode::new(0xF565), Ok(Opcode::LDVxI(5)));
}

#[test]
fn decode_rejects_bad_sub_patterns() {
    assert_eq!(Opcode::new(0x8AB8), Err(DecodeError::Invalid(0x8AB8)));
    assert_eq!(Opcode::new(0xE100), Err(DecodeError::Invalid(0xE100)));
    assert_eq!(Opcode::new(0xF1FF), Err(DecodeError::Invalid(0xF1FF)));
}

#[test]
fn reads_keyboard_only_for_key_instructions() {
    assert!(Opcode::SKPVx(0).reads_keyboard());
    assert!(Opcode::SKNPVx(0).reads_keyboard());
    assert!(Opcode::LDVxK(0).reads_keyboard());
    assert!(!Opcode::CLS.reads_keyboard());
}

#[test]
fn register_array_get_set() {
    let mut r = RegisterArray::new();
    assert_eq!(r.len(), 16);
    r.set(11, 0x42);
    assert_eq!(r.get(11), 0x42);
    assert_eq!(r.vb, 0x42);
    assert_eq!(r.get(10), 0);
}

#[test]
fn keypad_mapping() {
    assert_eq!(chip8::keyboard::map(0x0), Ok("X".to_string()));
    assert_eq!(chip8::keyboard::map(0xC), Ok("4".to_string()));
    assert_eq!(chip8::keyboard::map(0xF), Ok("V".to_string()));
    assert_eq!(chip8::keyboard::map(0x10), Err(KeyError::UnmappedByte(0x10)));
    assert_eq!(inverse_map("x".to_string()), Ok(0x0));
    assert_eq!(inverse_map("R".to_string()), Ok(0xD));
    assert_eq!(inverse_map("4".to_string()), Ok(0xC));
    assert_eq!(inverse_map("p".to_string()), Err(KeyError::UnmappedKey));
    assert_eq!(inverse_map("ab".to_string()), Err(KeyError::UnmappedKey));
    for b in 0..16u8 {
        assert_eq!(inverse_map(chip8::keyboard::map(b).unwrap()), Ok(b));
    }
}

#[test]
fn keypad_injected_input() {
    assert!(is_key_down("asd", 0x7));
    assert!(is_key_down("ASD", 0x9));
    assert!(!is_key_down("qwe", 0x7));
    assert!(!is_key_down("asd", 0x20));
    assert!(!is_key_down("", 0x0));
    assert_eq!(pressed_key("qws"), Ok(0x8));
    assert_eq!(pressed_key(""), Err(KeyError::NoInput));
    assert_eq!(pressed_key("s!"), Err(KeyError::UnmappedKey));
}

#[test]
fn timers_count_down_at_sixty_hertz() {
    let mut t = Timers::new();
    t.set_delay(3);
    t.set_sound(1);
    t.tick(1_000_000_000 / 60 + 1);
    assert_eq!((t.get_delay(), t.get_sound()), (2, 0));
    t.tick(1_000_000_000);
    assert_eq!((t.get_delay(), t.get_sound()), (0, 0));
}

#[test]
fn timers_accumulate_short_intervals() {
    let mut t = Timers::new();
    t.set_delay(10);
    for _ in 0..10 {
        t.tick(1_000_000_000 / 600 + 1);
    }
    assert_eq!(t.get_delay(), 9);
}

#[test]
fn load_too_large_is_refused() {
    let mut emu = Chip8::new();
    assert_eq!(emu.load(&vec![0u8; 3584]), Ok(()));
    assert_eq!(emu.load(&vec![0u8; 3585]), Err(LoadError::TooLarge(3585)));
}

#[test]
fn load_places_program_at_0x200() {
    let mut emu = Chip8::new();
    emu.load(&vec![0xAB, 0xCD]).unwrap();
    assert_eq!(emu.read_word(0x200), Ok(0xABCD));
    assert_eq!(emu.read_byte(0x1FF), Ok(0));
    assert_eq!(emu.read_byte(HEX_SPRITE_ZERO_ADDR), Ok(0xF0));
    assert_eq!(emu.read_byte(0x1000), Err(ExecError::AddressOutOfRange));
    assert_eq!(emu.read_word(0xFFF), Err(ExecError::AddressOutOfRange));
    assert_eq!(emu.write_byte(0x300, 7), Ok(()));
    assert_eq!(emu.read_byte(0x300), Ok(7));
    assert_eq!(Chip8::sprite_addr_for_digit(2), HEX_SPRITE_ZERO_ADDR + 10);
}

#[test]
fn stack_overflow_and_underflow() {
    let mut emu = Chip8::new();
    assert_eq!(emu.execute_ret(), Err(ExecError::StackUnderflow));
    for _ in 0..16 {
        assert_eq!(emu.execute_call(0x300), Ok(0));
    }
    assert_eq!(emu.sp, 16);
    assert_eq!(emu.execute_call(0x300), Err(ExecError::StackOverflow));
    assert_eq!(emu.sp, 16);
}

#[test]
fn bad_register_index_is_an_error() {
    let mut emu = Chip8::new();
    assert_eq!(emu.execute_ldvxbyte(16, 1), Err(ExecError::NoSuchRegister(16)));
    assert_eq!(emu.execute_addvxvy(3, 20), Err(ExecError::NoSuchRegister(20)));
    assert_eq!(emu.get_register(16), Err(ExecError::NoSuchRegister(16)));
    assert_eq!(emu.handle_command(EmulatorCommand::PeekReg(16)), Err(ExecError::NoSuchRegister(16)));
}

#[test]
fn add_with_vf_as_destination_keeps_the_sum() {
    let mut emu = Chip8::new();
    emu.execute_ldvxbyte(15, 0xFF).unwrap();
    emu.execute_ldvxbyte(1, 0x02).unwrap();
    assert_eq!(emu.execute_addvxvy(15, 1), Ok(2));
    assert_eq!(emu.registers.vf, 0x01);
    emu.execute_ldvxbyte(15, 0x10).unwrap();
    assert_eq!(emu.execute_addvxvy(15, 1), Ok(2));
    assert_eq!(emu.registers.vf, 0x12);
}

#[test]
fn bcd_digits() {
    let mut emu = Chip8::new();
    emu.execute_ldvxbyte(4, 254).unwrap();
    emu.execute_ldiaddr(0x300).unwrap();
    assert_eq!(emu.execute_ldbvx(4), Ok(2));
    assert_eq!(emu.read_byte(0x300), Ok(2));
    assert_eq!(emu.read_byte(0x301), Ok(5));
    assert_eq!(emu.read_byte(0x302), Ok(4));
    emu.execute_ldiaddr(0xFFE).unwrap();
    assert_eq!(emu.execute_ldbvx(4), Err(ExecError::AddressOutOfRange));
}

#[test]
fn store_then_load_restores_registers() {
    let mut emu = Chip8::new();
    for i in 0..4u8 {
        emu.execute_ldvxbyte(i, 0x10 + i).unwrap();
    }
    emu.execute_ldvxbyte(4, 0x99).unwrap();
    emu.execute_ldiaddr(0x400).unwrap();
    assert_eq!(emu.execute_ldivx(3), Ok(2));
    assert_eq!(emu.read_byte(0x403), Ok(0x13));
    assert_eq!(emu.read_byte(0x404), Ok(0));
    for i in 0..4u8 {
        emu.execute_ldvxbyte(i, 0).unwrap();
    }
    assert_eq!(emu.execute_ldvxi(3), Ok(2));
    for i in 0..4u8 {
        assert_eq!(emu.get_register(i), Ok(0x10 + i));
    }
    assert_eq!(emu.get_register(4), Ok(0x99));
}

#[test]
fn jumps_out_of_memory_fail() {
    let mut emu = Chip8::new();
    emu.execute_ldvxbyte(0, 0xFF).unwrap();
    assert_eq!(emu.execute_jpv0addr(0xFFF), Err(ExecError::AddressOutOfRange));
    assert_eq!(emu.execute_jp(0x1000), Err(ExecError::AddressOutOfRange));
    emu.execute_ldiaddr(0xFFF).unwrap();
    assert_eq!(emu.execute_addivx(0), Err(ExecError::AddressOutOfRange));
    emu.pc = 0xFFE;
    assert_eq!(emu.advance(2), Err(ExecError::AddressOutOfRange));
    assert_eq!(emu.pc, 0xFFE);
}

#[test]
fn random_byte_is_masked() {
    let mut emu = Chip8::new();
    assert_eq!(emu.execute_rndvxbyte_with(2, 0x0F, 0xAB), Ok(2));
    assert_eq!(emu.get_register(2), Ok(0x0B));
    for _ in 0..20 {
        emu.execute_rndvxbyte(3, 0x0F).unwrap();
        assert!(emu.get_register(3).unwrap() <= 0x0F);
    }
}

#[test]
fn sprite_draw_wraps_and_reports_collision() {
    let mut grid = PixelGrid::new(4, 8);
    let s = Sprite::new(&vec![0b1000_0001], 7, 3);
    assert!(!grid.add_sprite(&s));
    let on = lit(&grid);
    assert!(on[3 * 8 + 7]);
    assert!(on[3 * 8 + 6]);
    assert_eq!(on.iter().filter(|b| **b).count(), 2);
    assert!(grid.add_sprite(&s));
    assert_eq!(lit(&grid).iter().filter(|b| **b).count(), 0);
    grid.add_sprite(&s);
    grid.clear();
    assert_eq!(lit(&grid).iter().filter(|b| **b).count(), 0);
}

#[test]
fn pixel_layout_and_xor() {
    let p = Pixel::new(3, 2);
    assert_eq!((p.x, p.y, p.value), (12, 8, Pxcolor::White));
    assert_eq!(Pixel::xor(Pxcolor::Black, Pxcolor::Black), Pxcolor::White);
    assert_eq!(Pixel::xor(Pxcolor::Black, Pxcolor::White), Pxcolor::Black);
    assert_eq!(Pixel::xor(Pxcolor::White, Pxcolor::White), Pxcolor::White);
    let grid = PixelGrid::new(2, 3);
    assert_eq!(grid.pixels[1 * 3 + 2].x, 8);
    assert_eq!(grid.pixels[1 * 3 + 2].y, 4);
}

#[test]
fn drw_out_of_memory_fails() {
    let mut emu = Chip8::new();
    emu.execute_ldiaddr(0xFFC).unwrap();
    assert_eq!(emu.execute_drwvxvynibble(0, 0, 5), Err(ExecError::AddressOutOfRange));
    assert_eq!(emu.execute_drwvxvynibble(0, 0, 4), Ok(2));
}

#[test]
fn debugger_peeks() {
    let mut emu = Chip8::new();
    emu.load(&vec![1, 2, 3]).unwrap();
    assert_eq!(
        emu.handle_command(EmulatorCommand::PeekAddr(0x200, 3)),
        Ok(Some(EmulatorResponse::MemorySlice(vec![1, 2, 3])))
    );
    assert_eq!(
        emu.handle_command(EmulatorCommand::PeekAddr(0xFFF, 2)),
        Err(ExecError::AddressOutOfRange)
    );
    assert_eq!(emu.handle_command(EmulatorCommand::ResumeExecution), Ok(None));
    assert_eq!(emu.handle_command(EmulatorCommand::SetClockRate(60)), Ok(None));
    assert_eq!(emu.cycle_period_ns(), 16_666_666);
    assert!(ends_pause(&EmulatorCommand::ResumeExecution));
    assert!(ends_pause(&EmulatorCommand::Exit));
    assert!(!ends_pause(&EmulatorCommand::PeekPC));
}

#[test]
fn geometry() {
    let r = Rectangle { topleft: Point32 { x: 2, y: 3 }, bottomright: Point32 { x: 10, y: 7 } };
    assert_eq!(r.width(), 8);
    assert_eq!(r.height(), 4);
    let d = PanelData::new(Point32 { x: 1, y: 1 }, 20, 30);
    assert_eq!((d.height_npixels, d.width_npixels), (20, 30));
}

#[test]
fn panel_caches() {
    let mut p = RamPanel::new(Point32 { x: 0, y: 0 }, 10, 10);
    let ram = vec![1u8, 2, 3];
    assert!(!p.args_already_cached(0x200, &ram));
    p.update_cache(0x200, &ram);
    assert!(p.args_already_cached(0x200, &ram));
    assert!(!p.args_already_cached(0x202, &ram));
    assert!(!p.args_already_cached(0x200, &vec![1u8, 9, 3]));
    p.tick();
    assert!(!p.needs_redraw(0x200, &ram));
    let mut s = StackPanel::new(Point32 { x: 0, y: 0 }, 10, 10);
    s.update_cache(1, &vec![0x204u16, 0]);
    assert!(s.args_already_cached(1, &vec![0x204u16, 0]));
    assert!(!s.args_already_cached(2, &vec![0x204u16, 0]));
    assert_eq!(s.get_state().width_npixels, 10);
}

#[test]
fn lexer_accepts_only_blank_sources() {
    assert!(Lexer::lex(&vec![String::new(), String::new()]).is_ok());
    match Lexer::lex(&vec![String::new(), "CLS".to_string()]) {
        Err(LexError::Unrecognized(c)) => assert_eq!(c, 'C'),
        Ok(_) => panic!("lexed an unknown token"),
    }
    assert_eq!(Token::from_opcode(Opcode::CLS), Token::Op(Opcode::CLS));
}
