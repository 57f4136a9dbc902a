use chip8::chip8::{
    Chip8, HEX_SPRITE_A_ADDR, HEX_SPRITE_B_ADDR, HEX_SPRITE_C_ADDR, HEX_SPRITE_D_ADDR,
    HEX_SPRITE_EIGHT_ADDR, HEX_SPRITE_E_ADDR, HEX_SPRITE_FIVE_ADDR, HEX_SPRITE_FOUR_ADDR,
    HEX_SPRITE_F_ADDR, HEX_SPRITE_NINE_ADDR, HEX_SPRITE_ONE_ADDR, HEX_SPRITE_SEVEN_ADDR,
    HEX_SPRITE_SIX_ADDR, HEX_SPRITE_THREE_ADDR, HEX_SPRITE_TWO_ADDR, HEX_SPRITE_ZERO_ADDR,
};
use chip8::debugiface::{EmulatorCommand, EmulatorResponse};
use chip8::opcode::Opcode;

const BRK: u16 = 0x0000;
const FILLER: u16 = 0x6E00;

/// A machine with the given instruction words loaded at 0x200.
fn boot(program: &[u16]) -> Chip8 {
    let mut bytes = Vec::new();
    for w in program {
        bytes.push((w >> 8) as u8);
        bytes.push((w & 0xFF) as u8);
    }
    let mut emu = Chip8::new();
    emu.load(&bytes).expect("program fits");
    emu
}

/// Runs until PC is at a BRK, as the debugger sees it, letting one cycle of
/// machine time pass for the timers after each instruction.
fn run_to_brk(emu: &mut Chip8, keys: &str) {
    for _ in 0..10_000 {
        let op = emu.next_opcode().expect("valid instruction");
        if op == Opcode::BRK {
            return;
        }
        let k = if op.reads_keyboard() { keys } else { "" };
        emu.step(op, k).expect("instruction succeeds");
        let period = emu.cycle_period_ns();
        emu.tick_timers(period);
    }
    panic!("never reached a BRK");
}

/// Leaves the BRK the machine is paused at and runs to the next one.
fn resume(emu: &mut Chip8, keys: &str) {
    emu.step(Opcode::BRK, "").expect("BRK steps");
    let period = emu.cycle_period_ns();
    emu.tick_timers(period);
    run_to_brk(emu, keys);
}

fn peek(emu: &mut Chip8, cmd: EmulatorCommand) -> EmulatorResponse {
    emu.handle_command(cmd).expect("peek succeeds").expect("peek answers")
}

fn assert_pc(emu: &mut Chip8, pc: u16) {
    match peek(emu, EmulatorCommand::PeekPC) {
        EmulatorResponse::PC(received) => assert_eq!(received, pc),
        response => panic!("Response {:?} makes no sense...", response),
    }
}

fn assert_register(emu: &mut Chip8, idx: u8, val: u8) {
    match peek(emu, EmulatorCommand::PeekReg(idx)) {
        EmulatorResponse::Reg(received) => assert_eq!(received, val),
        response => panic!("Response {:?} makes no sense...", response),
    }
}

fn assert_iregister(emu: &mut Chip8, val: u16) {
    match peek(emu, EmulatorCommand::PeekI) {
        EmulatorResponse::I(received) => assert_eq!(received, val),
        response => panic!("Response {:?} makes no sense...", response),
    }
}

fn assert_sp(emu: &mut Chip8, sp: u8) {
    match peek(emu, EmulatorCommand::PeekSP) {
        EmulatorResponse::SP(received) => assert_eq!(received, sp),
        response => panic!("Response {:?} makes no sense...", response),
    }
}

fn assert_stack_item(emu: &mut Chip8, idx: usize, item: u16) {
    match peek(emu, EmulatorCommand::PeekStack) {
        EmulatorResponse::Stack(stack) => assert_eq!(stack[idx], item),
        response => panic!("Response {:?} makes no sense...", response),
    }
}

fn assert_sound_timer(emu: &mut Chip8, val: u8) {
    match peek(emu, EmulatorCommand::PeekSoundTimer) {
        EmulatorResponse::SoundTimer(received) => assert_eq!(received, val),
        response => panic!("Response {:?} makes no sense...", response),
    }
}

fn exit(emu: &mut Chip8) {
    assert_eq!(emu.handle_command(EmulatorCommand::Exit), Ok(None));
    assert!(emu.debug_should_exit);
}

#[test]
fn test_sys() {
    let mut emu = boot(&[0x0123, BRK]);
    run_to_brk(&mut emu, "");
    assert_pc(&mut emu, 0x0202);
    exit(&mut emu);
}

#[test]
fn test_cls() {
    let mut emu = boot(&[0x6000, 0xF029, 0xD005, 0x00E0, BRK]);
    run_to_brk(&mut emu, "");
    assert!(emu.display.pixels.iter().all(|p| p.value == chip8::display::Pxcolor::White));
    exit(&mut emu);
}

#[test]
fn test_ret() {
    let mut emu = boot(&[0x2204, BRK, 0x00EE]);
    run_to_brk(&mut emu, "");
    assert_pc(&mut emu, 0x0202);
    exit(&mut emu);
}

#[test]
fn test_jp() {
    let mut emu = boot(&[0x120A, BRK, BRK, BRK, BRK, BRK]);
    run_to_brk(&mut emu, "");
    assert_pc(&mut emu, 0x020A);
    exit(&mut emu);
}

#[test]
fn test_call() {
    let mut emu = boot(&[0x0123, 0x220A, BRK, BRK, BRK, BRK]);
    run_to_brk(&mut emu, "");
    assert_pc(&mut emu, 0x020A);
    assert_stack_item(&mut emu, 0, 0x0204);
    assert_sp(&mut emu, 1);
    exit(&mut emu);
}

#[test]
fn test_sevxbyte() {
    let mut emu = boot(&[0x6323, 0x3323, BRK, 0x3324, 0x120C, BRK, BRK]);
    run_to_brk(&mut emu, "");
    assert_pc(&mut emu, 0x020C);
    assert_register(&mut emu, 3, 0x23);
    exit(&mut emu);
}

#[test]
fn test_snevxbyte() {
    let mut emu = boot(&[0x6325, 0x4324, BRK, 0x4325, 0x120C, BRK, BRK]);
    run_to_brk(&mut emu, "");
    assert_pc(&mut emu, 0x020C);
    assert_register(&mut emu, 3, 0x25);
    exit(&mut emu);
}

#[test]
fn test_sevxvy() {
    let mut emu = boot(&[0x6325, 0x6425, 0x5340, BRK, 0x120C, BRK, BRK]);
    run_to_brk(&mut emu, "");
    assert_pc(&mut emu, 0x020C);
    assert_register(&mut emu, 3, 0x25);
    assert_register(&mut emu, 4, 0x25);
    exit(&mut emu);
}

#[test]
fn test_ldvxybyte() {
    let values: [u8; 15] = [
        0x25, 0x0A, 0xCC, 0xFF, 0x10, 0x11, 0x22, 0x23, 0x85, 0x09, 0xAE, 0x0E, 0x44, 0x35, 0x15,
    ];
    let mut program = Vec::new();
    for (i, v) in values.iter().enumerate() {
        program.push(0x6000 | ((i as u16) << 8) | *v as u16);
    }
    program.push(BRK);
    let mut emu = boot(&program);
    run_to_brk(&mut emu, "");
    assert_pc(&mut emu, 0x021E);
    assert_register(&mut emu, 0, 0x25);
    assert_register(&mut emu, 1, 0x0A);
    assert_register(&mut emu, 2, 0xCC);
    assert_register(&mut emu, 3, 0xFF);
    assert_register(&mut emu, 4, 0x10);
    assert_register(&mut emu, 5, 0x11);
    assert_register(&mut emu, 6, 0x22);
    assert_register(&mut emu, 7, 0x23);
    assert_register(&mut emu, 8, 0x85);
    assert_register(&mut emu, 9, 0x09);
    assert_register(&mut emu, 10, 0xAE);
    assert_register(&mut emu, 11, 0x0E);
    assert_register(&mut emu, 12, 0x44);
    assert_register(&mut emu, 13, 0x35);
    assert_register(&mut emu, 14, 0x15);
    exit(&mut emu);
}

#[test]
fn test_addvxbyte() {
    let mut emu = boot(&[0x6AF0, 0x7A77, BRK]);
    run_to_brk(&mut emu, "");
    assert_register(&mut emu, 10, 0x67);
    assert_register(&mut emu, 15, 0x00);
    exit(&mut emu);
}

#[test]
fn test_ldvxvy() {
    let mut emu = boot(&[0x6D02, 0x8AD0, BRK]);
    run_to_brk(&mut emu, "");
    assert_register(&mut emu, 10, 0x02);
    assert_register(&mut emu, 13, 0x02);
    exit(&mut emu);
}

#[test]
fn test_orvxvy() {
    let mut emu = boot(&[0x6A0E, 0x6B03, 0x8AB1, BRK]);
    run_to_brk(&mut emu, "");
    assert_register(&mut emu, 10, 0x0E | 0x03);
    exit(&mut emu);
}

#[test]
fn test_andvxvy() {
    let mut emu = boot(&[0x6A0E, 0x6B03, 0x8AB2, BRK]);
    run_to_brk(&mut emu, "");
    assert_register(&mut emu, 10, 0x0E & 0x03);
    exit(&mut emu);
}

#[test]
fn test_xorvxvy() {
    let mut emu = boot(&[0x6A0E, 0x6B03, 0x8AB3, BRK]);
    run_to_brk(&mut emu, "");
    assert_register(&mut emu, 10, 0x0E ^ 0x03);
    exit(&mut emu);
}

#[test]
fn test_addvxvy() {
    let mut emu = boot(&[0x6A08, 0x6B09, 0x8AB4, BRK, 0x6BF0, 0x6CF7, 0x8BC4, BRK]);
    run_to_brk(&mut emu, "");
    assert_register(&mut emu, 10, 0x11);
    assert_register(&mut emu, 15, 0x00);
    resume(&mut emu, "");
    assert_register(&mut emu, 11, 0xE7);
    assert_register(&mut emu, 15, 0x01);
    exit(&mut emu);
}

#[test]
fn test_subvxvy() {
    let mut emu = boot(&[0x6A20, 0x6B15, 0x8AB5, BRK, 0x6B10, 0x6C33, 0x8BC5, BRK]);
    run_to_brk(&mut emu, "");
    assert_register(&mut emu, 10, 0x0B);
    assert_register(&mut emu, 15, 0x01);
    resume(&mut emu, "");
    assert_register(&mut emu, 11, 0xDD);
    assert_register(&mut emu, 15, 0x00);
    exit(&mut emu);
}

#[test]
fn test_shrvx() {
    let mut emu = boot(&[0x6A0E, 0x8A06, BRK, 0x6BFD, 0x8B06, BRK]);
    run_to_brk(&mut emu, "");
    assert_register(&mut emu, 10, 0x07);
    assert_register(&mut emu, 15, 0x00);
    resume(&mut emu, "");
    assert_register(&mut emu, 11, 0x7E);
    assert_register(&mut emu, 15, 0x01);
    exit(&mut emu);
}

#[test]
fn test_subnvxvy() {
    let mut emu = boot(&[0x6AF5, 0x6B00, 0x8AB7, BRK, 0x6B00, 0x6CDD, 0x8BC7, BRK]);
    run_to_brk(&mut emu, "");
    assert_register(&mut emu, 10, 0x0B);
    assert_register(&mut emu, 15, 0x00);
    resume(&mut emu, "");
    assert_register(&mut emu, 11, 0xDD);
    assert_register(&mut emu, 15, 0x01);
    exit(&mut emu);
}

#[test]
fn test_shlvx() {
    let mut emu = boot(&[0x6A0E, 0x8A0E, BRK, 0x6BFD, 0x8B0E, BRK]);
    run_to_brk(&mut emu, "");
    assert_register(&mut emu, 10, 0x1C);
    assert_register(&mut emu, 15, 0x00);
    resume(&mut emu, "");
    assert_register(&mut emu, 11, 0xFA);
    assert_register(&mut emu, 15, 0x01);
    exit(&mut emu);
}

#[test]
fn test_snevxvy() {
    let mut emu = boot(&[0x6325, 0x6426, 0x9340, BRK, 0x120C, BRK, BRK]);
    run_to_brk(&mut emu, "");
    assert_pc(&mut emu, 0x020C);
    assert_register(&mut emu, 3, 0x25);
    assert_register(&mut emu, 4, 0x26);
    exit(&mut emu);
}

#[test]
fn test_ldiaddr() {
    let mut emu = boot(&[0xA21E, BRK]);
    run_to_brk(&mut emu, "");
    assert_iregister(&mut emu, 0x021E);
    exit(&mut emu);
}

#[test]
fn test_jpv0addr() {
    let mut emu = boot(&[0x6004, 0xB208, BRK, BRK, BRK, BRK, BRK]);
    run_to_brk(&mut emu, "");
    assert_pc(&mut emu, 0x020C);
    exit(&mut emu);
}

#[test]
fn test_rndvxbyte() {
    let mut program = Vec::new();
    for i in 0..10u16 {
        program.push(0xC0FF | (i << 8));
    }
    program.push(BRK);
    let mut emu = boot(&program);
    run_to_brk(&mut emu, "");
    let mut randombytes = Vec::<u8>::new();
    for i in 0..10 {
        match peek(&mut emu, EmulatorCommand::PeekReg(i)) {
            EmulatorResponse::Reg(b) => randombytes.push(b),
            response => panic!("Response {:?} makes no sense...", response),
        }
    }
    assert!(randombytes.len() > 0);
    let val = randombytes[0];
    let mut all_the_same = true;
    for other in randombytes {
        if other != val {
            all_the_same = false;
            break;
        }
    }
    assert_eq!(all_the_same, false);
    exit(&mut emu);
}

#[test]
fn test_drwvxvynibble() {
    let mut emu = boot(&[0x6000, 0xF029, 0x6105, 0x6205, 0xD125, BRK, 0xD125, BRK]);
    run_to_brk(&mut emu, "");
    assert_register(&mut emu, 15, 0);
    resume(&mut emu, "");
    assert_register(&mut emu, 15, 1);
    exit(&mut emu);
}

#[test]
fn test_skpvx() {
    let mut emu = boot(&[BRK, 0x6107, 0xE19E, BRK, 0x120C, BRK, BRK, 0xE19E, BRK]);
    run_to_brk(&mut emu, "");
    resume(&mut emu, "asd");
    assert_pc(&mut emu, 0x020C);
    resume(&mut emu, "qwe");
    assert_pc(&mut emu, 0x0210);
    exit(&mut emu);
}

#[test]
fn test_sknpvx() {
    let mut emu = boot(&[BRK, 0x6107, 0xE1A1, BRK, 0x120C, BRK, BRK, 0xE1A1, BRK]);
    run_to_brk(&mut emu, "");
    resume(&mut emu, "qwe");
    assert_pc(&mut emu, 0x020C);
    resume(&mut emu, "asd");
    assert_pc(&mut emu, 0x0210);
    exit(&mut emu);
}

#[test]
fn test_ldvxdt() {
    let mut program = vec![BRK, 0x613C, 0xF115];
    for _ in 0..29 {
        program.push(FILLER);
    }
    program.push(0xF507);
    program.push(BRK);
    let mut emu = boot(&program);
    run_to_brk(&mut emu, "");
    assert_eq!(emu.handle_command(EmulatorCommand::SetClockRate(60)), Ok(None));
    resume(&mut emu, "");
    assert_register(&mut emu, 5, 0x1E);
    exit(&mut emu);
}

#[test]
fn test_ldvxk() {
    let mut emu = boot(&[0xF20A, BRK]);
    run_to_brk(&mut emu, "s");
    assert_register(&mut emu, 2, 0x08);
    exit(&mut emu);
}

#[test]
fn test_ldstvx() {
    let mut program = vec![BRK, 0x613C, 0xF118];
    for _ in 0..29 {
        program.push(FILLER);
    }
    program.push(BRK);
    let mut emu = boot(&program);
    run_to_brk(&mut emu, "");
    assert_eq!(emu.handle_command(EmulatorCommand::SetClockRate(60)), Ok(None));
    resume(&mut emu, "");
    assert_sound_timer(&mut emu, 0x1E);
    exit(&mut emu);
}

#[test]
fn test_addivx() {
    let mut emu = boot(&[0xA200, 0x610E, 0xF11E, BRK]);
    run_to_brk(&mut emu, "");
    assert_iregister(&mut emu, 0x20E);
    exit(&mut emu);
}

#[test]
fn test_ldfvx() {
    let mut program = Vec::new();
    for d in 0..16u16 {
        program.push(0x6000 | d);
        program.push(0xF029);
        program.push(BRK);
    }
    let mut emu = boot(&program);
    let expected = [
        HEX_SPRITE_ZERO_ADDR, HEX_SPRITE_ONE_ADDR, HEX_SPRITE_TWO_ADDR, HEX_SPRITE_THREE_ADDR,
        HEX_SPRITE_FOUR_ADDR, HEX_SPRITE_FIVE_ADDR, HEX_SPRITE_SIX_ADDR, HEX_SPRITE_SEVEN_ADDR,
        HEX_SPRITE_EIGHT_ADDR, HEX_SPRITE_NINE_ADDR, HEX_SPRITE_A_ADDR, HEX_SPRITE_B_ADDR,
        HEX_SPRITE_C_ADDR, HEX_SPRITE_D_ADDR, HEX_SPRITE_E_ADDR, HEX_SPRITE_F_ADDR,
    ];
    run_to_brk(&mut emu, "");
    for (d, addr) in expected.iter().enumerate() {
        if d > 0 {
            resume(&mut emu, "");
        }
        assert_iregister(&mut emu, *addr);
    }
    exit(&mut emu);
}
