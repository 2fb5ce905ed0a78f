use nes_core::cartridge::Cartridge;
use nes_core::debug::Command;
use nes_core::debug::Debugger;
use nes_core::debug::disassemble;
use nes_core::nes::Nes;

fn make_rom(code: &[u8], org: u16) -> Vec<u8> {
    let mut v = vec![0x4eu8, 0x45, 0x53, 0x1a, 1, 1, 0, 0, 0, 0, 0, 0, 0, 0, 0, 0];
    let mut prg = vec![0u8; 16384];
    let off = ((org as usize) - 0x8000) % 16384;
    for (i, b) in code.iter().enumerate() {
        prg[off + i] = *b;
    }
    prg[0x3ffc] = (org & 0xff) as u8;
    prg[0x3ffd] = (org >> 8) as u8;
    v.extend_from_slice(&prg);
    v.extend_from_slice(&vec![0u8; 8192]);
    v
}

fn console(code: &[u8]) -> Nes {
    Nes::new(Cartridge::new(make_rom(code, 0x8000)).unwrap()).unwrap()
}

#[test]
fn parse_step_variants() {
    assert_eq!(Command::parse(b"step"), Some(Command::Step(1)));
    assert_eq!(Command::parse(b"s"), Some(Command::Step(1)));
    assert_eq!(Command::parse(b"s 5"), Some(Command::Step(5)));
    assert_eq!(Command::parse(b"step 10"), Some(Command::Step(10)));
    assert_eq!(Command::parse(b"step   12"), Some(Command::Step(12)));
    assert_eq!(Command::parse(b"step\t7"), Some(Command::Step(7)));
    assert_eq!(Command::parse(b"step 0"), Some(Command::Step(0)));
}

#[test]
fn parse_exit_variants() {
    assert_eq!(Command::parse(b"exit"), Some(Command::Exit));
    assert_eq!(Command::parse(b"quit"), Some(Command::Exit));
    assert_eq!(Command::parse(b"e"), Some(Command::Exit));
    assert_eq!(Command::parse(b"q"), Some(Command::Exit));
}

#[test]
fn parse_empty_repeats() {
    assert_eq!(Command::parse(b""), Some(Command::Repeat));
}

#[test]
fn parse_rejects_garbage() {
    assert_eq!(Command::parse(b"s5"), None);
    assert_eq!(Command::parse(b"stepx"), None);
    assert_eq!(Command::parse(b"step 5x"), None);
    assert_eq!(Command::parse(b"ex"), None);
    assert_eq!(Command::parse(b"go"), None);
    assert_eq!(Command::parse(b"step "), None);
    assert_eq!(Command::parse(b" step"), None);
}

#[test]
fn parse_count_overflow_rejected() {
    // Far beyond usize: the count must fit.
    assert_eq!(Command::parse(b"step 99999999999999999999999999"), None);
}

#[test]
fn disassemble_immediate() {
    let nes = console(&[0xa9, 0x00]);
    let line = disassemble(&nes).unwrap();
    assert_eq!(line, b"8000 LDA #$00".to_vec());
}

#[test]
fn disassemble_modes() {
    let nes = console(&[0xbd, 0x01, 0x1f]);
    assert_eq!(disassemble(&nes).unwrap(), b"8000 LDA $1f01,X".to_vec());

    let nes = console(&[0x6c, 0xff, 0x30]);
    assert_eq!(disassemble(&nes).unwrap(), b"8000 JMP ($30ff)".to_vec());

    let nes = console(&[0x91, 0x44]);
    assert_eq!(disassemble(&nes).unwrap(), b"8000 STA ($44),Y".to_vec());

    let nes = console(&[0xa1, 0x44]);
    assert_eq!(disassemble(&nes).unwrap(), b"8000 LDA ($44,X)".to_vec());

    let nes = console(&[0x95, 0x07]);
    assert_eq!(disassemble(&nes).unwrap(), b"8000 STA $07,X".to_vec());
}

#[test]
fn disassemble_implied_has_empty_operand() {
    let nes = console(&[0xea]);
    assert_eq!(disassemble(&nes).unwrap(), b"8000 NOP ".to_vec());
}

#[test]
fn debugger_step_formats_next_instruction() {
    let mut dbg = Debugger::new(console(&[0xa9, 0x00, 0xa9, 0x01]));
    let line = dbg.step().unwrap();
    assert_eq!(line, b"8002 LDA #$01".to_vec());
}

#[test]
fn debugger_step_by_advances() {
    let mut dbg = Debugger::new(console(&[0xa9, 0x00, 0xa9, 0x01, 0xea]));
    dbg.step_by(2).unwrap();
    assert_eq!(dbg.nes.cpu().reg.pc, 0x8004);
}

#[test]
fn resolve_command_repeat() {
    let mut dbg = Debugger::new(console(&[0xea]));
    // No last command yet: a repeat resolves to nothing.
    assert_eq!(dbg.resolve_command(Some(Command::Repeat)), None);
    // A fresh command is recorded and a repeat brings it back.
    assert_eq!(dbg.resolve_command(Some(Command::Step(3))), Some(Command::Step(3)));
    assert_eq!(dbg.resolve_command(Some(Command::Repeat)), Some(Command::Step(3)));
    // An unparsable line clears the record.
    assert_eq!(dbg.resolve_command(None), None);
    assert_eq!(dbg.resolve_command(Some(Command::Repeat)), None);
}
