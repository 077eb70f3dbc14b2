use chip8::cpu::Cpu;
use chip8::opcode::Opcode;

fn mnemonic(word: u16) -> String {
    Opcode::new(word).mnemonic()
}

#[test]
fn class_zero_mnemonics() {
    assert_eq!(mnemonic(0x00E0), "CLR");
    assert_eq!(mnemonic(0x00EE), "RTS");
    assert_eq!(mnemonic(0x0123), "SYS 291");
    assert_eq!(mnemonic(0x0000), "SYS 0");
    assert_eq!(mnemonic(0x0FFF), "SYS 4095");
    // Only the exact words are CLR and RTS.
    assert_eq!(mnemonic(0x01E0), "SYS 480");
}

#[test]
fn address_mnemonics() {
    assert_eq!(mnemonic(0x1ABC), "JUMP  0x0abc");
    assert_eq!(mnemonic(0x2200), "CALL  0x0200");
    assert_eq!(mnemonic(0xA00F), "LOADI 0x000f");
    assert_eq!(mnemonic(0xBFFF), "JUMPI 0x0fff");
}

#[test]
fn register_and_byte_mnemonics() {
    assert_eq!(mnemonic(0x3A12), "SKE   V10, 0x0012");
    assert_eq!(mnemonic(0x40FF), "SKNE  V0, 0x00ff");
    assert_eq!(mnemonic(0x6F00), "LOAD  V15, 0x0000");
    assert_eq!(mnemonic(0x7123), "ADD   V1, 0x0023");
    assert_eq!(mnemonic(0xC90A), "RAND  V9, 0x000a");
}

#[test]
fn two_register_mnemonics() {
    assert_eq!(mnemonic(0x5AB0), "SKRE  V10, V11");
    assert_eq!(mnemonic(0x8120), "MOVE  V1, V2");
    assert_eq!(mnemonic(0x8121), "OR    V1, V2");
    assert_eq!(mnemonic(0x8122), "AND   V1, V2");
    assert_eq!(mnemonic(0x8123), "XOR   V1, V2");
    assert_eq!(mnemonic(0x8124), "ADDR  V1, V2");
    assert_eq!(mnemonic(0x8125), "SUB   V1, V2");
    assert_eq!(mnemonic(0x8126), "SHR   V1, V2");
    assert_eq!(mnemonic(0x8127), "SSUB  V1, V2");
    assert_eq!(mnemonic(0x812E), "SHL   V1, V2");
    assert_eq!(mnemonic(0x8128), "UNUS");
    assert_eq!(mnemonic(0x812F), "UNUS");
    assert_eq!(mnemonic(0x9AB0), "SKRNE V10, 0x000b");
    assert_eq!(mnemonic(0xD12F), "DRAW  V1, V2, 0x000f");
}

#[test]
fn key_and_timer_mnemonics() {
    assert_eq!(mnemonic(0xE19E), "SKPR  V1");
    assert_eq!(mnemonic(0xE1A1), "SKUP  V1");
    assert_eq!(mnemonic(0xE100), "UNUS");
    assert_eq!(mnemonic(0xF207), "MOVED V2");
    assert_eq!(mnemonic(0xF20A), "KEYD  V2");
    assert_eq!(mnemonic(0xF215), "LOADD V2");
    assert_eq!(mnemonic(0xF218), "LOADS V2");
    assert_eq!(mnemonic(0xF21E), "ADDI  V2");
    assert_eq!(mnemonic(0xF229), "LDSPR V2");
    assert_eq!(mnemonic(0xF233), "BCD   V2");
    assert_eq!(mnemonic(0xF255), "STOR  V2");
    assert_eq!(mnemonic(0xFC65), "READ  V12");
    assert_eq!(mnemonic(0xF2FF), "UNUS");
}

#[test]
fn mnemonics_agree_with_std_formatting() {
    for word in [0x1000u16, 0x1FFF, 0x2A5C, 0xA9E0] {
        let op = Opcode::new(word);
        let name = match op.t() {
            0x1000 => "JUMP  ",
            0x2000 => "CALL  ",
            _ => "LOADI ",
        };
        assert_eq!(op.mnemonic(), format!("{}{:#06x}", name, op.nnn()));
    }
    for x in 0..16u16 {
        for kk in [0u16, 9, 10, 0x7F, 0xFF] {
            let op = Opcode::new(0x3000 | (x << 8) | kk);
            assert_eq!(op.mnemonic(), format!("SKE   V{:#}, {:#06x}", op.x(), op.kk()));
        }
    }
}

#[test]
fn hexadecimal_text_has_four_digits() {
    assert_eq!(Opcode::new(0x0000).to_hex(), "0x0000");
    assert_eq!(Opcode::new(0x00E0).to_hex(), "0x00e0");
    assert_eq!(Opcode::new(0xABCD).to_hex(), "0xabcd");
    for word in [0x0001u16, 0x0010, 0x0100, 0x1000, 0x9F0A, 0xFFFF] {
        assert_eq!(Opcode::new(word).to_hex(), format!("{:#06x}", word));
    }
}

#[test]
fn display_text_is_word_tab_mnemonic() {
    assert_eq!(Opcode::new(0x1ABC).to_text(), "0x1abc\tJUMP  0x0abc");
    assert_eq!(Opcode::new(0x00E0).to_text(), "0x00e0\tCLR");
    assert_eq!(Opcode::new(0xFFFF).to_text(), "0xffff\tUNUS");
    for word in [0x0000u16, 0x6A42, 0x8AB6, 0xD123] {
        let op = Opcode::new(word);
        assert_eq!(op.to_text(), format!("{:#06x}\t{}", word, op.mnemonic()));
    }
}

#[test]
fn dump_lists_the_program_up_to_the_first_zero_word() {
    let mut cpu = Cpu::new();
    cpu.load_program(&[0x6A, 0x42, 0x12, 0x00, 0x00, 0x00, 0x60, 0x01]).unwrap();
    let lines = cpu.dump_program();
    assert_eq!(
        lines,
        vec![
            String::from("0x0200: 0x6a42\tLOAD  V10, 0x0042"),
            String::from("0x0202: 0x1200\tJUMP  0x0200"),
        ]
    );
}

#[test]
fn dump_of_an_empty_machine_is_empty() {
    let cpu = Cpu::new();
    assert_eq!(cpu.dump_program().len(), 0);
}

#[test]
fn dump_runs_to_the_end_of_memory() {
    let mut cpu = Cpu::new();
    cpu.load_program(&vec![0x11u8; 4096 - 0x200]).unwrap();
    let lines = cpu.dump_program();
    assert_eq!(lines.len(), (4096 - 0x200) / 2);
    assert_eq!(lines[0], "0x0200: 0x1111\tJUMP  0x0111");
    assert_eq!(lines[lines.len() - 1], "0x0ffe: 0x1111\tJUMP  0x0111");
}
