use ferrous_core::{decode, Instruction};

#[test]
fn decodes_every_instruction() {
    let cases = [
        (0x00C7u16, Instruction::ScrollDown { n: 7 }),
        (0x00E0, Instruction::Cls),
        (0x00EE, Instruction::Ret),
        (0x00FB, Instruction::ScrollRight),
        (0x00FC, Instruction::ScrollLeft),
        (0x00FD, Instruction::Exit),
        (0x00FE, Instruction::Low),
        (0x00FF, Instruction::High),
        (0x1ABC, Instruction::Jump { nnn: 0xABC }),
        (0x2345, Instruction::Call { nnn: 0x345 }),
        (0x3A12, Instruction::SkipEqByte { x: 0xA, kk: 0x12 }),
        (0x4B34, Instruction::SkipNeByte { x: 0xB, kk: 0x34 }),
        (0x5120, Instruction::SkipEqReg { x: 1, y: 2 }),
        (0x6CFF, Instruction::LoadByte { x: 0xC, kk: 0xFF }),
        (0x7D01, Instruction::AddByte { x: 0xD, kk: 0x01 }),
        (0x8120, Instruction::Move { x: 1, y: 2 }),
        (0x8341, Instruction::Or { x: 3, y: 4 }),
        (0x8562, Instruction::And { x: 5, y: 6 }),
        (0x8783, Instruction::Xor { x: 7, y: 8 }),
        (0x89A4, Instruction::Add { x: 9, y: 0xA }),
        (0x8BC5, Instruction::Sub { x: 0xB, y: 0xC }),
        (0x8DE6, Instruction::ShiftRight { x: 0xD, y: 0xE }),
        (0x8F07, Instruction::SubReverse { x: 0xF, y: 0 }),
        (0x812E, Instruction::ShiftLeft { x: 1, y: 2 }),
        (0x9340, Instruction::SkipNeReg { x: 3, y: 4 }),
        (0xA123, Instruction::LoadIndex { nnn: 0x123 }),
        (0xBFFF, Instruction::JumpOffset { nnn: 0xFFF }),
        (0xC1F0, Instruction::Random { x: 1, kk: 0xF0 }),
        (0xD125, Instruction::Draw { x: 1, y: 2, n: 5 }),
        (0xD120, Instruction::Draw { x: 1, y: 2, n: 0 }),
        (0xE39E, Instruction::SkipKey { x: 3 }),
        (0xE4A1, Instruction::SkipNoKey { x: 4 }),
        (0xF507, Instruction::ReadDelay { x: 5 }),
        (0xF60A, Instruction::WaitKey { x: 6 }),
        (0xF715, Instruction::SetDelay { x: 7 }),
        (0xF818, Instruction::SetSound { x: 8 }),
        (0xF91E, Instruction::AddIndex { x: 9 }),
        (0xFA29, Instruction::FontAddress { x: 0xA }),
        (0xFB30, Instruction::BigFontAddress { x: 0xB }),
        (0xFC33, Instruction::StoreBcd { x: 0xC }),
        (0xFD55, Instruction::StoreRegisters { x: 0xD }),
        (0xFE65, Instruction::LoadRegisters { x: 0xE }),
        (0xF775, Instruction::StoreFlags { x: 7 }),
        (0xF085, Instruction::LoadFlags { x: 0 }),
    ];
    for (word, instruction) in cases {
        assert_eq!(decode(word), instruction);
        assert_eq!(instruction.encode(), word);
    }
}

#[test]
fn words_outside_the_instruction_set_are_unknown() {
    for word in [0x0000u16, 0x00E1, 0x00EF, 0x00FA, 0x01E0, 0x0FFF, 0x5121, 0x512F, 0x8128, 0x812D, 0x812F, 0x9121, 0xE19F, 0xE1A0, 0xE100, 0xF100, 0xF108, 0xF131, 0xF1FF, 0xF875, 0xFF75, 0xF885, 0xFF85] {
        assert_eq!(decode(word), Instruction::Unknown { opcode: word });
    }
}

#[test]
fn encoding_takes_decoding_back_for_every_word() {
    for word in 0..=0xFFFFu16 {
        assert_eq!(decode(word).encode(), word);
    }
}

#[test]
fn decoded_operands_are_the_bit_fields() {
    for word in (0..=0xFFFFu16).step_by(7) {
        let x = ((word >> 8) & 0xF) as usize;
        let y = ((word >> 4) & 0xF) as usize;
        let kk = (word & 0xFF) as u8;
        let nnn = word & 0xFFF;
        match decode(word) {
            Instruction::Jump { nnn: found } => assert_eq!(found, nnn),
            Instruction::LoadByte { x: fx, kk: fkk } => assert_eq!((fx, fkk), (x, kk)),
            Instruction::Add { x: fx, y: fy } => assert_eq!((fx, fy), (x, y)),
            Instruction::Draw { x: fx, y: fy, n } => assert_eq!((fx, fy, n), (x, y, (word & 0xF) as usize)),
            _ => {}
        }
    }
}

#[test]
fn there_are_forty_three_instructions_besides_unknown() {
    let mut seen = std::collections::HashSet::new();
    for word in 0..=0xFFFFu16 {
        let name = format!("{:?}", decode(word));
        let head = name.split(|c| c == ' ' || c == '{').next().unwrap().to_string();
        seen.insert(head);
    }
    assert!(seen.contains("Unknown"));
    assert_eq!(seen.len(), 44);
}
