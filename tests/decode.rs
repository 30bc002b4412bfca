use chip8::opcodes::{decode, OpCode};

#[test]
fn decode_extracts_operands_by_family() {
    assert_eq!(decode(0x1ABC), OpCode::JpConst { nnn: 0xABC });
    assert_eq!(decode(0x2345), OpCode::Call { nnn: 0x345 });
    assert_eq!(decode(0x3A7F), OpCode::SkpEqConst { x: 0xA, nn: 0x7F });
    assert_eq!(decode(0x4B01), OpCode::SkpNeConst { x: 0xB, nn: 0x01 });
    assert_eq!(decode(0x5120), OpCode::SkpEqReg { x: 0x1, y: 0x2 });
    assert_eq!(decode(0x6005), OpCode::SetConst { x: 0x0, nn: 0x05 });
    assert_eq!(decode(0x7EFF), OpCode::AddConst { x: 0xE, nn: 0xFF });
    assert_eq!(decode(0x9CD0), OpCode::JpRegNe { x: 0xC, y: 0xD });
    assert_eq!(decode(0xA123), OpCode::SetI { nnn: 0x123 });
    assert_eq!(decode(0xBFFF), OpCode::JpOffset { nnn: 0xFFF });
    assert_eq!(decode(0xC30F), OpCode::SetRand { x: 0x3, nn: 0x0F });
    assert_eq!(decode(0xD12F), OpCode::Draw { x: 0x1, y: 0x2, n: 0xF });
}

#[test]
fn decode_sub_opcode_families() {
    assert_eq!(decode(0x0A00), OpCode::Eof);
    assert_eq!(decode(0x00E0), OpCode::DrawClr);
    assert_eq!(decode(0x00EE), OpCode::Return);
    assert_eq!(decode(0x8120), OpCode::SetReg { x: 1, y: 2 });
    assert_eq!(decode(0x8121), OpCode::SetRegBor { x: 1, y: 2 });
    assert_eq!(decode(0x8122), OpCode::SetRegBand { x: 1, y: 2 });
    assert_eq!(decode(0x8123), OpCode::SetRegBxor { x: 1, y: 2 });
    assert_eq!(decode(0x8124), OpCode::SetRegAdd { x: 1, y: 2 });
    assert_eq!(decode(0x8125), OpCode::SetRegSub { x: 1, y: 2 });
    assert_eq!(decode(0x8126), OpCode::SetShr1 { x: 1 });
    assert_eq!(decode(0x8127), OpCode::SetRegRevSub { x: 1, y: 2 });
    assert_eq!(decode(0x812E), OpCode::SetShl1 { x: 1 });
    assert_eq!(decode(0xE59E), OpCode::SkpKeyEq { x: 5 });
    assert_eq!(decode(0xE5A1), OpCode::SkpKeyNe { x: 5 });
    assert_eq!(decode(0xF607), OpCode::SetRegDelay { x: 6 });
    assert_eq!(decode(0xF60A), OpCode::SetKey { x: 6 });
    assert_eq!(decode(0xF615), OpCode::SetDelay { x: 6 });
    assert_eq!(decode(0xF618), OpCode::SetSound { x: 6 });
    assert_eq!(decode(0xF61E), OpCode::SetIRegAdd { x: 6 });
    assert_eq!(decode(0xF629), OpCode::SetISprite { x: 6 });
    assert_eq!(decode(0xF633), OpCode::SetBCD { x: 6 });
    assert_eq!(decode(0xF655), OpCode::DumpReg { x: 6 });
    assert_eq!(decode(0xF665), OpCode::LoadReg { x: 6 });
}

#[test]
fn decode_unknown_words() {
    assert_eq!(decode(0x0000), OpCode::Unknown(0x0000));
    assert_eq!(decode(0x0123), OpCode::Unknown(0x0123));
    assert_eq!(decode(0x8128), OpCode::Unknown(0x8128));
    assert_eq!(decode(0xE500), OpCode::Unknown(0xE500));
    assert_eq!(decode(0xF6FF), OpCode::Unknown(0xF6FF));
}

#[test]
fn from_word_matches_decode() {
    let op: OpCode = 0x8AB4u16.into();
    assert_eq!(op, OpCode::SetRegAdd { x: 0xA, y: 0xB });
    assert_eq!(OpCode::from(0x0A00), OpCode::Eof);
}

#[test]
fn decode_operands_are_word_digits() {
    // every word outside the sub-opcode families
    for w in 0u32..=0xFFFF {
        let w = w as u16;
        let top = w >> 12;
        if top == 0x0 || top == 0x8 || top == 0xE || top == 0xF {
            continue;
        }
        let x = ((w / 256) % 16) as usize;
        let y = ((w / 16) % 16) as usize;
        let nn = (w % 256) as u8;
        let nnn = (w % 4096) as usize;
        match decode(w) {
            OpCode::JpConst { nnn: a } | OpCode::Call { nnn: a } | OpCode::JpOffset { nnn: a } => {
                assert_eq!(a, nnn)
            }
            OpCode::SetI { nnn: a } => assert_eq!(a as usize, nnn),
            OpCode::SkpEqConst { x: a, nn: b }
            | OpCode::SkpNeConst { x: a, nn: b }
            | OpCode::SetConst { x: a, nn: b }
            | OpCode::AddConst { x: a, nn: b }
            | OpCode::SetRand { x: a, nn: b } => {
                assert_eq!(a, x);
                assert_eq!(b, nn);
            }
            OpCode::SkpEqReg { x: a, y: b } | OpCode::JpRegNe { x: a, y: b } => {
                assert_eq!(a, x);
                assert_eq!(b, y);
            }
            OpCode::Draw { x: a, y: b, n } => {
                assert_eq!(a, x);
                assert_eq!(b, y);
                assert_eq!(n as u16, w % 16);
            }
            other => panic!("{:04X} decoded to {:?}", w, other),
        }
    }
}
