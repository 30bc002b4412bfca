use vstd::prelude::*;

verus! {

/// Bytes taken by one instruction word in memory.
pub const OP_SIZE: usize = 2;

/// The instruction word that ends a program.
pub const EOF_WORD: u16 = 0x0A00;

/// A decoded instruction word. Each variant carries only the operand fields
/// that its encoding defines: register indices `x`, `y` (0 to 15), an 8-bit
/// immediate `nn`, a 12-bit address `nnn` or a 4-bit sprite height `n`.
#[allow(inconsistent_fields)]
#[derive(Clone, Copy, Debug, PartialEq, Eq, Structural)]
pub enum OpCode {
    Eof,  // 0x0A00
    DrawClr,  // 0x00E0
    Return,  // 0x00EE
    JpConst { nnn: usize },  // 0x1NNN
    Call { nnn: usize },  // 0x2NNN
    SkpEqConst { x: usize, nn: u8 },  // 0x3XNN
    SkpNeConst { x: usize, nn: u8 },  // 0x4XNN
    SkpEqReg { x: usize, y: usize },  // 0x5XY0
    SetConst { x: usize, nn: u8 },  // 0x6XNN
    AddConst { x: usize, nn: u8 },  // 0x7XNN
    SetReg { x: usize, y: usize },  // 0x8XY0
    SetRegBor { x: usize, y: usize },  // 0x8XY1
    SetRegBand { x: usize, y: usize },  // 0x8XY2
    SetRegBxor { x: usize, y: usize },  // 0x8XY3
    SetRegAdd { x: usize, y: usize },  // 0x8XY4
    SetRegSub { x: usize, y: usize },  // 0x8XY5
    SetShr1 { x: usize },  // 0x8XY6
    SetRegRevSub { x: usize, y: usize },  // 0x8XY7
    SetShl1 { x: usize },  // 0x8XYE
    JpRegNe { x: usize, y: usize },  // 0x9XY0
    SetI { nnn: u16 },  // 0xANNN
    JpOffset { nnn: usize },  // 0xBNNN
    SetRand { x: usize, nn: u8 },  // 0xCXNN
    Draw { x: usize, y: usize, n: u8 },  // 0xDXYN
    SkpKeyEq { x: usize },  // 0xEX9E
    SkpKeyNe { x: usize },  // 0xEXA1
    SetRegDelay { x: usize },  // 0xFX07
    SetKey { x: usize },  // 0xFX0A
    SetDelay { x: usize },  // 0xFX15
    SetSound { x: usize },  // 0xFX18
    SetIRegAdd { x: usize },  // 0xFX1E
    SetISprite { x: usize },  // 0xFX29
    SetBCD { x: usize },  // 0xFX33
    DumpReg { x: usize },  // 0xFX55
    LoadReg { x: usize },  // 0xFX65
    Unknown(u16),  // unrecognized instruction word
}

/// The top nibble of a word: the instruction family.
pub open spec fn field_op(w: u16) -> u16 {
    (w & 0xF000) >> 12
}

/// The second nibble: the first register operand.
pub open spec fn field_x(w: u16) -> usize {
    ((w & 0x0F00) >> 8) as usize
}

/// The third nibble: the second register operand.
pub open spec fn field_y(w: u16) -> usize {
    ((w & 0x00F0) >> 4) as usize
}

/// The bottom nibble.
pub open spec fn field_n(w: u16) -> u8 {
    (w & 0x000F) as u8
}

/// The low byte.
pub open spec fn field_nn(w: u16) -> u8 {
    (w & 0x00FF) as u8
}

/// The low twelve bits: an address.
pub open spec fn field_nnn(w: u16) -> usize {
    (w & 0x0FFF) as usize
}

/// The instruction that a word encodes.
pub open spec fn spec_decode(w: u16) -> OpCode {
    let (x, y, n, nn, nnn) = (field_x(w), field_y(w), field_n(w), field_nn(w), field_nnn(w));
    match field_op(w) {
        0x0 => if w == 0x0A00 {
            OpCode::Eof
        } else if w == 0x00E0 {
            OpCode::DrawClr
        } else if w == 0x00EE {
            OpCode::Return
        } else {
            OpCode::Unknown(w)
        },
        0x1 => OpCode::JpConst { nnn },
        0x2 => OpCode::Call { nnn },
        0x3 => OpCode::SkpEqConst { x, nn },
        0x4 => OpCode::SkpNeConst { x, nn },
        0x5 => OpCode::SkpEqReg { x, y },
        0x6 => OpCode::SetConst { x, nn },
        0x7 => OpCode::AddConst { x, nn },
        0x8 => match n {
            0x0 => OpCode::SetReg { x, y },
            0x1 => OpCode::SetRegBor { x, y },
            0x2 => OpCode::SetRegBand { x, y },
            0x3 => OpCode::SetRegBxor { x, y },
            0x4 => OpCode::SetRegAdd { x, y },
            0x5 => OpCode::SetRegSub { x, y },
            0x6 => OpCode::SetShr1 { x },
            0x7 => OpCode::SetRegRevSub { x, y },
            0xE => OpCode::SetShl1 { x },
            _ => OpCode::Unknown(w),
        },
        0x9 => OpCode::JpRegNe { x, y },
        0xA => OpCode::SetI { nnn: nnn as u16 },
        0xB => OpCode::JpOffset { nnn },
        0xC => OpCode::SetRand { x, nn },
        0xD => OpCode::Draw { x, y, n },
        0xE => match nn {
            0x9E => OpCode::SkpKeyEq { x },
            0xA1 => OpCode::SkpKeyNe { x },
            _ => OpCode::Unknown(w),
        },
        0xF => match nn {
            0x07 => OpCode::SetRegDelay { x },
            0x0A => OpCode::SetKey { x },
            0x15 => OpCode::SetDelay { x },
            0x18 => OpCode::SetSound { x },
            0x1E => OpCode::SetIRegAdd { x },
            0x29 => OpCode::SetISprite { x },
            0x33 => OpCode::SetBCD { x },
            0x55 => OpCode::DumpReg { x },
            0x65 => OpCode::LoadReg { x },
            _ => OpCode::Unknown(w),
        },
        _ => OpCode::Unknown(w),
    }
}

impl OpCode {
    /// Operands within the ranges that an instruction word can encode.
    pub open spec fn wf(&self) -> bool {
        match *self {
            OpCode::JpConst { nnn } => nnn <= 0xFFF,
            OpCode::Call { nnn } => nnn <= 0xFFF,
            OpCode::SkpEqConst { x, nn } => x < 16,
            OpCode::SkpNeConst { x, nn } => x < 16,
            OpCode::SkpEqReg { x, y } => x < 16 && y < 16,
            OpCode::SetConst { x, nn } => x < 16,
            OpCode::AddConst { x, nn } => x < 16,
            OpCode::SetReg { x, y } => x < 16 && y < 16,
            OpCode::SetRegBor { x, y } => x < 16 && y < 16,
            OpCode::SetRegBand { x, y } => x < 16 && y < 16,
            OpCode::SetRegBxor { x, y } => x < 16 && y < 16,
            OpCode::SetRegAdd { x, y } => x < 16 && y < 16,
            OpCode::SetRegSub { x, y } => x < 16 && y < 16,
            OpCode::SetShr1 { x } => x < 16,
            OpCode::SetRegRevSub { x, y } => x < 16 && y < 16,
            OpCode::SetShl1 { x } => x < 16,
            OpCode::JpRegNe { x, y } => x < 16 && y < 16,
            OpCode::SetI { nnn } => nnn <= 0xFFF,
            OpCode::JpOffset { nnn } => nnn <= 0xFFF,
            OpCode::SetRand { x, nn } => x < 16,
            OpCode::Draw { x, y, n } => x < 16 && y < 16 && n < 16,
            OpCode::SkpKeyEq { x } => x < 16,
            OpCode::SkpKeyNe { x } => x < 16,
            OpCode::SetRegDelay { x } => x < 16,
            OpCode::SetKey { x } => x < 16,
            OpCode::SetDelay { x } => x < 16,
            OpCode::SetSound { x } => x < 16,
            OpCode::SetIRegAdd { x } => x < 16,
            OpCode::SetISprite { x } => x < 16,
            OpCode::SetBCD { x } => x < 16,
            OpCode::DumpReg { x } => x < 16,
            OpCode::LoadReg { x } => x < 16,
            _ => true,
        }
    }
}

proof fn lemma_fields_in_range(w: u16)
    ensures
        field_op(w) < 16,
        field_x(w) < 16,
        field_y(w) < 16,
        field_n(w) < 16,
        field_nnn(w) <= 0xFFF,
{
    assert((w & 0xF000) >> 12 < 16) by (bit_vector);
    assert((w & 0x0F00) >> 8 < 16) by (bit_vector);
    assert((w & 0x00F0) >> 4 < 16) by (bit_vector);
    assert(w & 0x000F < 16) by (bit_vector);
    assert(w & 0x0FFF <= 0xFFF) by (bit_vector);
}

/// Every decoded instruction has its operands in range.
pub proof fn lemma_decode_wf(w: u16)
    ensures
        spec_decode(w).wf(),
{
    lemma_fields_in_range(w);
}

proof fn lemma_fields_arith(w: u16)
    ensures
        field_op(w) == w / 4096,
        field_x(w) == w / 256 % 16,
        field_y(w) == w / 16 % 16,
        field_n(w) == w % 16,
        field_nn(w) == w % 256,
        field_nnn(w) == w % 4096,
{
    assert((w & 0xF000) >> 12 == w / 4096) by (bit_vector);
    assert((w & 0x0F00) >> 8 == w / 256 % 16) by (bit_vector);
    assert((w & 0x00F0) >> 4 == w / 16 % 16) by (bit_vector);
    assert(w & 0x000F == w % 16) by (bit_vector);
    assert(w & 0x00FF == w % 256) by (bit_vector);
    assert(w & 0x0FFF == w % 4096) by (bit_vector);
}

/// Outside the families whose low bits select a sub-operation (top nibble
/// 0x0, 0x8, 0xE and 0xF), the family is the top nibble of the word and the
/// operands are its digits in base 16: `x` the second, `y` the third, `n` the
/// last, `nn` the low byte and `nnn` the low twelve bits.
pub proof fn lemma_decode_operands(w: u16)
    requires
        w / 4096 != 0x0,
        w / 4096 != 0x8,
        w / 4096 != 0xE,
        w / 4096 != 0xF,
    ensures
        ({
            let x = (w / 256 % 16) as usize;
            let y = (w / 16 % 16) as usize;
            let n = (w % 16) as u8;
            let nn = (w % 256) as u8;
            let nnn = (w % 4096) as usize;
            spec_decode(w) == match w / 4096 {
                0x1 => OpCode::JpConst { nnn },
                0x2 => OpCode::Call { nnn },
                0x3 => OpCode::SkpEqConst { x, nn },
                0x4 => OpCode::SkpNeConst { x, nn },
                0x5 => OpCode::SkpEqReg { x, y },
                0x6 => OpCode::SetConst { x, nn },
                0x7 => OpCode::AddConst { x, nn },
                0x9 => OpCode::JpRegNe { x, y },
                0xA => OpCode::SetI { nnn: nnn as u16 },
                0xB => OpCode::JpOffset { nnn },
                0xC => OpCode::SetRand { x, nn },
                _ => OpCode::Draw { x, y, n },
            }
        }),
{
    lemma_fields_arith(w);
}

/// Decodes an instruction word. A word that matches no known encoding
/// decodes to `OpCode::Unknown` with the word itself.
pub fn decode(instr: u16) -> (op: OpCode)
    ensures
        op == spec_decode(instr),
        op.wf(),
{
    proof {
        lemma_decode_wf(instr);
    }
    let op = (instr & 0xF000) >> 12;
    let x = ((instr & 0x0F00) >> 8) as usize;
    let y = ((instr & 0x00F0) >> 4) as usize;
    let n = (instr & 0x000F) as u8;
    let nn = (instr & 0x00FF) as u8;
    let nnn = (instr & 0x0FFF) as usize;

    match op {
        0x0 => {
            if instr == 0x0A00 {
                OpCode::Eof
            } else if instr == 0x00E0 {
                OpCode::DrawClr
            } else if instr == 0x00EE {
                OpCode::Return
            } else {
                OpCode::Unknown(instr)
            }
        },
        0x1 => OpCode::JpConst { nnn },
        0x2 => OpCode::Call { nnn },
        0x3 => OpCode::SkpEqConst { x, nn },
        0x4 => OpCode::SkpNeConst { x, nn },
        0x5 => OpCode::SkpEqReg { x, y },
        0x6 => OpCode::SetConst { x, nn },
        0x7 => OpCode::AddConst { x, nn },
        0x8 => {
            match n {
                0x0 => OpCode::SetReg { x, y },
                0x1 => OpCode::SetRegBor { x, y },
                0x2 => OpCode::SetRegBand { x, y },
                0x3 => OpCode::SetRegBxor { x, y },
                0x4 => OpCode::SetRegAdd { x, y },
                0x5 => OpCode::SetRegSub { x, y },
                0x6 => OpCode::SetShr1 { x },
                0x7 => OpCode::SetRegRevSub { x, y },
                0xE => OpCode::SetShl1 { x },
                _ => OpCode::Unknown(instr),
            }
        },
        0x9 => OpCode::JpRegNe { x, y },
        0xA => OpCode::SetI { nnn: nnn as u16 },
        0xB => OpCode::JpOffset { nnn },
        0xC => OpCode::SetRand { x, nn },
        0xD => OpCode::Draw { x, y, n },
        0xE => {
            match nn {
                0x9E => OpCode::SkpKeyEq { x },
                0xA1 => OpCode::SkpKeyNe { x },
                _ => OpCode::Unknown(instr),
            }
        },
        0xF => {
            match nn {
                0x07 => OpCode::SetRegDelay { x },
                0x0A => OpCode::SetKey { x },
                0x15 => OpCode::SetDelay { x },
                0x18 => OpCode::SetSound { x },
                0x1E => OpCode::SetIRegAdd { x },
                0x29 => OpCode::SetISprite { x },
                0x33 => OpCode::SetBCD { x },
                0x55 => OpCode::DumpReg { x },
                0x65 => OpCode::LoadReg { x },
                _ => OpCode::Unknown(instr),
            }
        },
        _ => OpCode::Unknown(instr),
    }
}

impl From<u16> for OpCode {
    fn from(instr: u16) -> (op: OpCode) {
        decode(instr)
    }
}

impl vstd::std_specs::convert::FromSpecImpl<u16> for OpCode {
    open spec fn obeys_from_spec() -> bool {
        true
    }

    open spec fn from_spec(instr: u16) -> OpCode {
        spec_decode(instr)
    }
}

} // verus!
