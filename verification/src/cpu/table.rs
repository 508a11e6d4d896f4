//! The instruction set as a table: for each opcode its mnemonic, the
//! operands it names, and what it does.

use vstd::prelude::*;
use crate::cpu::alu::AluOp;

verus! {

/// The operands that an instruction names, in the order in which they are
/// written.
#[derive(Clone, Copy, Debug, PartialEq, Eq, Structural)]
pub enum Shape {
    /// No operand
    Bare,
    Ll,
    LlHh,
    RxRyHhll,
    RxRyRz,
    RxHhll,
    Hh,
    Hhll,
    AdLlHh,
    /// A condition, written right behind the mnemonic, and an address
    CondHhll,
    Rx,
    RxRy,
}

/// Where an arithmetic instruction takes its operands and puts its result.
#[derive(Clone, Copy, Debug, PartialEq, Eq, Structural)]
pub enum Form {
    /// `rx = op(rx, hhll)`
    Immediate,
    /// `rx = op(rx, ry)`
    Pair,
    /// `rz = op(rx, ry)`
    Triple,
    /// `rx = op(rx, rx)`
    Own,
    /// `op(rx, hhll)`, for the flags alone
    TestImmediate,
    /// `op(rx, ry)`, for the flags alone
    TestPair,
}

/// What an instruction does.
#[derive(Clone, Copy, Debug, PartialEq, Eq, Structural)]
pub enum Action {
    Nop,
    Cls,
    Vblnk,
    Bgc,
    Spr,
    Drw,
    DrwR,
    Rnd,
    Flip,
    Snd0,
    /// Play a plain tone of this many hertz
    Tone(u16),
    Snp,
    Sng,
    Jmp,
    Jmc,
    Jx,
    Jme,
    Call,
    Ret,
    JmpR,
    Cx,
    CallR,
    LdiR,
    LdiSp,
    Ldm,
    LdmR,
    Mov,
    Stm,
    StmR,
    Math(AluOp, Form),
    Push,
    Pop,
    PushAll,
    PopAll,
    PushF,
    PopF,
    Pal,
    PalR,
}

/// One line of the table.
#[derive(Clone, Copy, Debug)]
pub struct Entry {
    pub mnemonic: &'static str,
    pub shape: Shape,
    pub action: Action,
}

/// The table's line for an opcode, if the opcode is defined.
pub open spec fn spec_lookup(opcode: u8) -> Option<Entry> {
    if opcode == 0x00 {
        Some(Entry { mnemonic: "NOP", shape: Shape::Bare, action: Action::Nop })
    } else if opcode == 0x01 {
        Some(Entry { mnemonic: "CLS", shape: Shape::Bare, action: Action::Cls })
    } else if opcode == 0x02 {
        Some(Entry { mnemonic: "VBLNK", shape: Shape::Bare, action: Action::Vblnk })
    } else if opcode == 0x03 {
        Some(Entry { mnemonic: "BGC", shape: Shape::Ll, action: Action::Bgc })
    } else if opcode == 0x04 {
        Some(Entry { mnemonic: "SPR", shape: Shape::LlHh, action: Action::Spr })
    } else if opcode == 0x05 {
        Some(Entry { mnemonic: "DRW", shape: Shape::RxRyHhll, action: Action::Drw })
    } else if opcode == 0x06 {
        Some(Entry { mnemonic: "DRW", shape: Shape::RxRyRz, action: Action::DrwR })
    } else if opcode == 0x07 {
        Some(Entry { mnemonic: "RND", shape: Shape::RxHhll, action: Action::Rnd })
    } else if opcode == 0x08 {
        Some(Entry { mnemonic: "FLIP", shape: Shape::Hh, action: Action::Flip })
    } else if opcode == 0x09 {
        Some(Entry { mnemonic: "SND0", shape: Shape::Bare, action: Action::Snd0 })
    } else if opcode == 0x0A {
        Some(Entry { mnemonic: "SND1", shape: Shape::Hhll, action: Action::Tone(500) })
    } else if opcode == 0x0B {
        Some(Entry { mnemonic: "SND2", shape: Shape::Hhll, action: Action::Tone(1000) })
    } else if opcode == 0x0C {
        Some(Entry { mnemonic: "SND3", shape: Shape::Hhll, action: Action::Tone(1500) })
    } else if opcode == 0x0D {
        Some(Entry { mnemonic: "SNP", shape: Shape::RxHhll, action: Action::Snp })
    } else if opcode == 0x0E {
        Some(Entry { mnemonic: "SNG", shape: Shape::AdLlHh, action: Action::Sng })
    } else if opcode == 0x10 {
        Some(Entry { mnemonic: "JMP", shape: Shape::Hhll, action: Action::Jmp })
    } else if opcode == 0x11 {
        Some(Entry { mnemonic: "JMC", shape: Shape::Hhll, action: Action::Jmc })
    } else if opcode == 0x12 {
        Some(Entry { mnemonic: "J", shape: Shape::CondHhll, action: Action::Jx })
    } else if opcode == 0x13 {
        Some(Entry { mnemonic: "JME", shape: Shape::RxRyHhll, action: Action::Jme })
    } else if opcode == 0x14 {
        Some(Entry { mnemonic: "CALL", shape: Shape::Hhll, action: Action::Call })
    } else if opcode == 0x15 {
        Some(Entry { mnemonic: "RET", shape: Shape::Bare, action: Action::Ret })
    } else if opcode == 0x16 {
        Some(Entry { mnemonic: "JMP_R", shape: Shape::Rx, action: Action::JmpR })
    } else if opcode == 0x17 {
        Some(Entry { mnemonic: "C", shape: Shape::CondHhll, action: Action::Cx })
    } else if opcode == 0x18 {
        Some(Entry { mnemonic: "CALL", shape: Shape::Rx, action: Action::CallR })
    } else if opcode == 0x20 {
        Some(Entry { mnemonic: "LDI", shape: Shape::RxHhll, action: Action::LdiR })
    } else if opcode == 0x21 {
        Some(Entry { mnemonic: "LDI", shape: Shape::Hhll, action: Action::LdiSp })
    } else if opcode == 0x22 {
        Some(Entry { mnemonic: "LDM", shape: Shape::RxHhll, action: Action::Ldm })
    } else if opcode == 0x23 {
        Some(Entry { mnemonic: "LDM", shape: Shape::RxRy, action: Action::LdmR })
    } else if opcode == 0x24 {
        Some(Entry { mnemonic: "MOV", shape: Shape::RxRy, action: Action::Mov })
    } else if opcode == 0x30 {
        Some(Entry { mnemonic: "STM", shape: Shape::RxHhll, action: Action::Stm })
    } else if opcode == 0x31 {
        Some(Entry { mnemonic: "STM", shape: Shape::RxRy, action: Action::StmR })
    } else if opcode == 0x40 {
        Some(Entry { mnemonic: "ADDI", shape: Shape::RxHhll, action: Action::Math(AluOp::Add, Form::Immediate) })
    } else if opcode == 0x41 {
        Some(Entry { mnemonic: "ADD", shape: Shape::RxRy, action: Action::Math(AluOp::Add, Form::Pair) })
    } else if opcode == 0x42 {
        Some(Entry { mnemonic: "ADD", shape: Shape::RxRyRz, action: Action::Math(AluOp::Add, Form::Triple) })
    } else if opcode == 0x50 {
        Some(Entry { mnemonic: "SUBI", shape: Shape::RxHhll, action: Action::Math(AluOp::Sub, Form::Immediate) })
    } else if opcode == 0x51 {
        Some(Entry { mnemonic: "SUB", shape: Shape::RxRy, action: Action::Math(AluOp::Sub, Form::Pair) })
    } else if opcode == 0x52 {
        Some(Entry { mnemonic: "SUB", shape: Shape::RxRyRz, action: Action::Math(AluOp::Sub, Form::Triple) })
    } else if opcode == 0x53 {
        Some(Entry { mnemonic: "CMPI", shape: Shape::RxHhll, action: Action::Math(AluOp::Sub, Form::TestImmediate) })
    } else if opcode == 0x54 {
        Some(Entry { mnemonic: "CMP", shape: Shape::RxRy, action: Action::Math(AluOp::Sub, Form::TestPair) })
    } else if opcode == 0x60 {
        Some(Entry { mnemonic: "ANDI", shape: Shape::RxHhll, action: Action::Math(AluOp::And, Form::Immediate) })
    } else if opcode == 0x61 {
        Some(Entry { mnemonic: "AND", shape: Shape::RxRy, action: Action::Math(AluOp::And, Form::Pair) })
    } else if opcode == 0x62 {
        Some(Entry { mnemonic: "AND", shape: Shape::RxRyRz, action: Action::Math(AluOp::And, Form::Triple) })
    } else if opcode == 0x63 {
        Some(Entry { mnemonic: "TSTI", shape: Shape::RxHhll, action: Action::Math(AluOp::And, Form::TestImmediate) })
    } else if opcode == 0x64 {
        Some(Entry { mnemonic: "TST", shape: Shape::RxRy, action: Action::Math(AluOp::And, Form::TestPair) })
    } else if opcode == 0x70 {
        Some(Entry { mnemonic: "ORI", shape: Shape::RxHhll, action: Action::Math(AluOp::Or, Form::Immediate) })
    } else if opcode == 0x71 {
        Some(Entry { mnemonic: "OR", shape: Shape::RxRy, action: Action::Math(AluOp::Or, Form::Pair) })
    } else if opcode == 0x72 {
        Some(Entry { mnemonic: "OR", shape: Shape::RxRyRz, action: Action::Math(AluOp::Or, Form::Triple) })
    } else if opcode == 0x80 {
        Some(Entry { mnemonic: "XORI", shape: Shape::RxHhll, action: Action::Math(AluOp::Xor, Form::Immediate) })
    } else if opcode == 0x81 {
        Some(Entry { mnemonic: "XOR", shape: Shape::RxRy, action: Action::Math(AluOp::Xor, Form::Pair) })
    } else if opcode == 0x82 {
        Some(Entry { mnemonic: "XOR", shape: Shape::RxRyRz, action: Action::Math(AluOp::Xor, Form::Triple) })
    } else if opcode == 0x90 {
        Some(Entry { mnemonic: "MULI", shape: Shape::RxHhll, action: Action::Math(AluOp::Mul, Form::Immediate) })
    } else if opcode == 0x91 {
        Some(Entry { mnemonic: "MUL", shape: Shape::RxRy, action: Action::Math(AluOp::Mul, Form::Pair) })
    } else if opcode == 0x92 {
        Some(Entry { mnemonic: "MUL", shape: Shape::RxRyRz, action: Action::Math(AluOp::Mul, Form::Triple) })
    } else if opcode == 0xA0 {
        Some(Entry { mnemonic: "DIVI", shape: Shape::RxHhll, action: Action::Math(AluOp::Div, Form::Immediate) })
    } else if opcode == 0xA1 {
        Some(Entry { mnemonic: "DIV", shape: Shape::RxRy, action: Action::Math(AluOp::Div, Form::Pair) })
    } else if opcode == 0xA2 {
        Some(Entry { mnemonic: "DIV", shape: Shape::RxRyRz, action: Action::Math(AluOp::Div, Form::Triple) })
    } else if opcode == 0xA3 {
        Some(Entry { mnemonic: "MODI", shape: Shape::RxHhll, action: Action::Math(AluOp::Mod, Form::Immediate) })
    } else if opcode == 0xA4 {
        Some(Entry { mnemonic: "MOD", shape: Shape::RxRy, action: Action::Math(AluOp::Mod, Form::Pair) })
    } else if opcode == 0xA5 {
        Some(Entry { mnemonic: "MOD", shape: Shape::RxRyRz, action: Action::Math(AluOp::Mod, Form::Triple) })
    } else if opcode == 0xA6 {
        Some(Entry { mnemonic: "REMI", shape: Shape::RxHhll, action: Action::Math(AluOp::Rem, Form::Immediate) })
    } else if opcode == 0xA7 {
        Some(Entry { mnemonic: "REM", shape: Shape::RxRy, action: Action::Math(AluOp::Rem, Form::Pair) })
    } else if opcode == 0xA8 {
        Some(Entry { mnemonic: "REM", shape: Shape::RxRyRz, action: Action::Math(AluOp::Rem, Form::Triple) })
    } else if opcode == 0xB0 {
        Some(Entry { mnemonic: "SHL", shape: Shape::RxHhll, action: Action::Math(AluOp::Shl, Form::Immediate) })
    } else if opcode == 0xB1 {
        Some(Entry { mnemonic: "SHR", shape: Shape::RxHhll, action: Action::Math(AluOp::Shr, Form::Immediate) })
    } else if opcode == 0xB2 {
        Some(Entry { mnemonic: "SAR", shape: Shape::RxHhll, action: Action::Math(AluOp::Sar, Form::Immediate) })
    } else if opcode == 0xB3 {
        Some(Entry { mnemonic: "SHL", shape: Shape::RxRy, action: Action::Math(AluOp::Shl, Form::Pair) })
    } else if opcode == 0xB4 {
        Some(Entry { mnemonic: "SHR", shape: Shape::RxRy, action: Action::Math(AluOp::Shr, Form::Pair) })
    } else if opcode == 0xB5 {
        Some(Entry { mnemonic: "SAR", shape: Shape::RxRy, action: Action::Math(AluOp::Sar, Form::Pair) })
    } else if opcode == 0xC0 {
        Some(Entry { mnemonic: "PUSH", shape: Shape::Rx, action: Action::Push })
    } else if opcode == 0xC1 {
        Some(Entry { mnemonic: "POP", shape: Shape::Rx, action: Action::Pop })
    } else if opcode == 0xC2 {
        Some(Entry { mnemonic: "PUSHALL", shape: Shape::Bare, action: Action::PushAll })
    } else if opcode == 0xC3 {
        Some(Entry { mnemonic: "POPALL", shape: Shape::Bare, action: Action::PopAll })
    } else if opcode == 0xC4 {
        Some(Entry { mnemonic: "PUSHF", shape: Shape::Bare, action: Action::PushF })
    } else if opcode == 0xC5 {
        Some(Entry { mnemonic: "POPF", shape: Shape::Bare, action: Action::PopF })
    } else if opcode == 0xD0 {
        Some(Entry { mnemonic: "PAL", shape: Shape::Hhll, action: Action::Pal })
    } else if opcode == 0xD1 {
        Some(Entry { mnemonic: "PAL", shape: Shape::Rx, action: Action::PalR })
    } else if opcode == 0xE0 {
        Some(Entry { mnemonic: "NOTI", shape: Shape::RxHhll, action: Action::Math(AluOp::Not, Form::Immediate) })
    } else if opcode == 0xE1 {
        Some(Entry { mnemonic: "NOT", shape: Shape::Rx, action: Action::Math(AluOp::Not, Form::Own) })
    } else if opcode == 0xE2 {
        Some(Entry { mnemonic: "NOT", shape: Shape::RxRy, action: Action::Math(AluOp::Not, Form::Pair) })
    } else if opcode == 0xE3 {
        Some(Entry { mnemonic: "NEGI", shape: Shape::RxHhll, action: Action::Math(AluOp::Neg, Form::Immediate) })
    } else if opcode == 0xE4 {
        Some(Entry { mnemonic: "NEG", shape: Shape::Rx, action: Action::Math(AluOp::Neg, Form::Own) })
    } else if opcode == 0xE5 {
        Some(Entry { mnemonic: "NEG", shape: Shape::RxRy, action: Action::Math(AluOp::Neg, Form::Pair) })
    } else {
        None
    }
}

/// Look an opcode up in the table.
pub fn lookup(opcode: u8) -> (r: Option<Entry>)
    ensures
        r == spec_lookup(opcode),
{
    match opcode {
        0x00 => Some(Entry { mnemonic: "NOP", shape: Shape::Bare, action: Action::Nop }),
        0x01 => Some(Entry { mnemonic: "CLS", shape: Shape::Bare, action: Action::Cls }),
        0x02 => Some(Entry { mnemonic: "VBLNK", shape: Shape::Bare, action: Action::Vblnk }),
        0x03 => Some(Entry { mnemonic: "BGC", shape: Shape::Ll, action: Action::Bgc }),
        0x04 => Some(Entry { mnemonic: "SPR", shape: Shape::LlHh, action: Action::Spr }),
        0x05 => Some(Entry { mnemonic: "DRW", shape: Shape::RxRyHhll, action: Action::Drw }),
        0x06 => Some(Entry { mnemonic: "DRW", shape: Shape::RxRyRz, action: Action::DrwR }),
        0x07 => Some(Entry { mnemonic: "RND", shape: Shape::RxHhll, action: Action::Rnd }),
        0x08 => Some(Entry { mnemonic: "FLIP", shape: Shape::Hh, action: Action::Flip }),
        0x09 => Some(Entry { mnemonic: "SND0", shape: Shape::Bare, action: Action::Snd0 }),
        0x0A => Some(Entry { mnemonic: "SND1", shape: Shape::Hhll, action: Action::Tone(500) }),
        0x0B => Some(Entry { mnemonic: "SND2", shape: Shape::Hhll, action: Action::Tone(1000) }),
        0x0C => Some(Entry { mnemonic: "SND3", shape: Shape::Hhll, action: Action::Tone(1500) }),
        0x0D => Some(Entry { mnemonic: "SNP", shape: Shape::RxHhll, action: Action::Snp }),
        0x0E => Some(Entry { mnemonic: "SNG", shape: Shape::AdLlHh, action: Action::Sng }),
        0x10 => Some(Entry { mnemonic: "JMP", shape: Shape::Hhll, action: Action::Jmp }),
        0x11 => Some(Entry { mnemonic: "JMC", shape: Shape::Hhll, action: Action::Jmc }),
        0x12 => Some(Entry { mnemonic: "J", shape: Shape::CondHhll, action: Action::Jx }),
        0x13 => Some(Entry { mnemonic: "JME", shape: Shape::RxRyHhll, action: Action::Jme }),
        0x14 => Some(Entry { mnemonic: "CALL", shape: Shape::Hhll, action: Action::Call }),
        0x15 => Some(Entry { mnemonic: "RET", shape: Shape::Bare, action: Action::Ret }),
        0x16 => Some(Entry { mnemonic: "JMP_R", shape: Shape::Rx, action: Action::JmpR }),
        0x17 => Some(Entry { mnemonic: "C", shape: Shape::CondHhll, action: Action::Cx }),
        0x18 => Some(Entry { mnemonic: "CALL", shape: Shape::Rx, action: Action::CallR }),
        0x20 => Some(Entry { mnemonic: "LDI", shape: Shape::RxHhll, action: Action::LdiR }),
        0x21 => Some(Entry { mnemonic: "LDI", shape: Shape::Hhll, action: Action::LdiSp }),
        0x22 => Some(Entry { mnemonic: "LDM", shape: Shape::RxHhll, action: Action::Ldm }),
        0x23 => Some(Entry { mnemonic: "LDM", shape: Shape::RxRy, action: Action::LdmR }),
        0x24 => Some(Entry { mnemonic: "MOV", shape: Shape::RxRy, action: Action::Mov }),
        0x30 => Some(Entry { mnemonic: "STM", shape: Shape::RxHhll, action: Action::Stm }),
        0x31 => Some(Entry { mnemonic: "STM", shape: Shape::RxRy, action: Action::StmR }),
        0x40 => Some(Entry { mnemonic: "ADDI", shape: Shape::RxHhll, action: Action::Math(AluOp::Add, Form::Immediate) }),
        0x41 => Some(Entry { mnemonic: "ADD", shape: Shape::RxRy, action: Action::Math(AluOp::Add, Form::Pair) }),
        0x42 => Some(Entry { mnemonic: "ADD", shape: Shape::RxRyRz, action: Action::Math(AluOp::Add, Form::Triple) }),
        0x50 => Some(Entry { mnemonic: "SUBI", shape: Shape::RxHhll, action: Action::Math(AluOp::Sub, Form::Immediate) }),
        0x51 => Some(Entry { mnemonic: "SUB", shape: Shape::RxRy, action: Action::Math(AluOp::Sub, Form::Pair) }),
        0x52 => Some(Entry { mnemonic: "SUB", shape: Shape::RxRyRz, action: Action::Math(AluOp::Sub, Form::Triple) }),
        0x53 => Some(Entry { mnemonic: "CMPI", shape: Shape::RxHhll, action: Action::Math(AluOp::Sub, Form::TestImmediate) }),
        0x54 => Some(Entry { mnemonic: "CMP", shape: Shape::RxRy, action: Action::Math(AluOp::Sub, Form::TestPair) }),
        0x60 => Some(Entry { mnemonic: "ANDI", shape: Shape::RxHhll, action: Action::Math(AluOp::And, Form::Immediate) }),
        0x61 => Some(Entry { mnemonic: "AND", shape: Shape::RxRy, action: Action::Math(AluOp::And, Form::Pair) }),
        0x62 => Some(Entry { mnemonic: "AND", shape: Shape::RxRyRz, action: Action::Math(AluOp::And, Form::Triple) }),
        0x63 => Some(Entry { mnemonic: "TSTI", shape: Shape::RxHhll, action: Action::Math(AluOp::And, Form::TestImmediate) }),
        0x64 => Some(Entry { mnemonic: "TST", shape: Shape::RxRy, action: Action::Math(AluOp::And, Form::TestPair) }),
        0x70 => Some(Entry { mnemonic: "ORI", shape: Shape::RxHhll, action: Action::Math(AluOp::Or, Form::Immediate) }),
        0x71 => Some(Entry { mnemonic: "OR", shape: Shape::RxRy, action: Action::Math(AluOp::Or, Form::Pair) }),
        0x72 => Some(Entry { mnemonic: "OR", shape: Shape::RxRyRz, action: Action::Math(AluOp::Or, Form::Triple) }),
        0x80 => Some(Entry { mnemonic: "XORI", shape: Shape::RxHhll, action: Action::Math(AluOp::Xor, Form::Immediate) }),
        0x81 => Some(Entry { mnemonic: "XOR", shape: Shape::RxRy, action: Action::Math(AluOp::Xor, Form::Pair) }),
        0x82 => Some(Entry { mnemonic: "XOR", shape: Shape::RxRyRz, action: Action::Math(AluOp::Xor, Form::Triple) }),
        0x90 => Some(Entry { mnemonic: "MULI", shape: Shape::RxHhll, action: Action::Math(AluOp::Mul, Form::Immediate) }),
        0x91 => Some(Entry { mnemonic: "MUL", shape: Shape::RxRy, action: Action::Math(AluOp::Mul, Form::Pair) }),
        0x92 => Some(Entry { mnemonic: "MUL", shape: Shape::RxRyRz, action: Action::Math(AluOp::Mul, Form::Triple) }),
        0xA0 => Some(Entry { mnemonic: "DIVI", shape: Shape::RxHhll, action: Action::Math(AluOp::Div, Form::Immediate) }),
        0xA1 => Some(Entry { mnemonic: "DIV", shape: Shape::RxRy, action: Action::Math(AluOp::Div, Form::Pair) }),
        0xA2 => Some(Entry { mnemonic: "DIV", shape: Shape::RxRyRz, action: Action::Math(AluOp::Div, Form::Triple) }),
        0xA3 => Some(Entry { mnemonic: "MODI", shape: Shape::RxHhll, action: Action::Math(AluOp::Mod, Form::Immediate) }),
        0xA4 => Some(Entry { mnemonic: "MOD", shape: Shape::RxRy, action: Action::Math(AluOp::Mod, Form::Pair) }),
        0xA5 => Some(Entry { mnemonic: "MOD", shape: Shape::RxRyRz, action: Action::Math(AluOp::Mod, Form::Triple) }),
        0xA6 => Some(Entry { mnemonic: "REMI", shape: Shape::RxHhll, action: Action::Math(AluOp::Rem, Form::Immediate) }),
        0xA7 => Some(Entry { mnemonic: "REM", shape: Shape::RxRy, action: Action::Math(AluOp::Rem, Form::Pair) }),
        0xA8 => Some(Entry { mnemonic: "REM", shape: Shape::RxRyRz, action: Action::Math(AluOp::Rem, Form::Triple) }),
        0xB0 => Some(Entry { mnemonic: "SHL", shape: Shape::RxHhll, action: Action::Math(AluOp::Shl, Form::Immediate) }),
        0xB1 => Some(Entry { mnemonic: "SHR", shape: Shape::RxHhll, action: Action::Math(AluOp::Shr, Form::Immediate) }),
        0xB2 => Some(Entry { mnemonic: "SAR", shape: Shape::RxHhll, action: Action::Math(AluOp::Sar, Form::Immediate) }),
        0xB3 => Some(Entry { mnemonic: "SHL", shape: Shape::RxRy, action: Action::Math(AluOp::Shl, Form::Pair) }),
        0xB4 => Some(Entry { mnemonic: "SHR", shape: Shape::RxRy, action: Action::Math(AluOp::Shr, Form::Pair) }),
        0xB5 => Some(Entry { mnemonic: "SAR", shape: Shape::RxRy, action: Action::Math(AluOp::Sar, Form::Pair) }),
        0xC0 => Some(Entry { mnemonic: "PUSH", shape: Shape::Rx, action: Action::Push }),
        0xC1 => Some(Entry { mnemonic: "POP", shape: Shape::Rx, action: Action::Pop }),
        0xC2 => Some(Entry { mnemonic: "PUSHALL", shape: Shape::Bare, action: Action::PushAll }),
        0xC3 => Some(Entry { mnemonic: "POPALL", shape: Shape::Bare, action: Action::PopAll }),
        0xC4 => Some(Entry { mnemonic: "PUSHF", shape: Shape::Bare, action: Action::PushF }),
        0xC5 => Some(Entry { mnemonic: "POPF", shape: Shape::Bare, action: Action::PopF }),
        0xD0 => Some(Entry { mnemonic: "PAL", shape: Shape::Hhll, action: Action::Pal }),
        0xD1 => Some(Entry { mnemonic: "PAL", shape: Shape::Rx, action: Action::PalR }),
        0xE0 => Some(Entry { mnemonic: "NOTI", shape: Shape::RxHhll, action: Action::Math(AluOp::Not, Form::Immediate) }),
        0xE1 => Some(Entry { mnemonic: "NOT", shape: Shape::Rx, action: Action::Math(AluOp::Not, Form::Own) }),
        0xE2 => Some(Entry { mnemonic: "NOT", shape: Shape::RxRy, action: Action::Math(AluOp::Not, Form::Pair) }),
        0xE3 => Some(Entry { mnemonic: "NEGI", shape: Shape::RxHhll, action: Action::Math(AluOp::Neg, Form::Immediate) }),
        0xE4 => Some(Entry { mnemonic: "NEG", shape: Shape::Rx, action: Action::Math(AluOp::Neg, Form::Own) }),
        0xE5 => Some(Entry { mnemonic: "NEG", shape: Shape::RxRy, action: Action::Math(AluOp::Neg, Form::Pair) }),
        _ => None,
    }
}

} // verus!
