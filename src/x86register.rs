//! x86 registers: the register tables of each mode, and reads and writes
//! of a register expressed over the bits of its full register.
use vstd::prelude::*;
use crate::error::Error;
use crate::il::{BinOp, Block, Constant, Env, Expression, Operation, Scalar, evaluate, low_mask, run};

verus! {

// Register identifiers, numbered as the capstone disassembler numbers them.
pub const X86_REG_AH: u32 = 1;
pub const X86_REG_AL: u32 = 2;
pub const X86_REG_AX: u32 = 3;
pub const X86_REG_BH: u32 = 4;
pub const X86_REG_BL: u32 = 5;
pub const X86_REG_BP: u32 = 6;
pub const X86_REG_BPL: u32 = 7;
pub const X86_REG_BX: u32 = 8;
pub const X86_REG_CH: u32 = 9;
pub const X86_REG_CL: u32 = 10;
pub const X86_REG_CS: u32 = 11;
pub const X86_REG_CX: u32 = 12;
pub const X86_REG_DH: u32 = 13;
pub const X86_REG_DI: u32 = 14;
pub const X86_REG_DIL: u32 = 15;
pub const X86_REG_DL: u32 = 16;
pub const X86_REG_DS: u32 = 17;
pub const X86_REG_DX: u32 = 18;
pub const X86_REG_EAX: u32 = 19;
pub const X86_REG_EBP: u32 = 20;
pub const X86_REG_EBX: u32 = 21;
pub const X86_REG_ECX: u32 = 22;
pub const X86_REG_EDI: u32 = 23;
pub const X86_REG_EDX: u32 = 24;
pub const X86_REG_ES: u32 = 28;
pub const X86_REG_ESI: u32 = 29;
pub const X86_REG_ESP: u32 = 30;
pub const X86_REG_FS: u32 = 32;
pub const X86_REG_GS: u32 = 33;
pub const X86_REG_RAX: u32 = 35;
pub const X86_REG_RBP: u32 = 36;
pub const X86_REG_RBX: u32 = 37;
pub const X86_REG_RCX: u32 = 38;
pub const X86_REG_RDI: u32 = 39;
pub const X86_REG_RDX: u32 = 40;
pub const X86_REG_RSI: u32 = 43;
pub const X86_REG_RSP: u32 = 44;
pub const X86_REG_SI: u32 = 45;
pub const X86_REG_SIL: u32 = 46;
pub const X86_REG_SP: u32 = 47;
pub const X86_REG_SS: u32 = 49;
pub const X86_REG_R8: u32 = 106;
pub const X86_REG_R9: u32 = 107;
pub const X86_REG_R10: u32 = 108;
pub const X86_REG_R11: u32 = 109;
pub const X86_REG_R12: u32 = 110;
pub const X86_REG_R13: u32 = 111;
pub const X86_REG_R14: u32 = 112;
pub const X86_REG_R15: u32 = 113;
pub const X86_REG_XMM0: u32 = 122;
pub const X86_REG_XMM1: u32 = 123;
pub const X86_REG_XMM2: u32 = 124;
pub const X86_REG_XMM3: u32 = 125;
pub const X86_REG_XMM4: u32 = 126;
pub const X86_REG_XMM5: u32 = 127;
pub const X86_REG_XMM6: u32 = 128;
pub const X86_REG_XMM7: u32 = 129;
pub const X86_REG_XMM8: u32 = 130;
pub const X86_REG_XMM9: u32 = 131;
pub const X86_REG_XMM10: u32 = 132;
pub const X86_REG_XMM11: u32 = 133;
pub const X86_REG_XMM12: u32 = 134;
pub const X86_REG_XMM13: u32 = 135;
pub const X86_REG_XMM14: u32 = 136;
pub const X86_REG_XMM15: u32 = 137;
pub const X86_REG_XMM16: u32 = 138;
pub const X86_REG_XMM17: u32 = 139;
pub const X86_REG_XMM18: u32 = 140;
pub const X86_REG_XMM19: u32 = 141;
pub const X86_REG_XMM20: u32 = 142;
pub const X86_REG_XMM21: u32 = 143;
pub const X86_REG_XMM22: u32 = 144;
pub const X86_REG_XMM23: u32 = 145;
pub const X86_REG_XMM24: u32 = 146;
pub const X86_REG_XMM25: u32 = 147;
pub const X86_REG_XMM26: u32 = 148;
pub const X86_REG_XMM27: u32 = 149;
pub const X86_REG_XMM28: u32 = 150;
pub const X86_REG_XMM29: u32 = 151;
pub const X86_REG_XMM30: u32 = 152;
pub const X86_REG_XMM31: u32 = 153;
pub const X86_REG_R8B: u32 = 218;
pub const X86_REG_R9B: u32 = 219;
pub const X86_REG_R10B: u32 = 220;
pub const X86_REG_R11B: u32 = 221;
pub const X86_REG_R12B: u32 = 222;
pub const X86_REG_R13B: u32 = 223;
pub const X86_REG_R14B: u32 = 224;
pub const X86_REG_R15B: u32 = 225;
pub const X86_REG_R8D: u32 = 226;
pub const X86_REG_R9D: u32 = 227;
pub const X86_REG_R10D: u32 = 228;
pub const X86_REG_R11D: u32 = 229;
pub const X86_REG_R12D: u32 = 230;
pub const X86_REG_R13D: u32 = 231;
pub const X86_REG_R14D: u32 = 232;
pub const X86_REG_R15D: u32 = 233;
pub const X86_REG_R8W: u32 = 234;
pub const X86_REG_R9W: u32 = 235;
pub const X86_REG_R10W: u32 = 236;
pub const X86_REG_R11W: u32 = 237;
pub const X86_REG_R12W: u32 = 238;
pub const X86_REG_R13W: u32 = 239;
pub const X86_REG_R14W: u32 = 240;
pub const X86_REG_R15W: u32 = 241;

/// The processor mode that a register table belongs to.
#[derive(Clone, Copy, Debug, PartialEq, Eq, Structural)]
pub enum Mode {
    X86,
    Amd64,
}

/// An x86 register: a range of bits of its full register.
#[derive(Clone, Copy, Debug)]
pub struct X86Register {
    pub name: &'static str,
    /// The register's identifier.
    pub capstone_reg: u32,
    /// The identifier of the full register; eax is the full register of al
    /// in the x86 mode.
    pub full_reg: u32,
    /// The offset of this register in its full register; ah starts 8 bits
    /// into eax.
    pub offset: usize,
    /// The width of this register in bits.
    pub bits: usize,
    /// The mode of this register.
    pub mode: Mode,
}

/// The register table of the x86 mode.
pub open spec fn x86_table() -> Seq<X86Register> {
    seq![
        X86Register { name: "ah", capstone_reg: X86_REG_AH, full_reg: X86_REG_EAX, offset: 8, bits: 8, mode: Mode::X86 },
        X86Register { name: "al", capstone_reg: X86_REG_AL, full_reg: X86_REG_EAX, offset: 0, bits: 8, mode: Mode::X86 },
        X86Register { name: "ax", capstone_reg: X86_REG_AX, full_reg: X86_REG_EAX, offset: 0, bits: 16, mode: Mode::X86 },
        X86Register { name: "eax", capstone_reg: X86_REG_EAX, full_reg: X86_REG_EAX, offset: 0, bits: 32, mode: Mode::X86 },
        X86Register { name: "bh", capstone_reg: X86_REG_BH, full_reg: X86_REG_EBX, offset: 8, bits: 8, mode: Mode::X86 },
        X86Register { name: "bl", capstone_reg: X86_REG_BL, full_reg: X86_REG_EBX, offset: 0, bits: 8, mode: Mode::X86 },
        X86Register { name: "bx", capstone_reg: X86_REG_BX, full_reg: X86_REG_EBX, offset: 0, bits: 16, mode: Mode::X86 },
        X86Register { name: "ebx", capstone_reg: X86_REG_EBX, full_reg: X86_REG_EBX, offset: 0, bits: 32, mode: Mode::X86 },
        X86Register { name: "ch", capstone_reg: X86_REG_CH, full_reg: X86_REG_ECX, offset: 8, bits: 8, mode: Mode::X86 },
        X86Register { name: "cl", capstone_reg: X86_REG_CL, full_reg: X86_REG_ECX, offset: 0, bits: 8, mode: Mode::X86 },
        X86Register { name: "cx", capstone_reg: X86_REG_CX, full_reg: X86_REG_ECX, offset: 0, bits: 16, mode: Mode::X86 },
        X86Register { name: "ecx", capstone_reg: X86_REG_ECX, full_reg: X86_REG_ECX, offset: 0, bits: 32, mode: Mode::X86 },
        X86Register { name: "dh", capstone_reg: X86_REG_DH, full_reg: X86_REG_EDX, offset: 8, bits: 8, mode: Mode::X86 },
        X86Register { name: "dl", capstone_reg: X86_REG_DL, full_reg: X86_REG_EDX, offset: 0, bits: 8, mode: Mode::X86 },
        X86Register { name: "dx", capstone_reg: X86_REG_DX, full_reg: X86_REG_EDX, offset: 0, bits: 16, mode: Mode::X86 },
        X86Register { name: "edx", capstone_reg: X86_REG_EDX, full_reg: X86_REG_EDX, offset: 0, bits: 32, mode: Mode::X86 },
        X86Register { name: "si", capstone_reg: X86_REG_SI, full_reg: X86_REG_ESI, offset: 0, bits: 16, mode: Mode::X86 },
        X86Register { name: "esi", capstone_reg: X86_REG_ESI, full_reg: X86_REG_ESI, offset: 0, bits: 32, mode: Mode::X86 },
        X86Register { name: "di", capstone_reg: X86_REG_DI, full_reg: X86_REG_EDI, offset: 0, bits: 16, mode: Mode::X86 },
        X86Register { name: "edi", capstone_reg: X86_REG_EDI, full_reg: X86_REG_EDI, offset: 0, bits: 32, mode: Mode::X86 },
        X86Register { name: "sp", capstone_reg: X86_REG_SP, full_reg: X86_REG_ESP, offset: 0, bits: 16, mode: Mode::X86 },
        X86Register { name: "esp", capstone_reg: X86_REG_ESP, full_reg: X86_REG_ESP, offset: 0, bits: 32, mode: Mode::X86 },
        X86Register { name: "bp", capstone_reg: X86_REG_BP, full_reg: X86_REG_EBP, offset: 0, bits: 16, mode: Mode::X86 },
        X86Register { name: "ebp", capstone_reg: X86_REG_EBP, full_reg: X86_REG_EBP, offset: 0, bits: 32, mode: Mode::X86 },
        X86Register { name: "fs_base", capstone_reg: X86_REG_FS, full_reg: X86_REG_FS, offset: 0, bits: 32, mode: Mode::X86 },
        X86Register { name: "gs_base", capstone_reg: X86_REG_GS, full_reg: X86_REG_GS, offset: 0, bits: 32, mode: Mode::X86 },
        X86Register { name: "ds_base", capstone_reg: X86_REG_DS, full_reg: X86_REG_DS, offset: 0, bits: 32, mode: Mode::X86 },
        X86Register { name: "es_base", capstone_reg: X86_REG_ES, full_reg: X86_REG_ES, offset: 0, bits: 32, mode: Mode::X86 },
        X86Register { name: "cs_base", capstone_reg: X86_REG_CS, full_reg: X86_REG_CS, offset: 0, bits: 32, mode: Mode::X86 },
        X86Register { name: "ss_base", capstone_reg: X86_REG_SS, full_reg: X86_REG_SS, offset: 0, bits: 32, mode: Mode::X86 },
    ]
}

/// The register table of the amd64 mode.
pub open spec fn amd64_table() -> Seq<X86Register> {
    seq![
        X86Register { name: "ah", capstone_reg: X86_REG_AH, full_reg: X86_REG_RAX, offset: 8, bits: 8, mode: Mode::Amd64 },
        X86Register { name: "al", capstone_reg: X86_REG_AL, full_reg: X86_REG_RAX, offset: 0, bits: 8, mode: Mode::Amd64 },
        X86Register { name: "ax", capstone_reg: X86_REG_AX, full_reg: X86_REG_RAX, offset: 0, bits: 16, mode: Mode::Amd64 },
        X86Register { name: "eax", capstone_reg: X86_REG_EAX, full_reg: X86_REG_RAX, offset: 0, bits: 32, mode: Mode::Amd64 },
        X86Register { name: "rax", capstone_reg: X86_REG_RAX, full_reg: X86_REG_RAX, offset: 0, bits: 64, mode: Mode::Amd64 },
        X86Register { name: "bh", capstone_reg: X86_REG_BH, full_reg: X86_REG_RBX, offset: 8, bits: 8, mode: Mode::Amd64 },
        X86Register { name: "bl", capstone_reg: X86_REG_BL, full_reg: X86_REG_RBX, offset: 0, bits: 8, mode: Mode::Amd64 },
        X86Register { name: "bx", capstone_reg: X86_REG_BX, full_reg: X86_REG_RBX, offset: 0, bits: 16, mode: Mode::Amd64 },
        X86Register { name: "ebx", capstone_reg: X86_REG_EBX, full_reg: X86_REG_RBX, offset: 0, bits: 32, mode: Mode::Amd64 },
        X86Register { name: "rbx", capstone_reg: X86_REG_RBX, full_reg: X86_REG_RBX, offset: 0, bits: 64, mode: Mode::Amd64 },
        X86Register { name: "ch", capstone_reg: X86_REG_CH, full_reg: X86_REG_RCX, offset: 8, bits: 8, mode: Mode::Amd64 },
        X86Register { name: "cl", capstone_reg: X86_REG_CL, full_reg: X86_REG_RCX, offset: 0, bits: 8, mode: Mode::Amd64 },
        X86Register { name: "cx", capstone_reg: X86_REG_CX, full_reg: X86_REG_RCX, offset: 0, bits: 16, mode: Mode::Amd64 },
        X86Register { name: "ecx", capstone_reg: X86_REG_ECX, full_reg: X86_REG_RCX, offset: 0, bits: 32, mode: Mode::Amd64 },
        X86Register { name: "rcx", capstone_reg: X86_REG_RCX, full_reg: X86_REG_RCX, offset: 0, bits: 64, mode: Mode::Amd64 },
        X86Register { name: "dh", capstone_reg: X86_REG_DH, full_reg: X86_REG_RDX, offset: 8, bits: 8, mode: Mode::Amd64 },
        X86Register { name: "dl", capstone_reg: X86_REG_DL, full_reg: X86_REG_RDX, offset: 0, bits: 8, mode: Mode::Amd64 },
        X86Register { name: "dx", capstone_reg: X86_REG_DX, full_reg: X86_REG_RDX, offset: 0, bits: 16, mode: Mode::Amd64 },
        X86Register { name: "edx", capstone_reg: X86_REG_EDX, full_reg: X86_REG_RDX, offset: 0, bits: 32, mode: Mode::Amd64 },
        X86Register { name: "rdx", capstone_reg: X86_REG_RDX, full_reg: X86_REG_RDX, offset: 0, bits: 64, mode: Mode::Amd64 },
        X86Register { name: "sil", capstone_reg: X86_REG_SIL, full_reg: X86_REG_RSI, offset: 0, bits: 8, mode: Mode::Amd64 },
        X86Register { name: "si", capstone_reg: X86_REG_SI, full_reg: X86_REG_RSI, offset: 0, bits: 16, mode: Mode::Amd64 },
        X86Register { name: "esi", capstone_reg: X86_REG_ESI, full_reg: X86_REG_RSI, offset: 0, bits: 32, mode: Mode::Amd64 },
        X86Register { name: "rsi", capstone_reg: X86_REG_RSI, full_reg: X86_REG_RSI, offset: 0, bits: 64, mode: Mode::Amd64 },
        X86Register { name: "dil", capstone_reg: X86_REG_DIL, full_reg: X86_REG_RDI, offset: 0, bits: 8, mode: Mode::Amd64 },
        X86Register { name: "di", capstone_reg: X86_REG_DI, full_reg: X86_REG_RDI, offset: 0, bits: 16, mode: Mode::Amd64 },
        X86Register { name: "edi", capstone_reg: X86_REG_EDI, full_reg: X86_REG_RDI, offset: 0, bits: 32, mode: Mode::Amd64 },
        X86Register { name: "rdi", capstone_reg: X86_REG_RDI, full_reg: X86_REG_RDI, offset: 0, bits: 64, mode: Mode::Amd64 },
        X86Register { name: "sp", capstone_reg: X86_REG_SP, full_reg: X86_REG_RSP, offset: 0, bits: 16, mode: Mode::Amd64 },
        X86Register { name: "esp", capstone_reg: X86_REG_ESP, full_reg: X86_REG_RSP, offset: 0, bits: 32, mode: Mode::Amd64 },
        X86Register { name: "rsp", capstone_reg: X86_REG_RSP, full_reg: X86_REG_RSP, offset: 0, bits: 64, mode: Mode::Amd64 },
        X86Register { name: "bpl", capstone_reg: X86_REG_BPL, full_reg: X86_REG_RBP, offset: 0, bits: 8, mode: Mode::Amd64 },
        X86Register { name: "bp", capstone_reg: X86_REG_BP, full_reg: X86_REG_RBP, offset: 0, bits: 16, mode: Mode::Amd64 },
        X86Register { name: "ebp", capstone_reg: X86_REG_EBP, full_reg: X86_REG_RBP, offset: 0, bits: 32, mode: Mode::Amd64 },
        X86Register { name: "rbp", capstone_reg: X86_REG_RBP, full_reg: X86_REG_RBP, offset: 0, bits: 64, mode: Mode::Amd64 },
        X86Register { name: "r8b", capstone_reg: X86_REG_R8B, full_reg: X86_REG_R8, offset: 0, bits: 8, mode: Mode::Amd64 },
        X86Register { name: "r8w", capstone_reg: X86_REG_R8W, full_reg: X86_REG_R8, offset: 0, bits: 16, mode: Mode::Amd64 },
        X86Register { name: "r8d", capstone_reg: X86_REG_R8D, full_reg: X86_REG_R8, offset: 0, bits: 32, mode: Mode::Amd64 },
        X86Register { name: "r8", capstone_reg: X86_REG_R8, full_reg: X86_REG_R8, offset: 0, bits: 64, mode: Mode::Amd64 },
        X86Register { name: "r9b", capstone_reg: X86_REG_R9B, full_reg: X86_REG_R9, offset: 0, bits: 8, mode: Mode::Amd64 },
        X86Register { name: "r9w", capstone_reg: X86_REG_R9W, full_reg: X86_REG_R9, offset: 0, bits: 16, mode: Mode::Amd64 },
        X86Register { name: "r9d", capstone_reg: X86_REG_R9D, full_reg: X86_REG_R9, offset: 0, bits: 32, mode: Mode::Amd64 },
        X86Register { name: "r9", capstone_reg: X86_REG_R9, full_reg: X86_REG_R9, offset: 0, bits: 64, mode: Mode::Amd64 },
        X86Register { name: "r10b", capstone_reg: X86_REG_R10B, full_reg: X86_REG_R10, offset: 0, bits: 8, mode: Mode::Amd64 },
        X86Register { name: "r10w", capstone_reg: X86_REG_R10W, full_reg: X86_REG_R10, offset: 0, bits: 16, mode: Mode::Amd64 },
        X86Register { name: "r10d", capstone_reg: X86_REG_R10D, full_reg: X86_REG_R10, offset: 0, bits: 32, mode: Mode::Amd64 },
        X86Register { name: "r10", capstone_reg: X86_REG_R10, full_reg: X86_REG_R10, offset: 0, bits: 64, mode: Mode::Amd64 },
        X86Register { name: "r11b", capstone_reg: X86_REG_R11B, full_reg: X86_REG_R11, offset: 0, bits: 8, mode: Mode::Amd64 },
        X86Register { name: "r11w", capstone_reg: X86_REG_R11W, full_reg: X86_REG_R11, offset: 0, bits: 16, mode: Mode::Amd64 },
        X86Register { name: "r11d", capstone_reg: X86_REG_R11D, full_reg: X86_REG_R11, offset: 0, bits: 32, mode: Mode::Amd64 },
        X86Register { name: "r11", capstone_reg: X86_REG_R11, full_reg: X86_REG_R11, offset: 0, bits: 64, mode: Mode::Amd64 },
        X86Register { name: "r12b", capstone_reg: X86_REG_R12B, full_reg: X86_REG_R12, offset: 0, bits: 8, mode: Mode::Amd64 },
        X86Register { name: "r12w", capstone_reg: X86_REG_R12W, full_reg: X86_REG_R12, offset: 0, bits: 16, mode: Mode::Amd64 },
        X86Register { name: "r12d", capstone_reg: X86_REG_R12D, full_reg: X86_REG_R12, offset: 0, bits: 32, mode: Mode::Amd64 },
        X86Register { name: "r12", capstone_reg: X86_REG_R12, full_reg: X86_REG_R12, offset: 0, bits: 64, mode: Mode::Amd64 },
        X86Register { name: "r13b", capstone_reg: X86_REG_R13B, full_reg: X86_REG_R13, offset: 0, bits: 8, mode: Mode::Amd64 },
        X86Register { name: "r13w", capstone_reg: X86_REG_R13W, full_reg: X86_REG_R13, offset: 0, bits: 16, mode: Mode::Amd64 },
        X86Register { name: "r13d", capstone_reg: X86_REG_R13D, full_reg: X86_REG_R13, offset: 0, bits: 32, mode: Mode::Amd64 },
        X86Register { name: "r13", capstone_reg: X86_REG_R13, full_reg: X86_REG_R13, offset: 0, bits: 64, mode: Mode::Amd64 },
        X86Register { name: "r14b", capstone_reg: X86_REG_R14B, full_reg: X86_REG_R14, offset: 0, bits: 8, mode: Mode::Amd64 },
        X86Register { name: "r14w", capstone_reg: X86_REG_R14W, full_reg: X86_REG_R14, offset: 0, bits: 16, mode: Mode::Amd64 },
        X86Register { name: "r14d", capstone_reg: X86_REG_R14D, full_reg: X86_REG_R14, offset: 0, bits: 32, mode: Mode::Amd64 },
        X86Register { name: "r14", capstone_reg: X86_REG_R14, full_reg: X86_REG_R14, offset: 0, bits: 64, mode: Mode::Amd64 },
        X86Register { name: "r15b", capstone_reg: X86_REG_R15B, full_reg: X86_REG_R15, offset: 0, bits: 8, mode: Mode::Amd64 },
        X86Register { name: "r15w", capstone_reg: X86_REG_R15W, full_reg: X86_REG_R15, offset: 0, bits: 16, mode: Mode::Amd64 },
        X86Register { name: "r15d", capstone_reg: X86_REG_R15D, full_reg: X86_REG_R15, offset: 0, bits: 32, mode: Mode::Amd64 },
        X86Register { name: "r15", capstone_reg: X86_REG_R15, full_reg: X86_REG_R15, offset: 0, bits: 64, mode: Mode::Amd64 },
        X86Register { name: "fs_base", capstone_reg: X86_REG_FS, full_reg: X86_REG_FS, offset: 0, bits: 64, mode: Mode::Amd64 },
        X86Register { name: "gs_base", capstone_reg: X86_REG_GS, full_reg: X86_REG_GS, offset: 0, bits: 64, mode: Mode::Amd64 },
        X86Register { name: "ds_base", capstone_reg: X86_REG_DS, full_reg: X86_REG_DS, offset: 0, bits: 64, mode: Mode::Amd64 },
        X86Register { name: "es_base", capstone_reg: X86_REG_ES, full_reg: X86_REG_ES, offset: 0, bits: 64, mode: Mode::Amd64 },
        X86Register { name: "cs_base", capstone_reg: X86_REG_CS, full_reg: X86_REG_CS, offset: 0, bits: 64, mode: Mode::Amd64 },
        X86Register { name: "ss_base", capstone_reg: X86_REG_SS, full_reg: X86_REG_SS, offset: 0, bits: 64, mode: Mode::Amd64 },
        X86Register { name: "xmm0", capstone_reg: X86_REG_XMM0, full_reg: X86_REG_XMM0, offset: 0, bits: 128, mode: Mode::Amd64 },
        X86Register { name: "xmm1", capstone_reg: X86_REG_XMM1, full_reg: X86_REG_XMM1, offset: 0, bits: 128, mode: Mode::Amd64 },
        X86Register { name: "xmm2", capstone_reg: X86_REG_XMM2, full_reg: X86_REG_XMM2, offset: 0, bits: 128, mode: Mode::Amd64 },
        X86Register { name: "xmm3", capstone_reg: X86_REG_XMM3, full_reg: X86_REG_XMM3, offset: 0, bits: 128, mode: Mode::Amd64 },
        X86Register { name: "xmm4", capstone_reg: X86_REG_XMM4, full_reg: X86_REG_XMM4, offset: 0, bits: 128, mode: Mode::Amd64 },
        X86Register { name: "xmm5", capstone_reg: X86_REG_XMM5, full_reg: X86_REG_XMM5, offset: 0, bits: 128, mode: Mode::Amd64 },
        X86Register { name: "xmm6", capstone_reg: X86_REG_XMM6, full_reg: X86_REG_XMM6, offset: 0, bits: 128, mode: Mode::Amd64 },
        X86Register { name: "xmm7", capstone_reg: X86_REG_XMM7, full_reg: X86_REG_XMM7, offset: 0, bits: 128, mode: Mode::Amd64 },
        X86Register { name: "xmm8", capstone_reg: X86_REG_XMM8, full_reg: X86_REG_XMM8, offset: 0, bits: 128, mode: Mode::Amd64 },
        X86Register { name: "xmm9", capstone_reg: X86_REG_XMM9, full_reg: X86_REG_XMM9, offset: 0, bits: 128, mode: Mode::Amd64 },
        X86Register { name: "xmm10", capstone_reg: X86_REG_XMM10, full_reg: X86_REG_XMM10, offset: 0, bits: 128, mode: Mode::Amd64 },
        X86Register { name: "xmm11", capstone_reg: X86_REG_XMM11, full_reg: X86_REG_XMM11, offset: 0, bits: 128, mode: Mode::Amd64 },
        X86Register { name: "xmm12", capstone_reg: X86_REG_XMM12, full_reg: X86_REG_XMM12, offset: 0, bits: 128, mode: Mode::Amd64 },
        X86Register { name: "xmm13", capstone_reg: X86_REG_XMM13, full_reg: X86_REG_XMM13, offset: 0, bits: 128, mode: Mode::Amd64 },
        X86Register { name: "xmm14", capstone_reg: X86_REG_XMM14, full_reg: X86_REG_XMM14, offset: 0, bits: 128, mode: Mode::Amd64 },
        X86Register { name: "xmm15", capstone_reg: X86_REG_XMM15, full_reg: X86_REG_XMM15, offset: 0, bits: 128, mode: Mode::Amd64 },
        X86Register { name: "xmm16", capstone_reg: X86_REG_XMM16, full_reg: X86_REG_XMM16, offset: 0, bits: 128, mode: Mode::Amd64 },
        X86Register { name: "xmm17", capstone_reg: X86_REG_XMM17, full_reg: X86_REG_XMM17, offset: 0, bits: 128, mode: Mode::Amd64 },
        X86Register { name: "xmm18", capstone_reg: X86_REG_XMM18, full_reg: X86_REG_XMM18, offset: 0, bits: 128, mode: Mode::Amd64 },
        X86Register { name: "xmm19", capstone_reg: X86_REG_XMM19, full_reg: X86_REG_XMM19, offset: 0, bits: 128, mode: Mode::Amd64 },
        X86Register { name: "xmm20", capstone_reg: X86_REG_XMM20, full_reg: X86_REG_XMM20, offset: 0, bits: 128, mode: Mode::Amd64 },
        X86Register { name: "xmm21", capstone_reg: X86_REG_XMM21, full_reg: X86_REG_XMM21, offset: 0, bits: 128, mode: Mode::Amd64 },
        X86Register { name: "xmm22", capstone_reg: X86_REG_XMM22, full_reg: X86_REG_XMM22, offset: 0, bits: 128, mode: Mode::Amd64 },
        X86Register { name: "xmm23", capstone_reg: X86_REG_XMM23, full_reg: X86_REG_XMM23, offset: 0, bits: 128, mode: Mode::Amd64 },
        X86Register { name: "xmm24", capstone_reg: X86_REG_XMM24, full_reg: X86_REG_XMM24, offset: 0, bits: 128, mode: Mode::Amd64 },
        X86Register { name: "xmm25", capstone_reg: X86_REG_XMM25, full_reg: X86_REG_XMM25, offset: 0, bits: 128, mode: Mode::Amd64 },
        X86Register { name: "xmm26", capstone_reg: X86_REG_XMM26, full_reg: X86_REG_XMM26, offset: 0, bits: 128, mode: Mode::Amd64 },
        X86Register { name: "xmm27", capstone_reg: X86_REG_XMM27, full_reg: X86_REG_XMM27, offset: 0, bits: 128, mode: Mode::Amd64 },
        X86Register { name: "xmm28", capstone_reg: X86_REG_XMM28, full_reg: X86_REG_XMM28, offset: 0, bits: 128, mode: Mode::Amd64 },
        X86Register { name: "xmm29", capstone_reg: X86_REG_XMM29, full_reg: X86_REG_XMM29, offset: 0, bits: 128, mode: Mode::Amd64 },
        X86Register { name: "xmm30", capstone_reg: X86_REG_XMM30, full_reg: X86_REG_XMM30, offset: 0, bits: 128, mode: Mode::Amd64 },
        X86Register { name: "xmm31", capstone_reg: X86_REG_XMM31, full_reg: X86_REG_XMM31, offset: 0, bits: 128, mode: Mode::Amd64 },
    ]
}

/// The register table of `mode`.
pub open spec fn table(mode: Mode) -> Seq<X86Register> {
    match mode {
        Mode::X86 => x86_table(),
        Mode::Amd64 => amd64_table(),
    }
}

/// The register table of `mode`.
#[verifier::rlimit(50)]
fn registers(mode: Mode) -> (r: Vec<X86Register>)
    ensures
        r@ == table(mode),
{
    match mode {
        Mode::X86 => {
            let v = vec![
                X86Register { name: "ah", capstone_reg: X86_REG_AH, full_reg: X86_REG_EAX, offset: 8, bits: 8, mode: Mode::X86 },
                X86Register { name: "al", capstone_reg: X86_REG_AL, full_reg: X86_REG_EAX, offset: 0, bits: 8, mode: Mode::X86 },
                X86Register { name: "ax", capstone_reg: X86_REG_AX, full_reg: X86_REG_EAX, offset: 0, bits: 16, mode: Mode::X86 },
                X86Register { name: "eax", capstone_reg: X86_REG_EAX, full_reg: X86_REG_EAX, offset: 0, bits: 32, mode: Mode::X86 },
                X86Register { name: "bh", capstone_reg: X86_REG_BH, full_reg: X86_REG_EBX, offset: 8, bits: 8, mode: Mode::X86 },
                X86Register { name: "bl", capstone_reg: X86_REG_BL, full_reg: X86_REG_EBX, offset: 0, bits: 8, mode: Mode::X86 },
                X86Register { name: "bx", capstone_reg: X86_REG_BX, full_reg: X86_REG_EBX, offset: 0, bits: 16, mode: Mode::X86 },
                X86Register { name: "ebx", capstone_reg: X86_REG_EBX, full_reg: X86_REG_EBX, offset: 0, bits: 32, mode: Mode::X86 },
                X86Register { name: "ch", capstone_reg: X86_REG_CH, full_reg: X86_REG_ECX, offset: 8, bits: 8, mode: Mode::X86 },
                X86Register { name: "cl", capstone_reg: X86_REG_CL, full_reg: X86_REG_ECX, offset: 0, bits: 8, mode: Mode::X86 },
                X86Register { name: "cx", capstone_reg: X86_REG_CX, full_reg: X86_REG_ECX, offset: 0, bits: 16, mode: Mode::X86 },
                X86Register { name: "ecx", capstone_reg: X86_REG_ECX, full_reg: X86_REG_ECX, offset: 0, bits: 32, mode: Mode::X86 },
                X86Register { name: "dh", capstone_reg: X86_REG_DH, full_reg: X86_REG_EDX, offset: 8, bits: 8, mode: Mode::X86 },
                X86Register { name: "dl", capstone_reg: X86_REG_DL, full_reg: X86_REG_EDX, offset: 0, bits: 8, mode: Mode::X86 },
                X86Register { name: "dx", capstone_reg: X86_REG_DX, full_reg: X86_REG_EDX, offset: 0, bits: 16, mode: Mode::X86 },
                X86Register { name: "edx", capstone_reg: X86_REG_EDX, full_reg: X86_REG_EDX, offset: 0, bits: 32, mode: Mode::X86 },
                X86Register { name: "si", capstone_reg: X86_REG_SI, full_reg: X86_REG_ESI, offset: 0, bits: 16, mode: Mode::X86 },
                X86Register { name: "esi", capstone_reg: X86_REG_ESI, full_reg: X86_REG_ESI, offset: 0, bits: 32, mode: Mode::X86 },
                X86Register { name: "di", capstone_reg: X86_REG_DI, full_reg: X86_REG_EDI, offset: 0, bits: 16, mode: Mode::X86 },
                X86Register { name: "edi", capstone_reg: X86_REG_EDI, full_reg: X86_REG_EDI, offset: 0, bits: 32, mode: Mode::X86 },
                X86Register { name: "sp", capstone_reg: X86_REG_SP, full_reg: X86_REG_ESP, offset: 0, bits: 16, mode: Mode::X86 },
                X86Register { name: "esp", capstone_reg: X86_REG_ESP, full_reg: X86_REG_ESP, offset: 0, bits: 32, mode: Mode::X86 },
                X86Register { name: "bp", capstone_reg: X86_REG_BP, full_reg: X86_REG_EBP, offset: 0, bits: 16, mode: Mode::X86 },
                X86Register { name: "ebp", capstone_reg: X86_REG_EBP, full_reg: X86_REG_EBP, offset: 0, bits: 32, mode: Mode::X86 },
                X86Register { name: "fs_base", capstone_reg: X86_REG_FS, full_reg: X86_REG_FS, offset: 0, bits: 32, mode: Mode::X86 },
                X86Register { name: "gs_base", capstone_reg: X86_REG_GS, full_reg: X86_REG_GS, offset: 0, bits: 32, mode: Mode::X86 },
                X86Register { name: "ds_base", capstone_reg: X86_REG_DS, full_reg: X86_REG_DS, offset: 0, bits: 32, mode: Mode::X86 },
                X86Register { name: "es_base", capstone_reg: X86_REG_ES, full_reg: X86_REG_ES, offset: 0, bits: 32, mode: Mode::X86 },
                X86Register { name: "cs_base", capstone_reg: X86_REG_CS, full_reg: X86_REG_CS, offset: 0, bits: 32, mode: Mode::X86 },
                X86Register { name: "ss_base", capstone_reg: X86_REG_SS, full_reg: X86_REG_SS, offset: 0, bits: 32, mode: Mode::X86 },
            ];
            assert(v@ =~= x86_table());
            v
        },
        Mode::Amd64 => {
            let v = vec![
                X86Register { name: "ah", capstone_reg: X86_REG_AH, full_reg: X86_REG_RAX, offset: 8, bits: 8, mode: Mode::Amd64 },
                X86Register { name: "al", capstone_reg: X86_REG_AL, full_reg: X86_REG_RAX, offset: 0, bits: 8, mode: Mode::Amd64 },
                X86Register { name: "ax", capstone_reg: X86_REG_AX, full_reg: X86_REG_RAX, offset: 0, bits: 16, mode: Mode::Amd64 },
                X86Register { name: "eax", capstone_reg: X86_REG_EAX, full_reg: X86_REG_RAX, offset: 0, bits: 32, mode: Mode::Amd64 },
                X86Register { name: "rax", capstone_reg: X86_REG_RAX, full_reg: X86_REG_RAX, offset: 0, bits: 64, mode: Mode::Amd64 },
                X86Register { name: "bh", capstone_reg: X86_REG_BH, full_reg: X86_REG_RBX, offset: 8, bits: 8, mode: Mode::Amd64 },
                X86Register { name: "bl", capstone_reg: X86_REG_BL, full_reg: X86_REG_RBX, offset: 0, bits: 8, mode: Mode::Amd64 },
                X86Register { name: "bx", capstone_reg: X86_REG_BX, full_reg: X86_REG_RBX, offset: 0, bits: 16, mode: Mode::Amd64 },
                X86Register { name: "ebx", capstone_reg: X86_REG_EBX, full_reg: X86_REG_RBX, offset: 0, bits: 32, mode: Mode::Amd64 },
                X86Register { name: "rbx", capstone_reg: X86_REG_RBX, full_reg: X86_REG_RBX, offset: 0, bits: 64, mode: Mode::Amd64 },
                X86Register { name: "ch", capstone_reg: X86_REG_CH, full_reg: X86_REG_RCX, offset: 8, bits: 8, mode: Mode::Amd64 },
                X86Register { name: "cl", capstone_reg: X86_REG_CL, full_reg: X86_REG_RCX, offset: 0, bits: 8, mode: Mode::Amd64 },
                X86Register { name: "cx", capstone_reg: X86_REG_CX, full_reg: X86_REG_RCX, offset: 0, bits: 16, mode: Mode::Amd64 },
                X86Register { name: "ecx", capstone_reg: X86_REG_ECX, full_reg: X86_REG_RCX, offset: 0, bits: 32, mode: Mode::Amd64 },
                X86Register { name: "rcx", capstone_reg: X86_REG_RCX, full_reg: X86_REG_RCX, offset: 0, bits: 64, mode: Mode::Amd64 },
                X86Register { name: "dh", capstone_reg: X86_REG_DH, full_reg: X86_REG_RDX, offset: 8, bits: 8, mode: Mode::Amd64 },
                X86Register { name: "dl", capstone_reg: X86_REG_DL, full_reg: X86_REG_RDX, offset: 0, bits: 8, mode: Mode::Amd64 },
                X86Register { name: "dx", capstone_reg: X86_REG_DX, full_reg: X86_REG_RDX, offset: 0, bits: 16, mode: Mode::Amd64 },
                X86Register { name: "edx", capstone_reg: X86_REG_EDX, full_reg: X86_REG_RDX, offset: 0, bits: 32, mode: Mode::Amd64 },
                X86Register { name: "rdx", capstone_reg: X86_REG_RDX, full_reg: X86_REG_RDX, offset: 0, bits: 64, mode: Mode::Amd64 },
                X86Register { name: "sil", capstone_reg: X86_REG_SIL, full_reg: X86_REG_RSI, offset: 0, bits: 8, mode: Mode::Amd64 },
                X86Register { name: "si", capstone_reg: X86_REG_SI, full_reg: X86_REG_RSI, offset: 0, bits: 16, mode: Mode::Amd64 },
                X86Register { name: "esi", capstone_reg: X86_REG_ESI, full_reg: X86_REG_RSI, offset: 0, bits: 32, mode: Mode::Amd64 },
                X86Register { name: "rsi", capstone_reg: X86_REG_RSI, full_reg: X86_REG_RSI, offset: 0, bits: 64, mode: Mode::Amd64 },
                X86Register { name: "dil", capstone_reg: X86_REG_DIL, full_reg: X86_REG_RDI, offset: 0, bits: 8, mode: Mode::Amd64 },
                X86Register { name: "di", capstone_reg: X86_REG_DI, full_reg: X86_REG_RDI, offset: 0, bits: 16, mode: Mode::Amd64 },
                X86Register { name: "edi", capstone_reg: X86_REG_EDI, full_reg: X86_REG_RDI, offset: 0, bits: 32, mode: Mode::Amd64 },
                X86Register { name: "rdi", capstone_reg: X86_REG_RDI, full_reg: X86_REG_RDI, offset: 0, bits: 64, mode: Mode::Amd64 },
                X86Register { name: "sp", capstone_reg: X86_REG_SP, full_reg: X86_REG_RSP, offset: 0, bits: 16, mode: Mode::Amd64 },
                X86Register { name: "esp", capstone_reg: X86_REG_ESP, full_reg: X86_REG_RSP, offset: 0, bits: 32, mode: Mode::Amd64 },
                X86Register { name: "rsp", capstone_reg: X86_REG_RSP, full_reg: X86_REG_RSP, offset: 0, bits: 64, mode: Mode::Amd64 },
                X86Register { name: "bpl", capstone_reg: X86_REG_BPL, full_reg: X86_REG_RBP, offset: 0, bits: 8, mode: Mode::Amd64 },
                X86Register { name: "bp", capstone_reg: X86_REG_BP, full_reg: X86_REG_RBP, offset: 0, bits: 16, mode: Mode::Amd64 },
                X86Register { name: "ebp", capstone_reg: X86_REG_EBP, full_reg: X86_REG_RBP, offset: 0, bits: 32, mode: Mode::Amd64 },
                X86Register { name: "rbp", capstone_reg: X86_REG_RBP, full_reg: X86_REG_RBP, offset: 0, bits: 64, mode: Mode::Amd64 },
                X86Register { name: "r8b", capstone_reg: X86_REG_R8B, full_reg: X86_REG_R8, offset: 0, bits: 8, mode: Mode::Amd64 },
                X86Register { name: "r8w", capstone_reg: X86_REG_R8W, full_reg: X86_REG_R8, offset: 0, bits: 16, mode: Mode::Amd64 },
                X86Register { name: "r8d", capstone_reg: X86_REG_R8D, full_reg: X86_REG_R8, offset: 0, bits: 32, mode: Mode::Amd64 },
                X86Register { name: "r8", capstone_reg: X86_REG_R8, full_reg: X86_REG_R8, offset: 0, bits: 64, mode: Mode::Amd64 },
                X86Register { name: "r9b", capstone_reg: X86_REG_R9B, full_reg: X86_REG_R9, offset: 0, bits: 8, mode: Mode::Amd64 },
                X86Register { name: "r9w", capstone_reg: X86_REG_R9W, full_reg: X86_REG_R9, offset: 0, bits: 16, mode: Mode::Amd64 },
                X86Register { name: "r9d", capstone_reg: X86_REG_R9D, full_reg: X86_REG_R9, offset: 0, bits: 32, mode: Mode::Amd64 },
                X86Register { name: "r9", capstone_reg: X86_REG_R9, full_reg: X86_REG_R9, offset: 0, bits: 64, mode: Mode::Amd64 },
                X86Register { name: "r10b", capstone_reg: X86_REG_R10B, full_reg: X86_REG_R10, offset: 0, bits: 8, mode: Mode::Amd64 },
                X86Register { name: "r10w", capstone_reg: X86_REG_R10W, full_reg: X86_REG_R10, offset: 0, bits: 16, mode: Mode::Amd64 },
                X86Register { name: "r10d", capstone_reg: X86_REG_R10D, full_reg: X86_REG_R10, offset: 0, bits: 32, mode: Mode::Amd64 },
                X86Register { name: "r10", capstone_reg: X86_REG_R10, full_reg: X86_REG_R10, offset: 0, bits: 64, mode: Mode::Amd64 },
                X86Register { name: "r11b", capstone_reg: X86_REG_R11B, full_reg: X86_REG_R11, offset: 0, bits: 8, mode: Mode::Amd64 },
                X86Register { name: "r11w", capstone_reg: X86_REG_R11W, full_reg: X86_REG_R11, offset: 0, bits: 16, mode: Mode::Amd64 },
                X86Register { name: "r11d", capstone_reg: X86_REG_R11D, full_reg: X86_REG_R11, offset: 0, bits: 32, mode: Mode::Amd64 },
                X86Register { name: "r11", capstone_reg: X86_REG_R11, full_reg: X86_REG_R11, offset: 0, bits: 64, mode: Mode::Amd64 },
                X86Register { name: "r12b", capstone_reg: X86_REG_R12B, full_reg: X86_REG_R12, offset: 0, bits: 8, mode: Mode::Amd64 },
                X86Register { name: "r12w", capstone_reg: X86_REG_R12W, full_reg: X86_REG_R12, offset: 0, bits: 16, mode: Mode::Amd64 },
                X86Register { name: "r12d", capstone_reg: X86_REG_R12D, full_reg: X86_REG_R12, offset: 0, bits: 32, mode: Mode::Amd64 },
                X86Register { name: "r12", capstone_reg: X86_REG_R12, full_reg: X86_REG_R12, offset: 0, bits: 64, mode: Mode::Amd64 },
                X86Register { name: "r13b", capstone_reg: X86_REG_R13B, full_reg: X86_REG_R13, offset: 0, bits: 8, mode: Mode::Amd64 },
                X86Register { name: "r13w", capstone_reg: X86_REG_R13W, full_reg: X86_REG_R13, offset: 0, bits: 16, mode: Mode::Amd64 },
                X86Register { name: "r13d", capstone_reg: X86_REG_R13D, full_reg: X86_REG_R13, offset: 0, bits: 32, mode: Mode::Amd64 },
                X86Register { name: "r13", capstone_reg: X86_REG_R13, full_reg: X86_REG_R13, offset: 0, bits: 64, mode: Mode::Amd64 },
                X86Register { name: "r14b", capstone_reg: X86_REG_R14B, full_reg: X86_REG_R14, offset: 0, bits: 8, mode: Mode::Amd64 },
                X86Register { name: "r14w", capstone_reg: X86_REG_R14W, full_reg: X86_REG_R14, offset: 0, bits: 16, mode: Mode::Amd64 },
                X86Register { name: "r14d", capstone_reg: X86_REG_R14D, full_reg: X86_REG_R14, offset: 0, bits: 32, mode: Mode::Amd64 },
                X86Register { name: "r14", capstone_reg: X86_REG_R14, full_reg: X86_REG_R14, offset: 0, bits: 64, mode: Mode::Amd64 },
                X86Register { name: "r15b", capstone_reg: X86_REG_R15B, full_reg: X86_REG_R15, offset: 0, bits: 8, mode: Mode::Amd64 },
                X86Register { name: "r15w", capstone_reg: X86_REG_R15W, full_reg: X86_REG_R15, offset: 0, bits: 16, mode: Mode::Amd64 },
                X86Register { name: "r15d", capstone_reg: X86_REG_R15D, full_reg: X86_REG_R15, offset: 0, bits: 32, mode: Mode::Amd64 },
                X86Register { name: "r15", capstone_reg: X86_REG_R15, full_reg: X86_REG_R15, offset: 0, bits: 64, mode: Mode::Amd64 },
                X86Register { name: "fs_base", capstone_reg: X86_REG_FS, full_reg: X86_REG_FS, offset: 0, bits: 64, mode: Mode::Amd64 },
                X86Register { name: "gs_base", capstone_reg: X86_REG_GS, full_reg: X86_REG_GS, offset: 0, bits: 64, mode: Mode::Amd64 },
                X86Register { name: "ds_base", capstone_reg: X86_REG_DS, full_reg: X86_REG_DS, offset: 0, bits: 64, mode: Mode::Amd64 },
                X86Register { name: "es_base", capstone_reg: X86_REG_ES, full_reg: X86_REG_ES, offset: 0, bits: 64, mode: Mode::Amd64 },
                X86Register { name: "cs_base", capstone_reg: X86_REG_CS, full_reg: X86_REG_CS, offset: 0, bits: 64, mode: Mode::Amd64 },
                X86Register { name: "ss_base", capstone_reg: X86_REG_SS, full_reg: X86_REG_SS, offset: 0, bits: 64, mode: Mode::Amd64 },
                X86Register { name: "xmm0", capstone_reg: X86_REG_XMM0, full_reg: X86_REG_XMM0, offset: 0, bits: 128, mode: Mode::Amd64 },
                X86Register { name: "xmm1", capstone_reg: X86_REG_XMM1, full_reg: X86_REG_XMM1, offset: 0, bits: 128, mode: Mode::Amd64 },
                X86Register { name: "xmm2", capstone_reg: X86_REG_XMM2, full_reg: X86_REG_XMM2, offset: 0, bits: 128, mode: Mode::Amd64 },
                X86Register { name: "xmm3", capstone_reg: X86_REG_XMM3, full_reg: X86_REG_XMM3, offset: 0, bits: 128, mode: Mode::Amd64 },
                X86Register { name: "xmm4", capstone_reg: X86_REG_XMM4, full_reg: X86_REG_XMM4, offset: 0, bits: 128, mode: Mode::Amd64 },
                X86Register { name: "xmm5", capstone_reg: X86_REG_XMM5, full_reg: X86_REG_XMM5, offset: 0, bits: 128, mode: Mode::Amd64 },
                X86Register { name: "xmm6", capstone_reg: X86_REG_XMM6, full_reg: X86_REG_XMM6, offset: 0, bits: 128, mode: Mode::Amd64 },
                X86Register { name: "xmm7", capstone_reg: X86_REG_XMM7, full_reg: X86_REG_XMM7, offset: 0, bits: 128, mode: Mode::Amd64 },
                X86Register { name: "xmm8", capstone_reg: X86_REG_XMM8, full_reg: X86_REG_XMM8, offset: 0, bits: 128, mode: Mode::Amd64 },
                X86Register { name: "xmm9", capstone_reg: X86_REG_XMM9, full_reg: X86_REG_XMM9, offset: 0, bits: 128, mode: Mode::Amd64 },
                X86Register { name: "xmm10", capstone_reg: X86_REG_XMM10, full_reg: X86_REG_XMM10, offset: 0, bits: 128, mode: Mode::Amd64 },
                X86Register { name: "xmm11", capstone_reg: X86_REG_XMM11, full_reg: X86_REG_XMM11, offset: 0, bits: 128, mode: Mode::Amd64 },
                X86Register { name: "xmm12", capstone_reg: X86_REG_XMM12, full_reg: X86_REG_XMM12, offset: 0, bits: 128, mode: Mode::Amd64 },
                X86Register { name: "xmm13", capstone_reg: X86_REG_XMM13, full_reg: X86_REG_XMM13, offset: 0, bits: 128, mode: Mode::Amd64 },
                X86Register { name: "xmm14", capstone_reg: X86_REG_XMM14, full_reg: X86_REG_XMM14, offset: 0, bits: 128, mode: Mode::Amd64 },
                X86Register { name: "xmm15", capstone_reg: X86_REG_XMM15, full_reg: X86_REG_XMM15, offset: 0, bits: 128, mode: Mode::Amd64 },
                X86Register { name: "xmm16", capstone_reg: X86_REG_XMM16, full_reg: X86_REG_XMM16, offset: 0, bits: 128, mode: Mode::Amd64 },
                X86Register { name: "xmm17", capstone_reg: X86_REG_XMM17, full_reg: X86_REG_XMM17, offset: 0, bits: 128, mode: Mode::Amd64 },
                X86Register { name: "xmm18", capstone_reg: X86_REG_XMM18, full_reg: X86_REG_XMM18, offset: 0, bits: 128, mode: Mode::Amd64 },
                X86Register { name: "xmm19", capstone_reg: X86_REG_XMM19, full_reg: X86_REG_XMM19, offset: 0, bits: 128, mode: Mode::Amd64 },
                X86Register { name: "xmm20", capstone_reg: X86_REG_XMM20, full_reg: X86_REG_XMM20, offset: 0, bits: 128, mode: Mode::Amd64 },
                X86Register { name: "xmm21", capstone_reg: X86_REG_XMM21, full_reg: X86_REG_XMM21, offset: 0, bits: 128, mode: Mode::Amd64 },
                X86Register { name: "xmm22", capstone_reg: X86_REG_XMM22, full_reg: X86_REG_XMM22, offset: 0, bits: 128, mode: Mode::Amd64 },
                X86Register { name: "xmm23", capstone_reg: X86_REG_XMM23, full_reg: X86_REG_XMM23, offset: 0, bits: 128, mode: Mode::Amd64 },
                X86Register { name: "xmm24", capstone_reg: X86_REG_XMM24, full_reg: X86_REG_XMM24, offset: 0, bits: 128, mode: Mode::Amd64 },
                X86Register { name: "xmm25", capstone_reg: X86_REG_XMM25, full_reg: X86_REG_XMM25, offset: 0, bits: 128, mode: Mode::Amd64 },
                X86Register { name: "xmm26", capstone_reg: X86_REG_XMM26, full_reg: X86_REG_XMM26, offset: 0, bits: 128, mode: Mode::Amd64 },
                X86Register { name: "xmm27", capstone_reg: X86_REG_XMM27, full_reg: X86_REG_XMM27, offset: 0, bits: 128, mode: Mode::Amd64 },
                X86Register { name: "xmm28", capstone_reg: X86_REG_XMM28, full_reg: X86_REG_XMM28, offset: 0, bits: 128, mode: Mode::Amd64 },
                X86Register { name: "xmm29", capstone_reg: X86_REG_XMM29, full_reg: X86_REG_XMM29, offset: 0, bits: 128, mode: Mode::Amd64 },
                X86Register { name: "xmm30", capstone_reg: X86_REG_XMM30, full_reg: X86_REG_XMM30, offset: 0, bits: 128, mode: Mode::Amd64 },
                X86Register { name: "xmm31", capstone_reg: X86_REG_XMM31, full_reg: X86_REG_XMM31, offset: 0, bits: 128, mode: Mode::Amd64 },
            ];
            assert(v@ =~= amd64_table());
            v
        },
    }
}

/// The first row of `rows` with the identifier `id`.
pub open spec fn lookup(rows: Seq<X86Register>, id: u32) -> Option<X86Register>
    decreases rows.len(),
{
    if rows.len() == 0 {
        None
    } else if rows[0].capstone_reg == id {
        Some(rows[0])
    } else {
        lookup(rows.subrange(1, rows.len() as int), id)
    }
}

/// The register of `mode` with the identifier `capstone_id`.
pub fn get_register(mode: Mode, capstone_id: u32) -> (r: Result<X86Register, Error>)
    ensures
        match r {
            Ok(reg) => lookup(table(mode), capstone_id) == Some(reg),
            Err(e) => lookup(table(mode), capstone_id) is None && e == Error::RegisterNotFound,
        },
{
    let registers = registers(mode);
    let ghost rows = table(mode);
    assert(rows.subrange(0, rows.len() as int) =~= rows);
    let mut i: usize = 0;
    while i < registers.len()
        invariant
            registers@ == rows,
            rows == table(mode),
            i <= rows.len(),
            lookup(rows, capstone_id) == lookup(rows.subrange(i as int, rows.len() as int), capstone_id),
        decreases rows.len() - i,
    {
        let ghost rest = rows.subrange(i as int, rows.len() as int);
        assert(rest.subrange(1, rest.len() as int) =~= rows.subrange(i + 1, rows.len() as int));
        if registers[i].capstone_reg == capstone_id {
            return Ok(registers[i]);
        }
        i += 1;
    }
    Err(Error::RegisterNotFound)
}

/// The expression reads the full register `f`.
pub open spec fn reads_full(e: Expression, f: X86Register) -> bool {
    e matches Expression::Scalar(s) && s.name@ == f.name@ && s.bits == f.bits
}

/// The scalar is the storage of the full register `f`.
pub open spec fn is_storage(s: Scalar, f: X86Register) -> bool {
    s.name@ == f.name@ && s.bits == f.bits
}

/// `e` is the constant `value` of `bits` bits.
pub open spec fn is_constant(e: Expression, value: u128, bits: usize) -> bool {
    e == Expression::Constant(Constant { value: value & low_mask(bits), bits })
}

/// `e` reads the register `r` out of its full register `f`: the full value
/// truncated to `r`'s width, after a right shift by `r`'s offset where that
/// is not zero.
pub open spec fn reads_part(e: Expression, r: X86Register, f: X86Register) -> bool {
    e matches Expression::Trun(b, x) && b == r.bits && if r.offset == 0 {
        reads_full(*x, f)
    } else {
        *x matches Expression::Binary(op, l, c) && op == BinOp::Shr && reads_full(*l, f)
            && is_constant(*c, r.offset as u128, f.bits)
    }
}

/// `e` is the new value of the full register `f` once `value` is written to
/// its part `r`. A part of 32 bits or more at offset zero of a full register
/// of 64 bits or more (eax in rax) is written as `value` zero-extended over
/// the whole register. Any other part at offset zero keeps the bits of `f`
/// above it and has its own bits replaced by `value` zero-extended. At
/// another offset, the bits of
/// `r` are cleared and `value`, zero-extended and shifted left by the offset,
/// is put in their place.
pub open spec fn writes_part(e: Expression, r: X86Register, f: X86Register, value: Expression) -> bool {
    if r.offset == 0 && r.bits >= 32 && f.bits >= 64 {
        e == Expression::Zext(f.bits, Box::new(value))
    } else {
        match e {
            Expression::Binary(BinOp::Or, kept, new) => match *kept {
                Expression::Binary(BinOp::And, old, mask) => reads_full(*old, f) && if r.offset == 0 {
                    is_constant(*mask, !0u128 << r.bits, f.bits) && *new == Expression::Zext(f.bits, Box::new(value))
                } else {
                    is_constant(*mask, !(low_mask(r.bits) << r.offset), f.bits) && match *new {
                        Expression::Binary(BinOp::Shl, ext, amount) => *ext == Expression::Zext(f.bits, Box::new(value))
                            && is_constant(*amount, r.offset as u128, f.bits),
                        _ => false,
                    }
                },
                _ => false,
            },
            _ => false,
        }
    }
}

/// The last operation of `ops` assigns `src` to the storage of `f`.
pub open spec fn assigns_last(ops: Seq<Operation>, f: X86Register, src: Expression) -> bool {
    ops.len() > 0 && match ops.last() {
        Operation::Assign { dst, src: s } => is_storage(dst, f) && s == src,
        _ => false,
    }
}

/// The last operation of `ops` writes `value` to the part `r` of `f`.
pub open spec fn writes_last(ops: Seq<Operation>, r: X86Register, f: X86Register, value: Expression) -> bool {
    ops.len() > 0 && match ops.last() {
        Operation::Assign { dst, src } => is_storage(dst, f) && writes_part(src, r, f, value),
        _ => false,
    }
}

impl X86Register {
    pub open spec fn spec_is_full(&self) -> bool {
        self.capstone_reg == self.full_reg
    }

    /// The full register of `self`, where the table of its mode has it and
    /// it is full.
    pub open spec fn full(&self) -> Option<X86Register> {
        match lookup(table(self.mode), self.full_reg) {
            Some(f) => if f.spec_is_full() {
                Some(f)
            } else {
                None
            },
            None => None,
        }
    }

    /// `self` lies within its full register `f`, whose width a constant can
    /// hold.
    pub open spec fn fits(&self, f: X86Register) -> bool {
        1 <= self.bits && self.offset + self.bits <= f.bits && f.bits <= 128
    }

    pub fn name(&self) -> (r: &'static str)
        ensures
            r == self.name,
    {
        self.name
    }

    pub fn bits(&self) -> (r: usize)
        ensures
            r == self.bits,
    {
        self.bits
    }

    /// Whether this is a full-width register (eax, ebx, ...).
    pub fn is_full(&self) -> (r: bool)
        ensures
            r == self.spec_is_full(),
    {
        if self.capstone_reg == self.full_reg {
            true
        } else {
            false
        }
    }

    /// The full-width register of this register.
    pub fn get_full(&self) -> (r: Result<X86Register, Error>)
        ensures
            match r {
                Ok(f) => self.full() == Some(f),
                Err(e) => self.full() is None && e == Error::RegisterNotFound,
            },
    {
        let f = match get_register(self.mode, self.full_reg) {
            Ok(f) => f,
            Err(e) => {
                return Err(e);
            },
        };
        if f.is_full() {
            Ok(f)
        } else {
            Err(Error::RegisterNotFound)
        }
    }

    fn storage(&self) -> (r: Scalar)
        ensures
            is_storage(r, *self),
    {
        Scalar::new(self.name, self.bits)
    }

    /// An expression for the value of this register: al, ah, ax and eax all
    /// read eax.
    pub fn get(&self) -> (r: Result<Expression, Error>)
        ensures
            self.spec_is_full() ==> (r matches Ok(e) && reads_full(e, *self)),
            !self.spec_is_full() ==> match r {
                Ok(e) => self.full() matches Some(f) && self.fits(f) && reads_part(e, *self, f),
                Err(e) => {
                    ||| self.full() is None && e == Error::RegisterNotFound
                    ||| self.full() matches Some(f) && !self.fits(f) && e == Error::Sort
                },
            },
    {
        if self.is_full() {
            return Ok(Expression::scalar(self.name, self.bits));
        }
        let full = match self.get_full() {
            Ok(f) => f,
            Err(e) => {
                return Err(e);
            },
        };
        if !(1 <= self.bits && self.bits <= full.bits && self.offset <= full.bits - self.bits && full.bits <= 128) {
            return Err(Error::Sort);
        }
        let whole = Expression::scalar(full.name, full.bits);
        if self.offset == 0 {
            Expression::trun(self.bits, whole)
        } else {
            let shifted = match Expression::shr(whole, Expression::constant(self.offset as u128, full.bits)) {
                Ok(x) => x,
                Err(e) => {
                    return Err(e);
                },
            };
            Expression::trun(self.bits, shifted)
        }
    }

    /// Appends to `block` the assignment that writes `value` to this
    /// register: al, ah, ax and eax all write eax.
    pub fn set(&self, block: &mut Block, value: Expression) -> (r: Result<(), Error>)
        ensures
            self.spec_is_full() ==> r is Ok && final(block).operations@.drop_last() == old(block).operations@
                && assigns_last(final(block).operations@, *self, value),
            !self.spec_is_full() ==> match r {
                Ok(()) => self.full() matches Some(f) && self.fits(f) && value.width() <= f.bits
                    && final(block).operations@.drop_last() == old(block).operations@
                    && writes_last(final(block).operations@, *self, f, value),
                Err(e) => final(block).operations@ == old(block).operations@ && {
                    ||| self.full() is None && e == Error::RegisterNotFound
                    ||| self.full() matches Some(f) && (!self.fits(f) || value.width() > f.bits) && e == Error::Sort
                },
            },
    {
        if self.is_full() {
            block.assign(self.storage(), value);
            return Ok(());
        }
        let full = match self.get_full() {
            Ok(f) => f,
            Err(e) => {
                return Err(e);
            },
        };
        if !(1 <= self.bits && self.bits <= full.bits && self.offset <= full.bits - self.bits && full.bits <= 128) {
            return Err(Error::Sort);
        }
        if value.bits() > full.bits {
            return Err(Error::Sort);
        }
        let fb = full.bits;
        let ext = match Expression::zext(fb, value) {
            Ok(x) => x,
            Err(e) => {
                return Err(e);
            },
        };
        let new_value = if self.offset == 0 {
            if fb < 64 || self.bits < 32 {
                let b: u32 = self.bits as u32;
                let mask = !0u128 << b;
                let kept = match Expression::and(Expression::scalar(full.name, fb), Expression::constant(mask, fb)) {
                    Ok(x) => x,
                    Err(e) => {
                        return Err(e);
                    },
                };
                match Expression::or(kept, ext) {
                    Ok(x) => x,
                    Err(e) => {
                        return Err(e);
                    },
                }
            } else {
                ext
            }
        } else {
            let o: u32 = self.offset as u32;
            let mask = !(crate::il::mask_of(self.bits) << o);
            let kept = match Expression::and(Expression::scalar(full.name, fb), Expression::constant(mask, fb)) {
                Ok(x) => x,
                Err(e) => {
                    return Err(e);
                },
            };
            let moved = match Expression::shl(ext, Expression::constant(self.offset as u128, fb)) {
                Ok(x) => x,
                Err(e) => {
                    return Err(e);
                },
            };
            match Expression::or(kept, moved) {
                Ok(x) => x,
                Err(e) => {
                    return Err(e);
                },
            }
        };
        block.assign(full.storage(), new_value);
        Ok(())
    }
}


/// Writing `value` to a full register of a table and reading the register
/// back gives `value` truncated to the register's width.
pub proof fn lemma_full_round_trip(
    mode: Mode,
    id: u32,
    r: X86Register,
    ops: Seq<Operation>,
    value: Expression,
    read: Expression,
    env: Env,
    before: Env,
)
    requires
        lookup(table(mode), id) == Some(r),
        r.spec_is_full(),
        assigns_last(ops, r, value),
        reads_full(read, r),
        run(ops.drop_last(), env) == Some(before),
        evaluate(value, before) is Some,
    ensures
        run(ops, env) matches Some(after) && evaluate(read, after) == Some(
            Constant { value: evaluate(value, before)->Some_0.value & low_mask(r.bits), bits: r.bits },
        ),
{
    lemma_lookup_row(table(mode), id);
    lemma_table_widths(mode);
}

proof fn lemma_low_write_bits(old: u128, v: u128, rb: u128, fb: u128, m: u128, lm: u128)
    requires
        1 <= rb < fb <= 64,
        m == (1u128 << fb) - 1,
        lm == (1u128 << rb) - 1,
        old & m == old,
        v & lm == v,
    ensures
        (((((old & ((!0u128 << rb) & m)) & m) | (v & m)) & m) & m) >> rb == old >> rb,
        (((((old & ((!0u128 << rb) & m)) & m) | (v & m)) & m) & m) & lm == v,
{
    assert((((((old & ((!0u128 << rb) & m)) & m) | (v & m)) & m) & m) >> rb == old >> rb) by (bit_vector)
        requires
            1 <= rb < fb <= 64,
            m == (1u128 << fb) - 1,
            lm == (1u128 << rb) - 1,
            old & m == old,
            v & lm == v,
    ;
    assert((((((old & ((!0u128 << rb) & m)) & m) | (v & m)) & m) & m) & lm == v) by (bit_vector)
        requires
            1 <= rb < fb <= 64,
            m == (1u128 << fb) - 1,
            lm == (1u128 << rb) - 1,
            old & m == old,
            v & lm == v,
    ;
}

/// Writing a value of a register's width to a register at offset zero keeps
/// the full register's bits above the register and puts the value in its low
/// bits, unless the register has 32 bits or more inside a 64-bit one (al in
/// eax or in rax, ax in rax; not eax in rax).
pub proof fn lemma_low_write_keeps_high_bits(
    r: X86Register,
    f: X86Register,
    ops: Seq<Operation>,
    value: Expression,
    read: Expression,
    env: Env,
    before: Env,
)
    requires
        r.offset == 0,
        r.fits(f),
        r.bits < f.bits <= 64,
        f.bits < 64 || r.bits < 32,
        writes_last(ops, r, f, value),
        reads_full(read, f),
        run(ops.drop_last(), env) == Some(before),
        before.contains_key((f.name@, f.bits)),
        before[(f.name@, f.bits)].wf(),
        before[(f.name@, f.bits)].bits == f.bits,
        evaluate(value, before) matches Some(c) && c.wf() && c.bits == r.bits,
    ensures
        run(ops, env) matches Some(after) && evaluate(read, after) matches Some(now) && now.bits == f.bits
            && now.value >> r.bits as u128 == before[(f.name@, f.bits)].value >> r.bits as u128
            && now.value & low_mask(r.bits) == evaluate(value, before)->Some_0.value,
{
    let old = before[(f.name@, f.bits)];
    let c = evaluate(value, before)->Some_0;
    let m = low_mask(f.bits);
    let lm = low_mask(r.bits);
    let src = ops.last()->Assign_src;
    let (kept, new) = match src {
        Expression::Binary(_, kept, new) => (*kept, *new),
        _ => (src, src),
    };
    let (old_e, mask) = match kept {
        Expression::Binary(_, old_e, mask) => (*old_e, *mask),
        _ => (kept, kept),
    };
    assert(evaluate(old_e, before) == Some(old));
    lemma_low_mask_shape(f.bits);
    lemma_low_mask_shape(r.bits);
    assert(evaluate(mask, before) == Some(Constant { value: (!0u128 << r.bits) & m, bits: f.bits })) by {
        lemma_mask_wf((!0u128 << r.bits), f.bits);
    }
    assert(evaluate(kept, before) == Some(Constant { value: (old.value & ((!0u128 << r.bits) & m)) & m, bits: f.bits }));
    assert(evaluate(new, before) == Some(Constant { value: c.value & m, bits: f.bits }));
    lemma_low_write_bits(old.value, c.value, r.bits as u128, f.bits as u128, m, lm);
}

proof fn lemma_mask_wf(v: u128, bits: usize)
    requires
        1 <= bits <= 128,
    ensures
        (Constant { value: v & low_mask(bits), bits }).wf(),
{
    let m = low_mask(bits);
    assert((v & m) & m == v & m) by (bit_vector);
}

/// Writing a register of 32 bits or more at offset zero of a full register
/// of 64 bits or more (eax in rax) replaces the whole full register by the
/// value zero-extended: no bit above it remains.
pub proof fn lemma_wide_write_zero_extends(
    r: X86Register,
    f: X86Register,
    ops: Seq<Operation>,
    value: Expression,
    read: Expression,
    env: Env,
    before: Env,
)
    requires
        r.offset == 0,
        r.fits(f),
        r.bits >= 32,
        f.bits >= 64,
        writes_last(ops, r, f, value),
        reads_full(read, f),
        run(ops.drop_last(), env) == Some(before),
        evaluate(value, before) matches Some(c) && c.wf() && c.bits <= f.bits,
    ensures
        run(ops, env) matches Some(after) && evaluate(read, after) == Some(
            Constant { value: evaluate(value, before)->Some_0.value, bits: f.bits },
        ),
{
    let c = evaluate(value, before)->Some_0;
    let m = low_mask(f.bits);
    assert(c.value & m & m == c.value) by {
        lemma_mask_grows(c.value, c.bits, f.bits);
    }
}

proof fn lemma_mask_grows(v: u128, a: usize, b: usize)
    requires
        1 <= a <= b <= 128,
        v & low_mask(a) == v,
    ensures
        v & low_mask(b) & low_mask(b) == v,
{
    let ma = low_mask(a);
    let mb = low_mask(b);
    if b >= 128 {
        assert(v & u128::MAX & u128::MAX == v) by (bit_vector);
    } else {
        let a1 = a as u128;
        let b1 = b as u128;
        lemma_low_mask_shape(a);
        lemma_low_mask_shape(b);
        assert(v & mb & mb == v) by (bit_vector)
            requires
                1 <= a1 <= b1 < 128,
                ma == (1u128 << a1) - 1,
                mb == (1u128 << b1) - 1,
                v & ma == v,
        ;
    }
}

proof fn lemma_low_mask_shape(b: usize)
    requires
        b < 128,
    ensures
        low_mask(b) == (1u128 << (b as u128)) - 1,
        (1u128 << (b as u128)) >= 1,
{
    assert((1u128 << b) == (1u128 << (b as u128))) by (bit_vector)
        requires
            b < 128,
    ;
    assert((1u128 << (b as u128)) >= 1) by (bit_vector)
        requires
            b < 128,
    ;
}


proof fn lemma_high_byte_bits(old: u128, v: u128, m: u128)
    requires
        m == 0xffff_ffffu128 || m == 0xffff_ffff_ffff_ffffu128,
        old & m == old,
        v & 0xffu128 == v,
    ensures
        ((((((old & ((!(0xffu128 << 8usize)) & m)) & m) | (((v & m) << 8u32) & m)) & m) & m) >> 8usize) & 0xffu128 == v,
        (((((old & ((!(0xffu128 << 8usize)) & m)) & m) | (((v & m) << 8u32) & m)) & m) & m) & 0xffu128 == old & 0xffu128,
        (((((old & ((!(0xffu128 << 8usize)) & m)) & m) | (((v & m) << 8u32) & m)) & m) & m) >> 16usize == old >> 16usize,
{
    assert(((((((old & ((!(0xffu128 << 8usize)) & m)) & m) | (((v & m) << 8u32) & m)) & m) & m) >> 8usize) & 0xffu128
        == v) by (bit_vector)
        requires
            m == 0xffff_ffffu128 || m == 0xffff_ffff_ffff_ffffu128,
            old & m == old,
            v & 0xffu128 == v,
    ;
    assert((((((old & ((!(0xffu128 << 8usize)) & m)) & m) | (((v & m) << 8u32) & m)) & m) & m) & 0xffu128 == old
        & 0xffu128) by (bit_vector)
        requires
            m == 0xffff_ffffu128 || m == 0xffff_ffff_ffff_ffffu128,
            old & m == old,
            v & 0xffu128 == v,
    ;
    assert((((((old & ((!(0xffu128 << 8usize)) & m)) & m) | (((v & m) << 8u32) & m)) & m) & m) >> 16usize == old
        >> 16usize) by (bit_vector)
        requires
            m == 0xffff_ffffu128 || m == 0xffff_ffff_ffff_ffffu128,
            old & m == old,
            v & 0xffu128 == v,
    ;
}

/// Writing a byte to a high-byte register (ah in eax or in rax) puts it in
/// bits 8 to 15 of the full register and keeps every other bit.
pub proof fn lemma_high_byte_write(
    r: X86Register,
    f: X86Register,
    ops: Seq<Operation>,
    value: Expression,
    read: Expression,
    env: Env,
    before: Env,
)
    requires
        r.offset == 8,
        r.bits == 8,
        f.bits == 32 || f.bits == 64,
        writes_last(ops, r, f, value),
        reads_full(read, f),
        run(ops.drop_last(), env) == Some(before),
        before.contains_key((f.name@, f.bits)),
        before[(f.name@, f.bits)].wf(),
        before[(f.name@, f.bits)].bits == f.bits,
        evaluate(value, before) matches Some(c) && c.wf() && c.bits == 8,
    ensures
        run(ops, env) matches Some(after) && evaluate(read, after) matches Some(now) && now.bits == f.bits
            && (now.value >> 8usize) & 0xffu128 == evaluate(value, before)->Some_0.value
            && now.value & 0xffu128 == before[(f.name@, f.bits)].value & 0xffu128
            && now.value >> 16usize == before[(f.name@, f.bits)].value >> 16usize,
{
    let old = before[(f.name@, f.bits)];
    let c = evaluate(value, before)->Some_0;
    let m = low_mask(f.bits);
    let src = ops.last()->Assign_src;
    let (kept, new) = match src {
        Expression::Binary(_, kept, new) => (*kept, *new),
        _ => (src, src),
    };
    let (old_e, mask) = match kept {
        Expression::Binary(_, old_e, mask) => (*old_e, *mask),
        _ => (kept, kept),
    };
    let (ext, amount) = match new {
        Expression::Binary(_, ext, amount) => (*ext, *amount),
        _ => (new, new),
    };
    lemma_low_mask_shape(f.bits);
    lemma_low_mask_shape(8);
    assert((1u128 << 8u128) - 1 == 0xffu128) by (bit_vector);
    assert((1u128 << 32u128) - 1 == 0xffff_ffffu128) by (bit_vector);
    assert((1u128 << 64u128) - 1 == 0xffff_ffff_ffff_ffffu128) by (bit_vector);
    assert(8u128 & 0xffff_ffffu128 == 8u128) by (bit_vector);
    assert(8u128 & 0xffff_ffff_ffff_ffffu128 == 8u128) by (bit_vector);
    lemma_high_byte_bits(old.value, c.value, m);
    assert(evaluate(old_e, before) == Some(old));
    assert(evaluate(mask, before) == Some(Constant { value: (!(0xffu128 << 8usize)) & m, bits: f.bits })) by {
        lemma_mask_wf(!(0xffu128 << 8usize), f.bits);
    }
    assert(evaluate(kept, before) == Some(Constant { value: (old.value & ((!(0xffu128 << 8usize)) & m)) & m, bits: f.bits }));
    assert(evaluate(ext, before) == Some(Constant { value: c.value & m, bits: f.bits }));
    assert(evaluate(amount, before) == Some(Constant { value: 8, bits: f.bits })) by {
        lemma_mask_wf(8, f.bits);
    }
    assert(evaluate(new, before) == Some(Constant { value: ((c.value & m) << 8u32) & m, bits: f.bits }));
}

/// Every register of the tables is 1 to 128 bits wide.
#[verifier::rlimit(100)]
pub proof fn lemma_table_widths(mode: Mode)
    ensures
        forall|i: int| 0 <= i < table(mode).len() ==> 1 <= #[trigger] table(mode)[i].bits <= 128,
{
    let t = table(mode);
    assert forall|i: int| 0 <= i < t.len() implies 1 <= #[trigger] t[i].bits <= 128 by {
        let r = t[i];
        assert(r.bits == 8 || r.bits == 16 || r.bits == 32 || r.bits == 64 || r.bits == 128);
    }
}

/// A register that `lookup` finds is a row of the table searched.
pub proof fn lemma_lookup_row(rows: Seq<X86Register>, id: u32)
    ensures
        lookup(rows, id) matches Some(r) ==> exists|i: int| 0 <= i < rows.len() && rows[i] == r,
    decreases rows.len(),
{
    if rows.len() > 0 && rows[0].capstone_reg != id {
        let rest = rows.subrange(1, rows.len() as int);
        lemma_lookup_row(rest, id);
        if let Some(r) = lookup(rest, id) {
            let i = choose|i: int| 0 <= i < rest.len() && rest[i] == r;
            assert(rows[i + 1] == r);
        }
    }
}

} // verus!
