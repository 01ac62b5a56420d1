//! The opcode table: each of the 256 encodings names its addressing mode,
//! its mnemonic, and its base cycle count. Undefined encodings decode as
//! cycle-counted no-operations whose addressing mode, and with it the
//! instruction length, follows their encoding family; the halt encodings
//! with no operand byte stay one byte long.

use vstd::prelude::*;
use crate::cpu::{AddressMode, Opcode};

verus! {

/// The decode table as a specification: the addressing mode, mnemonic and
/// base cycle count of each of the 256 encodings.
#[verifier::opaque]
pub open spec fn spec_opcode_entry(opcode: u8) -> (AddressMode, Opcode, u32) {
    match opcode {
        0x00 => (AddressMode::Imp, Opcode::Brk, 7u32),
        0x01 => (AddressMode::Izx, Opcode::Ora, 6u32),
        0x02 => (AddressMode::Imp, Opcode::Xxx, 2u32),
        0x03 => (AddressMode::Izx, Opcode::Xxx, 8u32),
        0x04 => (AddressMode::Zp0, Opcode::Nop, 3u32),
        0x05 => (AddressMode::Zp0, Opcode::Ora, 3u32),
        0x06 => (AddressMode::Zp0, Opcode::Asl, 5u32),
        0x07 => (AddressMode::Zp0, Opcode::Xxx, 5u32),
        0x08 => (AddressMode::Imp, Opcode::Php, 3u32),
        0x09 => (AddressMode::Imm, Opcode::Ora, 2u32),
        0x0a => (AddressMode::Acc, Opcode::Asl, 2u32),
        0x0b => (AddressMode::Imm, Opcode::Xxx, 2u32),
        0x0c => (AddressMode::Abs, Opcode::Nop, 4u32),
        0x0d => (AddressMode::Abs, Opcode::Ora, 4u32),
        0x0e => (AddressMode::Abs, Opcode::Asl, 6u32),
        0x0f => (AddressMode::Abs, Opcode::Xxx, 6u32),
        0x10 => (AddressMode::Rel, Opcode::Bpl, 2u32),
        0x11 => (AddressMode::Izy, Opcode::Ora, 5u32),
        0x12 => (AddressMode::Imp, Opcode::Xxx, 2u32),
        0x13 => (AddressMode::Izy, Opcode::Xxx, 8u32),
        0x14 => (AddressMode::Zpx, Opcode::Nop, 4u32),
        0x15 => (AddressMode::Zpx, Opcode::Ora, 4u32),
        0x16 => (AddressMode::Zpx, Opcode::Asl, 6u32),
        0x17 => (AddressMode::Zpx, Opcode::Xxx, 6u32),
        0x18 => (AddressMode::Imp, Opcode::Clc, 2u32),
        0x19 => (AddressMode::Aby, Opcode::Ora, 4u32),
        0x1a => (AddressMode::Imp, Opcode::Nop, 2u32),
        0x1b => (AddressMode::Aby, Opcode::Xxx, 7u32),
        0x1c => (AddressMode::Abx, Opcode::Nop, 4u32),
        0x1d => (AddressMode::Abx, Opcode::Ora, 4u32),
        0x1e => (AddressMode::Abx, Opcode::Asl, 7u32),
        0x1f => (AddressMode::Abx, Opcode::Xxx, 7u32),
        0x20 => (AddressMode::Abs, Opcode::Jsr, 6u32),
        0x21 => (AddressMode::Izx, Opcode::And, 6u32),
        0x22 => (AddressMode::Imp, Opcode::Xxx, 2u32),
        0x23 => (AddressMode::Izx, Opcode::Xxx, 8u32),
        0x24 => (AddressMode::Zp0, Opcode::Bit, 3u32),
        0x25 => (AddressMode::Zp0, Opcode::And, 3u32),
        0x26 => (AddressMode::Zp0, Opcode::Rol, 5u32),
        0x27 => (AddressMode::Zp0, Opcode::Xxx, 5u32),
        0x28 => (AddressMode::Imp, Opcode::Plp, 4u32),
        0x29 => (AddressMode::Imm, Opcode::And, 2u32),
        0x2a => (AddressMode::Acc, Opcode::Rol, 2u32),
        0x2b => (AddressMode::Imm, Opcode::Xxx, 2u32),
        0x2c => (AddressMode::Abs, Opcode::Bit, 4u32),
        0x2d => (AddressMode::Abs, Opcode::And, 4u32),
        0x2e => (AddressMode::Abs, Opcode::Rol, 6u32),
        0x2f => (AddressMode::Abs, Opcode::Xxx, 6u32),
        0x30 => (AddressMode::Rel, Opcode::Bmi, 2u32),
        0x31 => (AddressMode::Izy, Opcode::And, 5u32),
        0x32 => (AddressMode::Imp, Opcode::Xxx, 2u32),
        0x33 => (AddressMode::Izy, Opcode::Xxx, 8u32),
        0x34 => (AddressMode::Zpx, Opcode::Nop, 4u32),
        0x35 => (AddressMode::Zpx, Opcode::And, 4u32),
        0x36 => (AddressMode::Zpx, Opcode::Rol, 6u32),
        0x37 => (AddressMode::Zpx, Opcode::Xxx, 6u32),
        0x38 => (AddressMode::Imp, Opcode::Sec, 2u32),
        0x39 => (AddressMode::Aby, Opcode::And, 4u32),
        0x3a => (AddressMode::Imp, Opcode::Nop, 2u32),
        0x3b => (AddressMode::Aby, Opcode::Xxx, 7u32),
        0x3c => (AddressMode::Abx, Opcode::Nop, 4u32),
        0x3d => (AddressMode::Abx, Opcode::And, 4u32),
        0x3e => (AddressMode::Abx, Opcode::Rol, 7u32),
        0x3f => (AddressMode::Abx, Opcode::Xxx, 7u32),
        0x40 => (AddressMode::Imp, Opcode::Rti, 6u32),
        0x41 => (AddressMode::Izx, Opcode::Eor, 6u32),
        0x42 => (AddressMode::Imp, Opcode::Xxx, 2u32),
        0x43 => (AddressMode::Izx, Opcode::Xxx, 8u32),
        0x44 => (AddressMode::Zp0, Opcode::Nop, 3u32),
        0x45 => (AddressMode::Zp0, Opcode::Eor, 3u32),
        0x46 => (AddressMode::Zp0, Opcode::Lsr, 5u32),
        0x47 => (AddressMode::Zp0, Opcode::Xxx, 5u32),
        0x48 => (AddressMode::Imp, Opcode::Pha, 3u32),
        0x49 => (AddressMode::Imm, Opcode::Eor, 2u32),
        0x4a => (AddressMode::Acc, Opcode::Lsr, 2u32),
        0x4b => (AddressMode::Imm, Opcode::Xxx, 2u32),
        0x4c => (AddressMode::Abs, Opcode::Jmp, 3u32),
        0x4d => (AddressMode::Abs, Opcode::Eor, 4u32),
        0x4e => (AddressMode::Abs, Opcode::Lsr, 6u32),
        0x4f => (AddressMode::Abs, Opcode::Xxx, 6u32),
        0x50 => (AddressMode::Rel, Opcode::Bvc, 2u32),
        0x51 => (AddressMode::Izy, Opcode::Eor, 5u32),
        0x52 => (AddressMode::Imp, Opcode::Xxx, 2u32),
        0x53 => (AddressMode::Izy, Opcode::Xxx, 8u32),
        0x54 => (AddressMode::Zpx, Opcode::Nop, 4u32),
        0x55 => (AddressMode::Zpx, Opcode::Eor, 4u32),
        0x56 => (AddressMode::Zpx, Opcode::Lsr, 6u32),
        0x57 => (AddressMode::Zpx, Opcode::Xxx, 6u32),
        0x58 => (AddressMode::Imp, Opcode::Cli, 2u32),
        0x59 => (AddressMode::Aby, Opcode::Eor, 4u32),
        0x5a => (AddressMode::Imp, Opcode::Nop, 2u32),
        0x5b => (AddressMode::Aby, Opcode::Xxx, 7u32),
        0x5c => (AddressMode::Abx, Opcode::Nop, 4u32),
        0x5d => (AddressMode::Abx, Opcode::Eor, 4u32),
        0x5e => (AddressMode::Abx, Opcode::Lsr, 7u32),
        0x5f => (AddressMode::Abx, Opcode::Xxx, 7u32),
        0x60 => (AddressMode::Imp, Opcode::Rts, 6u32),
        0x61 => (AddressMode::Izx, Opcode::Adc, 6u32),
        0x62 => (AddressMode::Imp, Opcode::Xxx, 2u32),
        0x63 => (AddressMode::Izx, Opcode::Xxx, 8u32),
        0x64 => (AddressMode::Zp0, Opcode::Nop, 3u32),
        0x65 => (AddressMode::Zp0, Opcode::Adc, 3u32),
        0x66 => (AddressMode::Zp0, Opcode::Ror, 5u32),
        0x67 => (AddressMode::Zp0, Opcode::Xxx, 5u32),
        0x68 => (AddressMode::Imp, Opcode::Pla, 4u32),
        0x69 => (AddressMode::Imm, Opcode::Adc, 2u32),
        0x6a => (AddressMode::Acc, Opcode::Ror, 2u32),
        0x6b => (AddressMode::Imm, Opcode::Xxx, 2u32),
        0x6c => (AddressMode::Ind, Opcode::Jmp, 5u32),
        0x6d => (AddressMode::Abs, Opcode::Adc, 4u32),
        0x6e => (AddressMode::Abs, Opcode::Ror, 6u32),
        0x6f => (AddressMode::Abs, Opcode::Xxx, 6u32),
        0x70 => (AddressMode::Rel, Opcode::Bvs, 2u32),
        0x71 => (AddressMode::Izy, Opcode::Adc, 5u32),
        0x72 => (AddressMode::Imp, Opcode::Xxx, 2u32),
        0x73 => (AddressMode::Izy, Opcode::Xxx, 8u32),
        0x74 => (AddressMode::Zpx, Opcode::Nop, 4u32),
        0x75 => (AddressMode::Zpx, Opcode::Adc, 4u32),
        0x76 => (AddressMode::Zpx, Opcode::Ror, 6u32),
        0x77 => (AddressMode::Zpx, Opcode::Xxx, 6u32),
        0x78 => (AddressMode::Imp, Opcode::Sei, 2u32),
        0x79 => (AddressMode::Aby, Opcode::Adc, 4u32),
        0x7a => (AddressMode::Imp, Opcode::Nop, 2u32),
        0x7b => (AddressMode::Aby, Opcode::Xxx, 7u32),
        0x7c => (AddressMode::Abx, Opcode::Nop, 4u32),
        0x7d => (AddressMode::Abx, Opcode::Adc, 4u32),
        0x7e => (AddressMode::Abx, Opcode::Ror, 7u32),
        0x7f => (AddressMode::Abx, Opcode::Xxx, 7u32),
        0x80 => (AddressMode::Imm, Opcode::Nop, 2u32),
        0x81 => (AddressMode::Izx, Opcode::Sta, 6u32),
        0x82 => (AddressMode::Imm, Opcode::Nop, 2u32),
        0x83 => (AddressMode::Izx, Opcode::Xxx, 6u32),
        0x84 => (AddressMode::Zp0, Opcode::Sty, 3u32),
        0x85 => (AddressMode::Zp0, Opcode::Sta, 3u32),
        0x86 => (AddressMode::Zp0, Opcode::Stx, 3u32),
        0x87 => (AddressMode::Zp0, Opcode::Xxx, 3u32),
        0x88 => (AddressMode::Imp, Opcode::Dey, 2u32),
        0x89 => (AddressMode::Imm, Opcode::Nop, 2u32),
        0x8a => (AddressMode::Imp, Opcode::Txa, 2u32),
        0x8b => (AddressMode::Imm, Opcode::Xxx, 2u32),
        0x8c => (AddressMode::Abs, Opcode::Sty, 4u32),
        0x8d => (AddressMode::Abs, Opcode::Sta, 4u32),
        0x8e => (AddressMode::Abs, Opcode::Stx, 4u32),
        0x8f => (AddressMode::Abs, Opcode::Xxx, 4u32),
        0x90 => (AddressMode::Rel, Opcode::Bcc, 2u32),
        0x91 => (AddressMode::Izy, Opcode::Sta, 6u32),
        0x92 => (AddressMode::Imp, Opcode::Xxx, 2u32),
        0x93 => (AddressMode::Izy, Opcode::Xxx, 6u32),
        0x94 => (AddressMode::Zpx, Opcode::Sty, 4u32),
        0x95 => (AddressMode::Zpx, Opcode::Sta, 4u32),
        0x96 => (AddressMode::Zpy, Opcode::Stx, 4u32),
        0x97 => (AddressMode::Zpy, Opcode::Xxx, 4u32),
        0x98 => (AddressMode::Imp, Opcode::Tya, 2u32),
        0x99 => (AddressMode::Aby, Opcode::Sta, 5u32),
        0x9a => (AddressMode::Imp, Opcode::Txs, 2u32),
        0x9b => (AddressMode::Aby, Opcode::Xxx, 5u32),
        0x9c => (AddressMode::Abx, Opcode::Nop, 5u32),
        0x9d => (AddressMode::Abx, Opcode::Sta, 5u32),
        0x9e => (AddressMode::Aby, Opcode::Xxx, 5u32),
        0x9f => (AddressMode::Aby, Opcode::Xxx, 5u32),
        0xa0 => (AddressMode::Imm, Opcode::Ldy, 2u32),
        0xa1 => (AddressMode::Izx, Opcode::Lda, 6u32),
        0xa2 => (AddressMode::Imm, Opcode::Ldx, 2u32),
        0xa3 => (AddressMode::Izx, Opcode::Xxx, 6u32),
        0xa4 => (AddressMode::Zp0, Opcode::Ldy, 3u32),
        0xa5 => (AddressMode::Zp0, Opcode::Lda, 3u32),
        0xa6 => (AddressMode::Zp0, Opcode::Ldx, 3u32),
        0xa7 => (AddressMode::Zp0, Opcode::Xxx, 3u32),
        0xa8 => (AddressMode::Imp, Opcode::Tay, 2u32),
        0xa9 => (AddressMode::Imm, Opcode::Lda, 2u32),
        0xaa => (AddressMode::Imp, Opcode::Tax, 2u32),
        0xab => (AddressMode::Imm, Opcode::Xxx, 2u32),
        0xac => (AddressMode::Abs, Opcode::Ldy, 4u32),
        0xad => (AddressMode::Abs, Opcode::Lda, 4u32),
        0xae => (AddressMode::Abs, Opcode::Ldx, 4u32),
        0xaf => (AddressMode::Abs, Opcode::Xxx, 4u32),
        0xb0 => (AddressMode::Rel, Opcode::Bcs, 2u32),
        0xb1 => (AddressMode::Izy, Opcode::Lda, 5u32),
        0xb2 => (AddressMode::Imp, Opcode::Xxx, 2u32),
        0xb3 => (AddressMode::Izy, Opcode::Xxx, 5u32),
        0xb4 => (AddressMode::Zpx, Opcode::Ldy, 4u32),
        0xb5 => (AddressMode::Zpx, Opcode::Lda, 4u32),
        0xb6 => (AddressMode::Zpy, Opcode::Ldx, 4u32),
        0xb7 => (AddressMode::Zpy, Opcode::Xxx, 4u32),
        0xb8 => (AddressMode::Imp, Opcode::Clv, 2u32),
        0xb9 => (AddressMode::Aby, Opcode::Lda, 4u32),
        0xba => (AddressMode::Imp, Opcode::Tsx, 2u32),
        0xbb => (AddressMode::Aby, Opcode::Xxx, 4u32),
        0xbc => (AddressMode::Abx, Opcode::Ldy, 4u32),
        0xbd => (AddressMode::Abx, Opcode::Lda, 4u32),
        0xbe => (AddressMode::Aby, Opcode::Ldx, 4u32),
        0xbf => (AddressMode::Aby, Opcode::Xxx, 4u32),
        0xc0 => (AddressMode::Imm, Opcode::Cpy, 2u32),
        0xc1 => (AddressMode::Izx, Opcode::Cmp, 6u32),
        0xc2 => (AddressMode::Imm, Opcode::Nop, 2u32),
        0xc3 => (AddressMode::Izx, Opcode::Xxx, 8u32),
        0xc4 => (AddressMode::Zp0, Opcode::Cpy, 3u32),
        0xc5 => (AddressMode::Zp0, Opcode::Cmp, 3u32),
        0xc6 => (AddressMode::Zp0, Opcode::Dec, 5u32),
        0xc7 => (AddressMode::Zp0, Opcode::Xxx, 5u32),
        0xc8 => (AddressMode::Imp, Opcode::Iny, 2u32),
        0xc9 => (AddressMode::Imm, Opcode::Cmp, 2u32),
        0xca => (AddressMode::Imp, Opcode::Dex, 2u32),
        0xcb => (AddressMode::Imm, Opcode::Xxx, 2u32),
        0xcc => (AddressMode::Abs, Opcode::Cpy, 4u32),
        0xcd => (AddressMode::Abs, Opcode::Cmp, 4u32),
        0xce => (AddressMode::Abs, Opcode::Dec, 6u32),
        0xcf => (AddressMode::Abs, Opcode::Xxx, 6u32),
        0xd0 => (AddressMode::Rel, Opcode::Bne, 2u32),
        0xd1 => (AddressMode::Izy, Opcode::Cmp, 5u32),
        0xd2 => (AddressMode::Imp, Opcode::Xxx, 2u32),
        0xd3 => (AddressMode::Izy, Opcode::Xxx, 8u32),
        0xd4 => (AddressMode::Zpx, Opcode::Nop, 4u32),
        0xd5 => (AddressMode::Zpx, Opcode::Cmp, 4u32),
        0xd6 => (AddressMode::Zpx, Opcode::Dec, 6u32),
        0xd7 => (AddressMode::Zpx, Opcode::Xxx, 6u32),
        0xd8 => (AddressMode::Imp, Opcode::Cld, 2u32),
        0xd9 => (AddressMode::Aby, Opcode::Cmp, 4u32),
        0xda => (AddressMode::Imp, Opcode::Nop, 2u32),
        0xdb => (AddressMode::Aby, Opcode::Xxx, 7u32),
        0xdc => (AddressMode::Abx, Opcode::Nop, 4u32),
        0xdd => (AddressMode::Abx, Opcode::Cmp, 4u32),
        0xde => (AddressMode::Abx, Opcode::Dec, 7u32),
        0xdf => (AddressMode::Abx, Opcode::Xxx, 7u32),
        0xe0 => (AddressMode::Imm, Opcode::Cpx, 2u32),
        0xe1 => (AddressMode::Izx, Opcode::Sbc, 6u32),
        0xe2 => (AddressMode::Imm, Opcode::Nop, 2u32),
        0xe3 => (AddressMode::Izx, Opcode::Xxx, 8u32),
        0xe4 => (AddressMode::Zp0, Opcode::Cpx, 3u32),
        0xe5 => (AddressMode::Zp0, Opcode::Sbc, 3u32),
        0xe6 => (AddressMode::Zp0, Opcode::Inc, 5u32),
        0xe7 => (AddressMode::Zp0, Opcode::Xxx, 5u32),
        0xe8 => (AddressMode::Imp, Opcode::Inx, 2u32),
        0xe9 => (AddressMode::Imm, Opcode::Sbc, 2u32),
        0xea => (AddressMode::Imp, Opcode::Nop, 2u32),
        0xeb => (AddressMode::Imm, Opcode::Nop, 2u32),
        0xec => (AddressMode::Abs, Opcode::Cpx, 4u32),
        0xed => (AddressMode::Abs, Opcode::Sbc, 4u32),
        0xee => (AddressMode::Abs, Opcode::Inc, 6u32),
        0xef => (AddressMode::Abs, Opcode::Xxx, 6u32),
        0xf0 => (AddressMode::Rel, Opcode::Beq, 2u32),
        0xf1 => (AddressMode::Izy, Opcode::Sbc, 5u32),
        0xf2 => (AddressMode::Imp, Opcode::Xxx, 2u32),
        0xf3 => (AddressMode::Izy, Opcode::Xxx, 8u32),
        0xf4 => (AddressMode::Zpx, Opcode::Nop, 4u32),
        0xf5 => (AddressMode::Zpx, Opcode::Sbc, 4u32),
        0xf6 => (AddressMode::Zpx, Opcode::Inc, 6u32),
        0xf7 => (AddressMode::Zpx, Opcode::Xxx, 6u32),
        0xf8 => (AddressMode::Imp, Opcode::Sed, 2u32),
        0xf9 => (AddressMode::Aby, Opcode::Sbc, 4u32),
        0xfa => (AddressMode::Imp, Opcode::Nop, 2u32),
        0xfb => (AddressMode::Aby, Opcode::Xxx, 7u32),
        0xfc => (AddressMode::Abx, Opcode::Nop, 4u32),
        0xfd => (AddressMode::Abx, Opcode::Sbc, 4u32),
        0xfe => (AddressMode::Abx, Opcode::Inc, 7u32),
        _ => (AddressMode::Abx, Opcode::Xxx, 7u32),
    }
}

/// Decode one opcode byte into (addressing mode, mnemonic, base cycles).
/// Undefined encodings decode as `Xxx`, a no-operation that still consumes
/// the cycle count of its encoding family.
pub fn opcode_entry(opcode: u8) -> (r: (AddressMode, Opcode, u32))
    ensures
        r == spec_opcode_entry(opcode),
        2 <= r.2 <= 8,
        r.0 is Acc ==> (r.1 is Asl || r.1 is Lsr || r.1 is Rol || r.1 is Ror),
        r.0 is Rel ==> (r.1 is Bpl || r.1 is Bmi || r.1 is Bvc || r.1 is Bvs || r.1 is Bcc
            || r.1 is Bcs || r.1 is Bne || r.1 is Beq),
        r.0 is Ind ==> r.1 is Jmp,
        opcode == 0 ==> (r.0 is Imp && r.1 is Brk && r.2 == 7),
{
    proof {
        reveal(spec_opcode_entry);
    }
    (match opcode {
            0x00 => (AddressMode::Imp, Opcode::Brk, 7),
            0x01 => (AddressMode::Izx, Opcode::Ora, 6),
            0x02 => (AddressMode::Imp, Opcode::Xxx, 2),
            0x03 => (AddressMode::Izx, Opcode::Xxx, 8),
            0x04 => (AddressMode::Zp0, Opcode::Nop, 3),
            0x05 => (AddressMode::Zp0, Opcode::Ora, 3),
            0x06 => (AddressMode::Zp0, Opcode::Asl, 5),
            0x07 => (AddressMode::Zp0, Opcode::Xxx, 5),
            0x08 => (AddressMode::Imp, Opcode::Php, 3),
            0x09 => (AddressMode::Imm, Opcode::Ora, 2),
            0x0a => (AddressMode::Acc, Opcode::Asl, 2),
            0x0b => (AddressMode::Imm, Opcode::Xxx, 2),
            0x0c => (AddressMode::Abs, Opcode::Nop, 4),
            0x0d => (AddressMode::Abs, Opcode::Ora, 4),
            0x0e => (AddressMode::Abs, Opcode::Asl, 6),
            0x0f => (AddressMode::Abs, Opcode::Xxx, 6),
            0x10 => (AddressMode::Rel, Opcode::Bpl, 2),
            0x11 => (AddressMode::Izy, Opcode::Ora, 5),
            0x12 => (AddressMode::Imp, Opcode::Xxx, 2),
            0x13 => (AddressMode::Izy, Opcode::Xxx, 8),
            0x14 => (AddressMode::Zpx, Opcode::Nop, 4),
            0x15 => (AddressMode::Zpx, Opcode::Ora, 4),
            0x16 => (AddressMode::Zpx, Opcode::Asl, 6),
            0x17 => (AddressMode::Zpx, Opcode::Xxx, 6),
            0x18 => (AddressMode::Imp, Opcode::Clc, 2),
            0x19 => (AddressMode::Aby, Opcode::Ora, 4),
            0x1a => (AddressMode::Imp, Opcode::Nop, 2),
            0x1b => (AddressMode::Aby, Opcode::Xxx, 7),
            0x1c => (AddressMode::Abx, Opcode::Nop, 4),
            0x1d => (AddressMode::Abx, Opcode::Ora, 4),
            0x1e => (AddressMode::Abx, Opcode::Asl, 7),
            0x1f => (AddressMode::Abx, Opcode::Xxx, 7),
            0x20 => (AddressMode::Abs, Opcode::Jsr, 6),
            0x21 => (AddressMode::Izx, Opcode::And, 6),
            0x22 => (AddressMode::Imp, Opcode::Xxx, 2),
            0x23 => (AddressMode::Izx, Opcode::Xxx, 8),
            0x24 => (AddressMode::Zp0, Opcode::Bit, 3),
            0x25 => (AddressMode::Zp0, Opcode::And, 3),
            0x26 => (AddressMode::Zp0, Opcode::Rol, 5),
            0x27 => (AddressMode::Zp0, Opcode::Xxx, 5),
            0x28 => (AddressMode::Imp, Opcode::Plp, 4),
            0x29 => (AddressMode::Imm, Opcode::And, 2),
            0x2a => (AddressMode::Acc, Opcode::Rol, 2),
            0x2b => (AddressMode::Imm, Opcode::Xxx, 2),
            0x2c => (AddressMode::Abs, Opcode::Bit, 4),
            0x2d => (AddressMode::Abs, Opcode::And, 4),
            0x2e => (AddressMode::Abs, Opcode::Rol, 6),
            0x2f => (AddressMode::Abs, Opcode::Xxx, 6),
            0x30 => (AddressMode::Rel, Opcode::Bmi, 2),
            0x31 => (AddressMode::Izy, Opcode::And, 5),
            0x32 => (AddressMode::Imp, Opcode::Xxx, 2),
            0x33 => (AddressMode::Izy, Opcode::Xxx, 8),
            0x34 => (AddressMode::Zpx, Opcode::Nop, 4),
            0x35 => (AddressMode::Zpx, Opcode::And, 4),
            0x36 => (AddressMode::Zpx, Opcode::Rol, 6),
            0x37 => (AddressMode::Zpx, Opcode::Xxx, 6),
            0x38 => (AddressMode::Imp, Opcode::Sec, 2),
            0x39 => (AddressMode::Aby, Opcode::And, 4),
            0x3a => (AddressMode::Imp, Opcode::Nop, 2),
            0x3b => (AddressMode::Aby, Opcode::Xxx, 7),
            0x3c => (AddressMode::Abx, Opcode::Nop, 4),
            0x3d => (AddressMode::Abx, Opcode::And, 4),
            0x3e => (AddressMode::Abx, Opcode::Rol, 7),
            0x3f => (AddressMode::Abx, Opcode::Xxx, 7),
            0x40 => (AddressMode::Imp, Opcode::Rti, 6),
            0x41 => (AddressMode::Izx, Opcode::Eor, 6),
            0x42 => (AddressMode::Imp, Opcode::Xxx, 2),
            0x43 => (AddressMode::Izx, Opcode::Xxx, 8),
            0x44 => (AddressMode::Zp0, Opcode::Nop, 3),
            0x45 => (AddressMode::Zp0, Opcode::Eor, 3),
            0x46 => (AddressMode::Zp0, Opcode::Lsr, 5),
            0x47 => (AddressMode::Zp0, Opcode::Xxx, 5),
            0x48 => (AddressMode::Imp, Opcode::Pha, 3),
            0x49 => (AddressMode::Imm, Opcode::Eor, 2),
            0x4a => (AddressMode::Acc, Opcode::Lsr, 2),
            0x4b => (AddressMode::Imm, Opcode::Xxx, 2),
            0x4c => (AddressMode::Abs, Opcode::Jmp, 3),
            0x4d => (AddressMode::Abs, Opcode::Eor, 4),
            0x4e => (AddressMode::Abs, Opcode::Lsr, 6),
            0x4f => (AddressMode::Abs, Opcode::Xxx, 6),
            0x50 => (AddressMode::Rel, Opcode::Bvc, 2),
            0x51 => (AddressMode::Izy, Opcode::Eor, 5),
            0x52 => (AddressMode::Imp, Opcode::Xxx, 2),
            0x53 => (AddressMode::Izy, Opcode::Xxx, 8),
            0x54 => (AddressMode::Zpx, Opcode::Nop, 4),
            0x55 => (AddressMode::Zpx, Opcode::Eor, 4),
            0x56 => (AddressMode::Zpx, Opcode::Lsr, 6),
            0x57 => (AddressMode::Zpx, Opcode::Xxx, 6),
            0x58 => (AddressMode::Imp, Opcode::Cli, 2),
            0x59 => (AddressMode::Aby, Opcode::Eor, 4),
            0x5a => (AddressMode::Imp, Opcode::Nop, 2),
            0x5b => (AddressMode::Aby, Opcode::Xxx, 7),
            0x5c => (AddressMode::Abx, Opcode::Nop, 4),
            0x5d => (AddressMode::Abx, Opcode::Eor, 4),
            0x5e => (AddressMode::Abx, Opcode::Lsr, 7),
            0x5f => (AddressMode::Abx, Opcode::Xxx, 7),
            0x60 => (AddressMode::Imp, Opcode::Rts, 6),
            0x61 => (AddressMode::Izx, Opcode::Adc, 6),
            0x62 => (AddressMode::Imp, Opcode::Xxx, 2),
            0x63 => (AddressMode::Izx, Opcode::Xxx, 8),
            0x64 => (AddressMode::Zp0, Opcode::Nop, 3),
            0x65 => (AddressMode::Zp0, Opcode::Adc, 3),
            0x66 => (AddressMode::Zp0, Opcode::Ror, 5),
            0x67 => (AddressMode::Zp0, Opcode::Xxx, 5),
            0x68 => (AddressMode::Imp, Opcode::Pla, 4),
            0x69 => (AddressMode::Imm, Opcode::Adc, 2),
            0x6a => (AddressMode::Acc, Opcode::Ror, 2),
            0x6b => (AddressMode::Imm, Opcode::Xxx, 2),
            0x6c => (AddressMode::Ind, Opcode::Jmp, 5),
            0x6d => (AddressMode::Abs, Opcode::Adc, 4),
            0x6e => (AddressMode::Abs, Opcode::Ror, 6),
            0x6f => (AddressMode::Abs, Opcode::Xxx, 6),
            0x70 => (AddressMode::Rel, Opcode::Bvs, 2),
            0x71 => (AddressMode::Izy, Opcode::Adc, 5),
            0x72 => (AddressMode::Imp, Opcode::Xxx, 2),
            0x73 => (AddressMode::Izy, Opcode::Xxx, 8),
            0x74 => (AddressMode::Zpx, Opcode::Nop, 4),
            0x75 => (AddressMode::Zpx, Opcode::Adc, 4),
            0x76 => (AddressMode::Zpx, Opcode::Ror, 6),
            0x77 => (AddressMode::Zpx, Opcode::Xxx, 6),
            0x78 => (AddressMode::Imp, Opcode::Sei, 2),
            0x79 => (AddressMode::Aby, Opcode::Adc, 4),
            0x7a => (AddressMode::Imp, Opcode::Nop, 2),
            0x7b => (AddressMode::Aby, Opcode::Xxx, 7),
            0x7c => (AddressMode::Abx, Opcode::Nop, 4),
            0x7d => (AddressMode::Abx, Opcode::Adc, 4),
            0x7e => (AddressMode::Abx, Opcode::Ror, 7),
            0x7f => (AddressMode::Abx, Opcode::Xxx, 7),
            0x80 => (AddressMode::Imm, Opcode::Nop, 2),
            0x81 => (AddressMode::Izx, Opcode::Sta, 6),
            0x82 => (AddressMode::Imm, Opcode::Nop, 2),
            0x83 => (AddressMode::Izx, Opcode::Xxx, 6),
            0x84 => (AddressMode::Zp0, Opcode::Sty, 3),
            0x85 => (AddressMode::Zp0, Opcode::Sta, 3),
            0x86 => (AddressMode::Zp0, Opcode::Stx, 3),
            0x87 => (AddressMode::Zp0, Opcode::Xxx, 3),
            0x88 => (AddressMode::Imp, Opcode::Dey, 2),
            0x89 => (AddressMode::Imm, Opcode::Nop, 2),
            0x8a => (AddressMode::Imp, Opcode::Txa, 2),
            0x8b => (AddressMode::Imm, Opcode::Xxx, 2),
            0x8c => (AddressMode::Abs, Opcode::Sty, 4),
            0x8d => (AddressMode::Abs, Opcode::Sta, 4),
            0x8e => (AddressMode::Abs, Opcode::Stx, 4),
            0x8f => (AddressMode::Abs, Opcode::Xxx, 4),
            0x90 => (AddressMode::Rel, Opcode::Bcc, 2),
            0x91 => (AddressMode::Izy, Opcode::Sta, 6),
            0x92 => (AddressMode::Imp, Opcode::Xxx, 2),
            0x93 => (AddressMode::Izy, Opcode::Xxx, 6),
            0x94 => (AddressMode::Zpx, Opcode::Sty, 4),
            0x95 => (AddressMode::Zpx, Opcode::Sta, 4),
            0x96 => (AddressMode::Zpy, Opcode::Stx, 4),
            0x97 => (AddressMode::Zpy, Opcode::Xxx, 4),
            0x98 => (AddressMode::Imp, Opcode::Tya, 2),
            0x99 => (AddressMode::Aby, Opcode::Sta, 5),
            0x9a => (AddressMode::Imp, Opcode::Txs, 2),
            0x9b => (AddressMode::Aby, Opcode::Xxx, 5),
            0x9c => (AddressMode::Abx, Opcode::Nop, 5),
            0x9d => (AddressMode::Abx, Opcode::Sta, 5),
            0x9e => (AddressMode::Aby, Opcode::Xxx, 5),
            0x9f => (AddressMode::Aby, Opcode::Xxx, 5),
            0xa0 => (AddressMode::Imm, Opcode::Ldy, 2),
            0xa1 => (AddressMode::Izx, Opcode::Lda, 6),
            0xa2 => (AddressMode::Imm, Opcode::Ldx, 2),
            0xa3 => (AddressMode::Izx, Opcode::Xxx, 6),
            0xa4 => (AddressMode::Zp0, Opcode::Ldy, 3),
            0xa5 => (AddressMode::Zp0, Opcode::Lda, 3),
            0xa6 => (AddressMode::Zp0, Opcode::Ldx, 3),
            0xa7 => (AddressMode::Zp0, Opcode::Xxx, 3),
            0xa8 => (AddressMode::Imp, Opcode::Tay, 2),
            0xa9 => (AddressMode::Imm, Opcode::Lda, 2),
            0xaa => (AddressMode::Imp, Opcode::Tax, 2),
            0xab => (AddressMode::Imm, Opcode::Xxx, 2),
            0xac => (AddressMode::Abs, Opcode::Ldy, 4),
            0xad => (AddressMode::Abs, Opcode::Lda, 4),
            0xae => (AddressMode::Abs, Opcode::Ldx, 4),
            0xaf => (AddressMode::Abs, Opcode::Xxx, 4),
            0xb0 => (AddressMode::Rel, Opcode::Bcs, 2),
            0xb1 => (AddressMode::Izy, Opcode::Lda, 5),
            0xb2 => (AddressMode::Imp, Opcode::Xxx, 2),
            0xb3 => (AddressMode::Izy, Opcode::Xxx, 5),
            0xb4 => (AddressMode::Zpx, Opcode::Ldy, 4),
            0xb5 => (AddressMode::Zpx, Opcode::Lda, 4),
            0xb6 => (AddressMode::Zpy, Opcode::Ldx, 4),
            0xb7 => (AddressMode::Zpy, Opcode::Xxx, 4),
            0xb8 => (AddressMode::Imp, Opcode::Clv, 2),
            0xb9 => (AddressMode::Aby, Opcode::Lda, 4),
            0xba => (AddressMode::Imp, Opcode::Tsx, 2),
            0xbb => (AddressMode::Aby, Opcode::Xxx, 4),
            0xbc => (AddressMode::Abx, Opcode::Ldy, 4),
            0xbd => (AddressMode::Abx, Opcode::Lda, 4),
            0xbe => (AddressMode::Aby, Opcode::Ldx, 4),
            0xbf => (AddressMode::Aby, Opcode::Xxx, 4),
            0xc0 => (AddressMode::Imm, Opcode::Cpy, 2),
            0xc1 => (AddressMode::Izx, Opcode::Cmp, 6),
            0xc2 => (AddressMode::Imm, Opcode::Nop, 2),
            0xc3 => (AddressMode::Izx, Opcode::Xxx, 8),
            0xc4 => (AddressMode::Zp0, Opcode::Cpy, 3),
            0xc5 => (AddressMode::Zp0, Opcode::Cmp, 3),
            0xc6 => (AddressMode::Zp0, Opcode::Dec, 5),
            0xc7 => (AddressMode::Zp0, Opcode::Xxx, 5),
            0xc8 => (AddressMode::Imp, Opcode::Iny, 2),
            0xc9 => (AddressMode::Imm, Opcode::Cmp, 2),
            0xca => (AddressMode::Imp, Opcode::Dex, 2),
            0xcb => (AddressMode::Imm, Opcode::Xxx, 2),
            0xcc => (AddressMode::Abs, Opcode::Cpy, 4),
            0xcd => (AddressMode::Abs, Opcode::Cmp, 4),
            0xce => (AddressMode::Abs, Opcode::Dec, 6),
            0xcf => (AddressMode::Abs, Opcode::Xxx, 6),
            0xd0 => (AddressMode::Rel, Opcode::Bne, 2),
            0xd1 => (AddressMode::Izy, Opcode::Cmp, 5),
            0xd2 => (AddressMode::Imp, Opcode::Xxx, 2),
            0xd3 => (AddressMode::Izy, Opcode::Xxx, 8),
            0xd4 => (AddressMode::Zpx, Opcode::Nop, 4),
            0xd5 => (AddressMode::Zpx, Opcode::Cmp, 4),
            0xd6 => (AddressMode::Zpx, Opcode::Dec, 6),
            0xd7 => (AddressMode::Zpx, Opcode::Xxx, 6),
            0xd8 => (AddressMode::Imp, Opcode::Cld, 2),
            0xd9 => (AddressMode::Aby, Opcode::Cmp, 4),
            0xda => (AddressMode::Imp, Opcode::Nop, 2),
            0xdb => (AddressMode::Aby, Opcode::Xxx, 7),
            0xdc => (AddressMode::Abx, Opcode::Nop, 4),
            0xdd => (AddressMode::Abx, Opcode::Cmp, 4),
            0xde => (AddressMode::Abx, Opcode::Dec, 7),
            0xdf => (AddressMode::Abx, Opcode::Xxx, 7),
            0xe0 => (AddressMode::Imm, Opcode::Cpx, 2),
            0xe1 => (AddressMode::Izx, Opcode::Sbc, 6),
            0xe2 => (AddressMode::Imm, Opcode::Nop, 2),
            0xe3 => (AddressMode::Izx, Opcode::Xxx, 8),
            0xe4 => (AddressMode::Zp0, Opcode::Cpx, 3),
            0xe5 => (AddressMode::Zp0, Opcode::Sbc, 3),
            0xe6 => (AddressMode::Zp0, Opcode::Inc, 5),
            0xe7 => (AddressMode::Zp0, Opcode::Xxx, 5),
            0xe8 => (AddressMode::Imp, Opcode::Inx, 2),
            0xe9 => (AddressMode::Imm, Opcode::Sbc, 2),
            0xea => (AddressMode::Imp, Opcode::Nop, 2),
            0xeb => (AddressMode::Imm, Opcode::Nop, 2),
            0xec => (AddressMode::Abs, Opcode::Cpx, 4),
            0xed => (AddressMode::Abs, Opcode::Sbc, 4),
            0xee => (AddressMode::Abs, Opcode::Inc, 6),
            0xef => (AddressMode::Abs, Opcode::Xxx, 6),
            0xf0 => (AddressMode::Rel, Opcode::Beq, 2),
            0xf1 => (AddressMode::Izy, Opcode::Sbc, 5),
            0xf2 => (AddressMode::Imp, Opcode::Xxx, 2),
            0xf3 => (AddressMode::Izy, Opcode::Xxx, 8),
            0xf4 => (AddressMode::Zpx, Opcode::Nop, 4),
            0xf5 => (AddressMode::Zpx, Opcode::Sbc, 4),
            0xf6 => (AddressMode::Zpx, Opcode::Inc, 6),
            0xf7 => (AddressMode::Zpx, Opcode::Xxx, 6),
            0xf8 => (AddressMode::Imp, Opcode::Sed, 2),
            0xf9 => (AddressMode::Aby, Opcode::Sbc, 4),
            0xfa => (AddressMode::Imp, Opcode::Nop, 2),
            0xfb => (AddressMode::Aby, Opcode::Xxx, 7),
            0xfc => (AddressMode::Abx, Opcode::Nop, 4),
            0xfd => (AddressMode::Abx, Opcode::Sbc, 4),
            0xfe => (AddressMode::Abx, Opcode::Inc, 7),
            0xff => (AddressMode::Abx, Opcode::Xxx, 7),
    })
}

} // verus!
