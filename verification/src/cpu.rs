//! The 6502 processor model: registers, status flags, the micro-code state
//! machine that performs exactly one bus access per tick, and the opcode
//! dispatch that realises the documented instruction semantics and timing.

use vstd::prelude::*;

use crate::memory::Memory;

verus! {

/// Carry flag bit of the status register.
pub const STATUS_C: u8 = 0x01;
/// Zero flag bit.
pub const STATUS_Z: u8 = 0x02;
/// Interrupt-disable flag bit.
pub const STATUS_I: u8 = 0x04;
/// Decimal-mode flag bit; arithmetic ignores it on this processor.
pub const STATUS_D: u8 = 0x08;
/// Break flag bit, only meaningful inside pushed copies of the status byte.
pub const STATUS_B: u8 = 0x10;
/// Unused flag bit; reads as one in any pushed status byte.
pub const STATUS_U: u8 = 0x20;
/// Overflow flag bit.
pub const STATUS_V: u8 = 0x40;
/// Negative flag bit, mirroring bit seven of the last result.
pub const STATUS_N: u8 = 0x80;

/// Address of the low byte of the reset vector.
pub const INTERRUPT_RESET: u16 = 0xFFFC;
/// Address of the low byte of the non-maskable-interrupt vector.
pub const INTERRUPT_NMI: u16 = 0xFFFA;
/// Address of the low byte of the maskable-interrupt vector.
pub const INTERRUPT_IRQ: u16 = 0xFFFE;

/// The processor status byte, kept as a plain bit mask over the
/// `STATUS_*` constants.
#[derive(Clone, Copy, PartialEq, Eq, Structural, Debug)]
pub struct StatusFlag {
    pub bits: u8,
}

impl StatusFlag {
    /// A status byte with every flag clear.
    pub fn empty() -> (r: StatusFlag)
        ensures
            r.bits == 0,
    {
        StatusFlag { bits: 0 }
    }

    /// The raw byte.
    pub fn bits(&self) -> (r: u8)
        ensures
            r == self.bits,
    {
        self.bits
    }

    /// Whether every bit of `mask` is set.
    pub fn contains(&self, mask: u8) -> (r: bool)
        ensures
            r == (self.bits & mask == mask),
    {
        self.bits & mask == mask
    }

    /// Replace the whole byte at once.
    pub fn set_from_byte(&mut self, value: u8)
        ensures
            final(self).bits == value,
    {
        self.bits = value;
    }

    /// Set the bits of `mask`, leaving the rest alone.
    pub fn insert(&mut self, mask: u8)
        ensures
            final(self).bits == old(self).bits | mask,
    {
        self.bits = self.bits | mask;
    }

    /// Clear the bits of `mask`, leaving the rest alone.
    pub fn remove(&mut self, mask: u8)
        ensures
            final(self).bits == old(self).bits & !mask,
    {
        self.bits = self.bits & !mask;
    }

    /// Set or clear the bits of `mask` according to `value`.
    pub fn set(&mut self, mask: u8, value: bool)
        ensures
            final(self).bits == if value {
                old(self).bits | mask
            } else {
                old(self).bits & !mask
            },
    {
        if value {
            self.insert(mask);
        } else {
            self.remove(mask);
        }
    }
}

/// The programmer-visible register file.
#[derive(Clone, Copy, PartialEq, Eq, Structural, Debug)]
pub struct CPURegisters {
    /// The accumulator.
    pub a: u8,
    /// The X index register.
    pub x: u8,
    /// The Y index register.
    pub y: u8,
    /// The stack pointer; the stack lives at 0x0100..=0x01FF.
    pub sp: u8,
    /// The status byte.
    pub p: StatusFlag,
    /// The program counter.
    pub pc: u16,
}

impl Default for CPURegisters {
    /// All registers start at zero.
    fn default() -> (r: CPURegisters)
        ensures
            r.a == 0 && r.x == 0 && r.y == 0 && r.sp == 0 && r.p.bits == 0 && r.pc == 0,
    {
        CPURegisters { a: 0, x: 0, y: 0, sp: 0, p: StatusFlag { bits: 0 }, pc: 0 }
    }
}

/// The set of interrupt requests waiting to be sampled at the next
/// instruction fetch.
#[derive(Clone, Copy, PartialEq, Eq, Structural, Debug)]
pub struct Interrupt {
    /// A maskable interrupt is pending.
    pub irq: bool,
    /// A non-maskable interrupt edge is pending.
    pub nmi: bool,
    /// A reset is pending.
    pub reset: bool,
}

impl Interrupt {
    /// No request pending.
    pub fn empty() -> (r: Interrupt)
        ensures
            !r.irq && !r.nmi && !r.reset,
    {
        Interrupt { irq: false, nmi: false, reset: false }
    }

    /// Whether any request is pending.
    pub fn any(&self) -> (r: bool)
        ensures
            r == (self.irq || self.nmi || self.reset),
    {
        self.irq || self.nmi || self.reset
    }

    /// Drop every pending request.
    pub fn clear(&mut self)
        ensures
            !final(self).irq && !final(self).nmi && !final(self).reset,
    {
        self.irq = false;
        self.nmi = false;
        self.reset = false;
    }
}

/// An interrupt pin with an optional assertion delay, counted in ticks.
#[derive(Clone, Copy, PartialEq, Eq, Structural, Debug)]
pub struct Pin {
    /// Ticks left before an asserted pin is seen.
    pub delay: u32,
    /// Whether the pin is asserted.
    pub state: bool,
}

impl Pin {
    /// A released pin.
    pub fn default() -> (r: Pin)
        ensures
            r.delay == 0 && !r.state,
    {
        Pin { delay: 0, state: false }
    }

    /// Assert the pin immediately.
    pub fn pull(&mut self)
        ensures
            final(self).delay == 0 && final(self).state,
    {
        self.delay = 0;
        self.state = true;
    }

    /// Release the pin.
    pub fn clear(&mut self)
        ensures
            final(self).delay == 0 && !final(self).state,
    {
        self.delay = 0;
        self.state = false;
    }

    /// Assert the pin, visible only after `delay` ticks.
    pub fn pull_with_delay(&mut self, delay: u32)
        ensures
            final(self).delay == delay && final(self).state,
    {
        self.delay = delay;
        self.state = true;
    }

    /// Whether the pin is asserted and its delay has elapsed.
    pub fn is_pulled(&self) -> (r: bool)
        ensures
            r == (self.delay == 0 && self.state),
    {
        self.delay == 0 && self.state
    }

    /// Let one tick of the assertion delay pass.
    pub fn decrease_delay(&mut self)
        ensures
            final(self).delay == if old(self).delay > 0 {
                (old(self).delay - 1) as u32
            } else {
                0u32
            },
            final(self).state == old(self).state,
    {
        if self.delay > 0 {
            self.delay = self.delay - 1;
        }
    }
}

/// A sixteen-bit address held as two bytes, with the carry of the last
/// low-byte addition kept aside so a page crossing can spend its own tick.
#[derive(Clone, Copy, PartialEq, Eq, Structural, Debug)]
pub struct Int16 {
    /// The low byte.
    pub lo: u8,
    /// The high byte.
    pub hi: u8,
    /// Whether the last low-byte addition wrapped.
    pub is_carry: bool,
}

impl Int16 {
    /// Build from the two bytes, with no carry pending.
    pub fn new(lo: u8, hi: u8) -> (r: Int16)
        ensures
            r.lo == lo && r.hi == hi && !r.has_carry_spec(),
    {
        Int16 { lo, hi, is_carry: false }
    }

    /// Build from a full sixteen-bit value, with no carry pending.
    pub fn new_from_16(number: u16) -> (r: Int16)
        ensures
            r.lo == number % 256 && r.hi == number / 256 && !r.has_carry_spec(),
    {
        Int16 { lo: (number % 256) as u8, hi: (number / 256) as u8, is_carry: false }
    }

    /// Whether a low-byte carry is pending.
    pub open spec fn has_carry_spec(&self) -> bool {
        self.is_carry
    }

    /// The sixteen-bit value the two bytes spell.
    pub open spec fn spec_u16(&self) -> int {
        self.hi * 256 + self.lo
    }

    /// Overwrite both bytes from a sixteen-bit value; the carry is untouched.
    pub fn set_u16(&mut self, number: u16)
        ensures
            final(self).lo == number % 256,
            final(self).hi == number / 256,
            final(self).has_carry_spec() == old(self).has_carry_spec(),
    {
        self.lo = (number % 256) as u8;
        self.hi = (number / 256) as u8;
    }

    /// Read the two bytes as one sixteen-bit value.
    pub fn to_u16(&self) -> (r: u16)
        ensures
            r == self.spec_u16(),
    {
        let hi = self.hi as u16;
        let lo = self.lo as u16;
        hi * 256 + lo
    }

    /// Read the two bytes as an index.
    pub fn to_usize(&self) -> (r: usize)
        ensures
            r == self.spec_u16(),
    {
        self.to_u16() as usize
    }

    /// Add `number` to the low byte alone, recording whether it wrapped.
    pub fn add_offset(&mut self, number: u8)
        ensures
            final(self).lo == (old(self).lo + number) % 256,
            final(self).hi == old(self).hi,
            final(self).has_carry_spec() == (old(self).lo + number >= 256),
    {
        let result: u16 = (self.lo as u16) + (number as u16);
        self.is_carry = result >= 0x100;
        self.lo = (result % 256) as u8;
    }

    /// Fold a pending low-byte carry into the high byte.
    pub fn add_hi_from_carry(&mut self)
        ensures
            final(self).lo == old(self).lo,
            final(self).hi == if old(self).has_carry_spec() {
                ((old(self).hi + 1) % 256) as u8
            } else {
                old(self).hi
            },
            !final(self).has_carry_spec(),
    {
        if self.is_carry {
            self.hi = self.hi.wrapping_add(1);
            self.clear_carry();
        }
    }

    /// Forget any pending carry.
    pub fn clear_carry(&mut self)
        ensures
            final(self).lo == old(self).lo,
            final(self).hi == old(self).hi,
            !final(self).has_carry_spec(),
    {
        self.is_carry = false;
    }

    /// Whether a low-byte carry is pending.
    pub fn has_carry(&self) -> (r: bool)
        ensures
            r == self.has_carry_spec(),
    {
        self.is_carry
    }
}

/// Which index register an addressing mode folds into the operand address.
#[derive(Clone, Copy, PartialEq, Eq, Structural, Debug)]
pub enum RegisterAccess {
    A,
    X,
    Y,
    NoIndex,
}

/// The thirteen addressing modes of the instruction set.
#[derive(Clone, Copy, PartialEq, Eq, Structural, Debug)]
pub enum AddressMode {
    Imp,
    Acc,
    Abs,
    Abx,
    Aby,
    Imm,
    Zp0,
    Zpx,
    Zpy,
    Izx,
    Izy,
    Rel,
    Ind,
}

/// The mnemonics of the official instruction set, plus `Xxx` for the
/// undefined encodings, which run as cycle-counted no-operations.
#[derive(Clone, Copy, PartialEq, Eq, Structural, Debug)]
pub enum Opcode {
    Xxx,
    Brk,
    Jsr,
    Rti,
    Rts,
    Ora,
    And,
    Eor,
    Adc,
    Sta,
    Lda,
    Cmp,
    Sbc,
    Asl,
    Rol,
    Lsr,
    Ror,
    Stx,
    Ldx,
    Dec,
    Inc,
    Bit,
    Jmp,
    Sty,
    Ldy,
    Cpy,
    Cpx,
    Bpl,
    Bmi,
    Bvc,
    Bvs,
    Bcc,
    Bcs,
    Bne,
    Beq,
    Php,
    Plp,
    Pha,
    Pla,
    Dey,
    Tay,
    Iny,
    Inx,
    Clc,
    Sec,
    Cli,
    Sei,
    Tya,
    Clv,
    Cld,
    Sed,
    Txa,
    Txs,
    Tax,
    Tsx,
    Dex,
    Nop,
}

/// The bus cycle the state machine performs on its next tick. Every state
/// makes exactly one bus access: a fetch, an operand read or write, or a
/// discarded read on the internal cycles the hardware spends the same way.
#[derive(Clone, Copy, PartialEq, Eq, Structural, Debug)]
pub enum Microcode {
    FetchOpcode,
    FetchImm,
    FetchLo,
    FetchHi,
    FetchHiX,
    FetchHiY,
    FetchLoZP,
    FetchLoZP1,
    FetchIZX1,
    FetchIZX2,
    FetchIZX3,
    FetchIZX4,
    FetchIZY1,
    FetchIZY2,
    FetchIZY3,
    SetCrossPage,
    IndReadLo,
    IndReadHi,
    IndReadActualLo,
    IndReadActualHiAndJump,
    Execute,
    ShiftA,
    ShiftWrite,
    ShiftAddAndWrite,
    BrkPushPCLo,
    BrkPushStatus,
    BrkPushReadPCLo,
    BrkPushReadPCHi,
    BrkSetPC,
    PhaPushStack,
    PlaPull,
    PlaPull1,
    PhpPushStack,
    PlpPull,
    PlpPull1,
    JsrSaveHiPrevPc,
    JsrSaveLoPrevPc,
    JsrJump,
    RtsGetPcLo,
    RtsGetPcHi,
    RtsWasteOneCycle,
    RtsJump,
    RtiPopStatus,
    RtiPopLoPC,
    RtiPopHiPC,
    RtiSetPC,
    BranchReadOffsetAndCheck,
    BranchJumpIfTrue,
    BranchJumpIfTrueAndCrossPage,
    IncDecWriteOld,
    IncDecWriteNew,
}


/// The signed value a byte spells in two's complement.
pub open spec fn spec_signed(b: u8) -> int {
    if b >= 128 {
        b - 256
    } else {
        b as int
    }
}

/// Add `a + m + carry` as the processor does, returning the wrapped result,
/// the unsigned carry out, and the signed-overflow flag.
pub fn alu_adc(a: u8, m: u8, carry_in: bool) -> (r: (u8, bool, bool))
    ensures
        r.0 == (a + m + (if carry_in { 1int } else { 0int })) % 256,
        r.1 == (a + m + (if carry_in { 1int } else { 0int }) > 255),
        r.2 == ({
            let s = spec_signed(a) + spec_signed(m) + (if carry_in { 1int } else { 0int });
            s > 127 || s < -128
        }),
{
    let cin: u16 = if carry_in { 1 } else { 0 };
    let sum: u16 = (a as u16) + (m as u16) + cin;
    let result: u8 = (sum % 256) as u8;
    let carry: bool = sum > 255;
    let sa: i32 = if a >= 128 { (a as i32) - 256 } else { a as i32 };
    let sm: i32 = if m >= 128 { (m as i32) - 256 } else { m as i32 };
    let ss: i32 = sa + sm + (cin as i32);
    let overflow: bool = ss > 127 || ss < -128;
    (result, carry, overflow)
}

/// One step of the shifter: the shifted byte and the carry that falls out.
/// `Asl` and `Lsr` discard the incoming carry; `Rol` and `Ror` rotate it in.
pub fn shift_value(op: Opcode, value: u8, carry_in: bool) -> (r: (u8, bool))
    requires
        op is Asl || op is Lsr || op is Rol || op is Ror,
    ensures
        op is Asl ==> r.0 == (value * 2) % 256 && r.1 == (value >= 128),
        op is Lsr ==> r.0 == value / 2 && r.1 == (value % 2 == 1),
        op is Rol ==> r.0 == (value * 2 + (if carry_in { 1int } else { 0int })) % 256 && r.1 == (
        value >= 128),
        op is Ror ==> r.0 == value / 2 + (if carry_in { 128int } else { 0int }) && r.1 == (value % 2
            == 1),
{
    let cin: u16 = if carry_in { 1 } else { 0 };
    match op {
        Opcode::Asl => ((((value as u16) * 2) % 256) as u8, value >= 128),
        Opcode::Lsr => (value / 2, value % 2 == 1),
        Opcode::Rol => ((((value as u16) * 2 + cin) % 256) as u8, value >= 128),
        _ => (value / 2 + if carry_in { 128 } else { 0 }, value % 2 == 1),
    }
}


/// A status byte with one flag forced to a level, as `StatusFlag::set`
/// leaves it.
pub open spec fn flag_set(p: u8, mask: u8, on: bool) -> u8 {
    if on {
        p | mask
    } else {
        p & !mask
    }
}

/// A status byte with the negative and zero flags set from a result, as
/// `set_nz` leaves it.
pub open spec fn nz_flags(p: u8, value: u8) -> u8 {
    (p & !(STATUS_N | STATUS_Z)) | (if value == 0 {
        STATUS_Z
    } else {
        0
    }) | (if value >= 128 {
        STATUS_N
    } else {
        0
    })
}

/// A status byte with carry, zero and negative set from the comparison
/// `r - m`, as `compare` leaves it.
pub open spec fn compare_flags(p: u8, r: u8, m: u8) -> u8 {
    (p & !(STATUS_N | STATUS_Z | STATUS_C)) | (if r >= m {
        STATUS_C
    } else {
        0
    }) | (if r == m {
        STATUS_Z
    } else {
        0
    }) | (if (r - m) % 256 >= 128 {
        STATUS_N
    } else {
        0
    })
}

/// Whether `a + m + carry` overflows as a signed sum.
pub open spec fn adc_overflows(a: u8, m: u8, carry: int) -> bool {
    let s = spec_signed(a) + spec_signed(m) + carry;
    s > 127 || s < -128
}

/// The shifted byte and carry out of each shifter mnemonic, as
/// `shift_value` computes them.
pub open spec fn shift_result(op: Opcode, v: u8, carry_in: bool) -> (u8, bool) {
    if op is Asl {
        (((v * 2) % 256) as u8, v >= 128)
    } else if op is Lsr {
        ((v / 2) as u8, v % 2 == 1)
    } else if op is Rol {
        (((v * 2 + (if carry_in {
            1int
        } else {
            0int
        })) % 256) as u8, v >= 128)
    } else {
        ((v / 2 + (if carry_in {
            128int
        } else {
            0int
        })) as u8, v % 2 == 1)
    }
}

/// The bus ticks an instruction of each addressing mode spends of its
/// own: the opcode fetch, the operand-address assembly without a page
/// crossing, and the execute tick.
pub open spec fn mode_base_ticks(mode: AddressMode) -> u32 {
    match mode {
        AddressMode::Imp | AddressMode::Acc | AddressMode::Imm | AddressMode::Rel => 2u32,
        AddressMode::Zp0 => 3u32,
        AddressMode::Zpx | AddressMode::Zpy | AddressMode::Abs | AddressMode::Abx
            | AddressMode::Aby => 4u32,
        AddressMode::Izy | AddressMode::Ind => 5u32,
        AddressMode::Izx => 6u32,
    }
}

/// The filler ticks the decode loads for a cycle-counted no-operation:
/// whatever the table's count asks beyond the mode's own ticks.
pub open spec fn filler_ticks(mode: AddressMode, cyc: u32) -> u32 {
    if cyc > mode_base_ticks(mode) {
        (cyc - mode_base_ticks(mode)) as u32
    } else {
        0u32
    }
}

/// The operand state each addressing mode enters after decode.
pub open spec fn dispatch_state(mode: AddressMode) -> Microcode {
    match mode {
        AddressMode::Acc => Microcode::ShiftA,
        AddressMode::Imp => Microcode::Execute,
        AddressMode::Imm => Microcode::FetchImm,
        AddressMode::Abs => Microcode::FetchLo,
        AddressMode::Abx => Microcode::FetchLo,
        AddressMode::Aby => Microcode::FetchLo,
        AddressMode::Zp0 => Microcode::FetchLoZP,
        AddressMode::Zpx => Microcode::FetchLoZP,
        AddressMode::Zpy => Microcode::FetchLoZP,
        AddressMode::Izx => Microcode::FetchIZX1,
        AddressMode::Izy => Microcode::FetchIZY1,
        AddressMode::Ind => Microcode::IndReadLo,
        AddressMode::Rel => Microcode::BranchReadOffsetAndCheck,
    }
}

/// The status bit each branch mnemonic tests.
pub open spec fn branch_mask_of(op: Opcode) -> u8 {
    if op is Bpl || op is Bmi {
        STATUS_N
    } else if op is Bvc || op is Bvs {
        STATUS_V
    } else if op is Bcc || op is Bcs {
        STATUS_C
    } else {
        STATUS_Z
    }
}

/// The level of that bit on which the branch is taken.
pub open spec fn branch_level_of(op: Opcode) -> bool {
    op is Bmi || op is Bvs || op is Bcs || op is Beq
}

/// Every ordinary cell keeps its byte across the tick: the frame of a
/// tick whose one bus access is a read.
pub open spec fn mem_unchanged<M: Memory>(mem: M, post_mem: M) -> bool {
    forall|b: int| mem.plain(b) ==> post_mem.value_at(b) == mem.value_at(b)
}

/// Every ordinary cell outside the storage written at `a` keeps its
/// byte: the frame of a tick whose one bus access is a write at `a`.
pub open spec fn mem_wrote_at<M: Memory>(mem: M, post_mem: M, a: int) -> bool {
    forall|b: int|
        mem.plain(b) && mem.cell(b) != mem.cell(a) ==> post_mem.value_at(b) == mem.value_at(b)
}

/// The vector a pending interrupt reads its handler address from.
pub open spec fn vector_of(i: Interrupt) -> int {
    if i.reset {
        INTERRUPT_RESET as int
    } else if i.nmi {
        INTERRUPT_NMI as int
    } else {
        INTERRUPT_IRQ as int
    }
}

/// What the execute tick of an instruction does: for each mnemonic the
/// registers, flags and memory cell after the tick, with `m` the operand
/// byte the memory holds at the resolved address. Write effects are
/// stated for ordinary cells; mnemonics that never reach this tick are
/// unconstrained.
#[verifier::opaque]
pub open spec fn exec_effect<M: Memory>(pre: CPU, mem: M, post: CPU, post_mem: M) -> bool {
    let abs = pre.absolute_address as int;
    let m = mem.value_at(abs);
    let a = pre.regs.a;
    let p = pre.regs.p.bits;
    let carry_in: int = if p & STATUS_C == STATUS_C {
        1int
    } else {
        0int
    };
    &&& (!(pre.opcode_type is Sta || pre.opcode_type is Stx || pre.opcode_type is Sty
        || pre.opcode_type is Brk) ==> mem_unchanged(mem, post_mem))
    &&& (pre.opcode_type is Lda ==> post.regs == (CPURegisters {
        a: m,
        p: (StatusFlag { bits: nz_flags(p, m) }),
        ..pre.regs
    }) && post.state is FetchOpcode)
    &&& (pre.opcode_type is Ldx ==> post.regs == (CPURegisters {
        x: m,
        p: (StatusFlag { bits: nz_flags(p, m) }),
        ..pre.regs
    }) && post.state is FetchOpcode)
    &&& (pre.opcode_type is Ldy ==> post.regs == (CPURegisters {
        y: m,
        p: (StatusFlag { bits: nz_flags(p, m) }),
        ..pre.regs
    }) && post.state is FetchOpcode)
    &&& (pre.opcode_type is Sta ==> post.regs == pre.regs && post.state is FetchOpcode && (
    mem.plain(abs) ==> post_mem.value_at(abs) == pre.regs.a) && mem_wrote_at(mem, post_mem, abs))
    &&& (pre.opcode_type is Stx ==> post.regs == pre.regs && post.state is FetchOpcode && (
    mem.plain(abs) ==> post_mem.value_at(abs) == pre.regs.x) && mem_wrote_at(mem, post_mem, abs))
    &&& (pre.opcode_type is Sty ==> post.regs == pre.regs && post.state is FetchOpcode && (
    mem.plain(abs) ==> post_mem.value_at(abs) == pre.regs.y) && mem_wrote_at(mem, post_mem, abs))
    &&& (pre.opcode_type is And ==> post.regs == (CPURegisters {
        a: a & m,
        p: (StatusFlag { bits: nz_flags(p, a & m) }),
        ..pre.regs
    }) && post.state is FetchOpcode)
    &&& (pre.opcode_type is Ora ==> post.regs == (CPURegisters {
        a: a | m,
        p: (StatusFlag { bits: nz_flags(p, a | m) }),
        ..pre.regs
    }) && post.state is FetchOpcode)
    &&& (pre.opcode_type is Eor ==> post.regs == (CPURegisters {
        a: a ^ m,
        p: (StatusFlag { bits: nz_flags(p, a ^ m) }),
        ..pre.regs
    }) && post.state is FetchOpcode)
    &&& (pre.opcode_type is Bit ==> post.regs == (CPURegisters {
        p: (StatusFlag {
            bits: flag_set(
                flag_set(flag_set(p, STATUS_Z, m & a == 0), STATUS_N, m & STATUS_N != 0),
                STATUS_V,
                m & STATUS_V != 0,
            ),
        }),
        ..pre.regs
    }) && post.state is FetchOpcode)
    &&& (pre.opcode_type is Adc ==> ({
        let sum = a + m + carry_in;
        let r8 = (sum % 256) as u8;
        post.regs == (CPURegisters {
            a: r8,
            p: (StatusFlag {
                bits: nz_flags(
                    flag_set(
                        flag_set(p, STATUS_C, sum > 255),
                        STATUS_V,
                        adc_overflows(a, m, carry_in),
                    ),
                    r8,
                ),
            }),
            ..pre.regs
        }) && post.state is FetchOpcode
    }))
    &&& (pre.opcode_type is Sbc ==> ({
        let minv = (255 - m) as u8;
        let sum = a + minv + carry_in;
        let r8 = (sum % 256) as u8;
        post.regs == (CPURegisters {
            a: r8,
            p: (StatusFlag {
                bits: nz_flags(
                    flag_set(
                        flag_set(p, STATUS_C, sum > 255),
                        STATUS_V,
                        adc_overflows(a, minv, carry_in),
                    ),
                    r8,
                ),
            }),
            ..pre.regs
        }) && post.state is FetchOpcode
    }))
    &&& (pre.opcode_type is Cmp ==> post.regs == (CPURegisters {
        p: (StatusFlag { bits: compare_flags(p, a, m) }),
        ..pre.regs
    }) && post.state is FetchOpcode)
    &&& (pre.opcode_type is Cpx ==> post.regs == (CPURegisters {
        p: (StatusFlag { bits: compare_flags(p, pre.regs.x, m) }),
        ..pre.regs
    }) && post.state is FetchOpcode)
    &&& (pre.opcode_type is Cpy ==> post.regs == (CPURegisters {
        p: (StatusFlag { bits: compare_flags(p, pre.regs.y, m) }),
        ..pre.regs
    }) && post.state is FetchOpcode)
    &&& (pre.opcode_type is Tax ==> post.regs == (CPURegisters {
        x: a,
        p: (StatusFlag { bits: nz_flags(p, a) }),
        ..pre.regs
    }) && post.state is FetchOpcode)
    &&& (pre.opcode_type is Tay ==> post.regs == (CPURegisters {
        y: a,
        p: (StatusFlag { bits: nz_flags(p, a) }),
        ..pre.regs
    }) && post.state is FetchOpcode)
    &&& (pre.opcode_type is Txa ==> post.regs == (CPURegisters {
        a: pre.regs.x,
        p: (StatusFlag { bits: nz_flags(p, pre.regs.x) }),
        ..pre.regs
    }) && post.state is FetchOpcode)
    &&& (pre.opcode_type is Tya ==> post.regs == (CPURegisters {
        a: pre.regs.y,
        p: (StatusFlag { bits: nz_flags(p, pre.regs.y) }),
        ..pre.regs
    }) && post.state is FetchOpcode)
    &&& (pre.opcode_type is Tsx ==> post.regs == (CPURegisters {
        x: pre.regs.sp,
        p: (StatusFlag { bits: nz_flags(p, pre.regs.sp) }),
        ..pre.regs
    }) && post.state is FetchOpcode)
    &&& (pre.opcode_type is Txs ==> post.regs == (CPURegisters {
        sp: pre.regs.x,
        ..pre.regs
    }) && post.state is FetchOpcode)
    &&& (pre.opcode_type is Inx ==> post.regs == (CPURegisters {
        x: ((pre.regs.x + 1) % 256) as u8,
        p: (StatusFlag { bits: nz_flags(p, ((pre.regs.x + 1) % 256) as u8) }),
        ..pre.regs
    }) && post.state is FetchOpcode)
    &&& (pre.opcode_type is Iny ==> post.regs == (CPURegisters {
        y: ((pre.regs.y + 1) % 256) as u8,
        p: (StatusFlag { bits: nz_flags(p, ((pre.regs.y + 1) % 256) as u8) }),
        ..pre.regs
    }) && post.state is FetchOpcode)
    &&& (pre.opcode_type is Dex ==> post.regs == (CPURegisters {
        x: ((pre.regs.x - 1) % 256) as u8,
        p: (StatusFlag { bits: nz_flags(p, ((pre.regs.x - 1) % 256) as u8) }),
        ..pre.regs
    }) && post.state is FetchOpcode)
    &&& (pre.opcode_type is Dey ==> post.regs == (CPURegisters {
        y: ((pre.regs.y - 1) % 256) as u8,
        p: (StatusFlag { bits: nz_flags(p, ((pre.regs.y - 1) % 256) as u8) }),
        ..pre.regs
    }) && post.state is FetchOpcode)
    &&& (pre.opcode_type is Sec ==> post.regs == (CPURegisters {
        p: (StatusFlag { bits: p | STATUS_C }),
        ..pre.regs
    }) && post.state is FetchOpcode)
    &&& (pre.opcode_type is Clc ==> post.regs == (CPURegisters {
        p: (StatusFlag { bits: p & !STATUS_C }),
        ..pre.regs
    }) && post.state is FetchOpcode)
    &&& (pre.opcode_type is Sei ==> post.regs == (CPURegisters {
        p: (StatusFlag { bits: p | STATUS_I }),
        ..pre.regs
    }) && post.state is FetchOpcode)
    &&& (pre.opcode_type is Cli ==> post.regs == (CPURegisters {
        p: (StatusFlag { bits: p & !STATUS_I }),
        ..pre.regs
    }) && post.state is FetchOpcode)
    &&& (pre.opcode_type is Sed ==> post.regs == (CPURegisters {
        p: (StatusFlag { bits: p | STATUS_D }),
        ..pre.regs
    }) && post.state is FetchOpcode)
    &&& (pre.opcode_type is Cld ==> post.regs == (CPURegisters {
        p: (StatusFlag { bits: p & !STATUS_D }),
        ..pre.regs
    }) && post.state is FetchOpcode)
    &&& (pre.opcode_type is Clv ==> post.regs == (CPURegisters {
        p: (StatusFlag { bits: p & !STATUS_V }),
        ..pre.regs
    }) && post.state is FetchOpcode)
    &&& ((pre.opcode_type is Asl || pre.opcode_type is Lsr || pre.opcode_type is Rol
        || pre.opcode_type is Ror) ==> post.regs == pre.regs && post.fetched_data == m
        && post.state is ShiftWrite && post.absolute_address == pre.absolute_address
        && post.opcode_type == pre.opcode_type)
    &&& ((pre.opcode_type is Inc || pre.opcode_type is Dec) ==> post.regs == pre.regs
        && post.fetched_data == m && post.state is IncDecWriteOld && post.absolute_address
        == pre.absolute_address && post.opcode_type == pre.opcode_type)
    &&& (pre.opcode_type is Rts ==> post.regs == pre.regs && post.state is RtsGetPcLo)
    &&& (pre.opcode_type is Rti ==> post.regs == pre.regs && post.state is RtiPopStatus)
    &&& (pre.opcode_type is Pha ==> post.regs == pre.regs && post.state is PhaPushStack)
    &&& (pre.opcode_type is Pla ==> post.regs == pre.regs && post.state is PlaPull)
    &&& (pre.opcode_type is Php ==> post.regs == pre.regs && post.state is PhpPushStack)
    &&& (pre.opcode_type is Plp ==> post.regs == pre.regs && post.state is PlpPull)
    &&& (pre.opcode_type is Brk ==> ({
        let return_pc: int = if pre.interrupt_type.irq || pre.interrupt_type.nmi
            || pre.interrupt_type.reset {
            pre.regs.pc as int
        } else {
            (pre.regs.pc + 1) % 0x10000
        };
        &&& post.state is BrkPushPCLo
        &&& post.regs == (CPURegisters {
            sp: ((pre.regs.sp - 1) % 256) as u8,
            pc: return_pc as u16,
            ..pre.regs
        })
        &&& post.interrupt_type == pre.interrupt_type
        &&& post.address.lo == return_pc % 256
        &&& post.address.hi == return_pc / 256
        &&& (!pre.interrupt_type.reset && mem.plain(0x100 + pre.regs.sp) ==> post_mem.value_at(
            0x100 + pre.regs.sp,
        ) == return_pc / 256)
        &&& (pre.interrupt_type.reset ==> mem_unchanged(mem, post_mem))
        &&& (!pre.interrupt_type.reset ==> mem_wrote_at(mem, post_mem, 0x100 + pre.regs.sp))
    }))
    &&& ((pre.opcode_type is Nop || pre.opcode_type is Xxx) ==> ({
        &&& post.regs == pre.regs
        &&& (pre.cycles == 0 ==> post.state is FetchOpcode)
        &&& (pre.cycles > 0 ==> post.state == pre.state && post.cycles == pre.cycles - 1
            && post.opcode_type == pre.opcode_type && post.address_mode == pre.address_mode
            && post.absolute_address == pre.absolute_address)
    }))
}


/// The execute-tick effect speaks only of registers, decode fields and
/// memory: the tick counters may differ freely.
proof fn lemma_exec_effect_counters<M: Memory>(pre: CPU, mem: M, a: CPU, b: CPU, post_mem: M)
    requires
        exec_effect(pre, mem, a, post_mem),
        b == (CPU { total_cycles: b.total_cycles, accesses: b.accesses, ..a }),
    ensures
        exec_effect(pre, mem, b, post_mem),
{
    reveal(exec_effect);
}

/// One tick of the state machine: for each micro-state the fetch,
/// decode, branch resolution, interrupt sequencing, stack traffic and
/// write-back the tick performs, over the memory's value model. The
/// operand-address assembly states constrain the held address bytes; the
/// few not listed are unconstrained here.
pub open spec fn cpu_step_spec<M: Memory>(pre: CPU, mem: M, post: CPU, post_mem: M) -> bool {
    let p = pre.regs.p.bits;
    let pc_next = ((pre.regs.pc + 1) % 0x10000) as u16;
    &&& (forall|b: int| post_mem.plain(b) == mem.plain(b))
    &&& (forall|b: int| post_mem.cell(b) == mem.cell(b))
    &&& (pre.state is FetchOpcode ==> ({
        let take = pre.interrupt_type.nmi || pre.interrupt_type.reset || (pre.interrupt_type.irq
            && p & STATUS_I != STATUS_I);
        let op: u8 = if take {
            0u8
        } else {
            mem.value_at(pre.regs.pc as int)
        };
        &&& post.opcode == op
        &&& post.regs == (CPURegisters {
            pc: if take {
                pre.regs.pc
            } else {
                pc_next
            },
            ..pre.regs
        })
        &&& post.address_mode == crate::opcodes::spec_opcode_entry(op).0
        &&& post.opcode_type == crate::opcodes::spec_opcode_entry(op).1
        &&& post.cycles == filler_ticks(post.address_mode, crate::opcodes::spec_opcode_entry(op).2)
        &&& post.interrupt_type == pre.interrupt_type
        &&& post.state == dispatch_state(post.address_mode)
        &&& post.address.lo == 0 && post.address.hi == 0 && !post.address.has_carry_spec()
        &&& (post.address_mode is Abx || post.address_mode is Zpx ==> post.register_access is X)
        &&& (post.address_mode is Aby || post.address_mode is Zpy ==> post.register_access is Y)
        &&& (post.address_mode is Abs || post.address_mode is Zp0 ==> post.register_access
            is NoIndex)
        &&& (post.address_mode is Rel ==> post.branch_flag_mask == branch_mask_of(
            post.opcode_type,
        ) && post.branch_when == branch_level_of(post.opcode_type))
        &&& (forall|b: int| mem.plain(b) ==> post_mem.value_at(b) == mem.value_at(b))
    }))
    &&& (pre.state is FetchImm ==> exec_effect(
        (CPU {
            absolute_address: pre.regs.pc as usize,
            regs: (CPURegisters { pc: pc_next, ..pre.regs }),
            ..pre
        }),
        mem,
        post,
        post_mem,
    ))
    &&& (pre.state is Execute ==> exec_effect(pre, mem, post, post_mem))
    &&& (pre.state is BranchReadOffsetAndCheck ==> ({
        &&& post.relative_address == mem.value_at(pre.regs.pc as int) as i8
        &&& post.regs == (CPURegisters { pc: pc_next, ..pre.regs })
        &&& post.state == (if (p & pre.branch_flag_mask == pre.branch_flag_mask)
            == pre.branch_when {
            Microcode::BranchJumpIfTrue
        } else {
            Microcode::FetchOpcode
        })
        &&& mem_unchanged(mem, post_mem)
    }))
    &&& (pre.state is BranchJumpIfTrue ==> ({
        let target = vstd::wrapping::u16_specs::wrapping_add_signed(
            pre.regs.pc,
            pre.relative_address as i16,
        );
        &&& post.regs == (CPURegisters { pc: post.regs.pc, ..pre.regs })
        &&& (pre.regs.pc / 256 == target / 256 ==> post.regs.pc == target
            && post.state is FetchOpcode)
        &&& (pre.regs.pc / 256 != target / 256 ==> post.regs.pc == pre.regs.pc
            && post.relative_address == pre.relative_address
            && post.state is BranchJumpIfTrueAndCrossPage)
        &&& mem_unchanged(mem, post_mem)
    }))
    &&& (pre.state is BranchJumpIfTrueAndCrossPage ==> post.regs == (CPURegisters {
        pc: vstd::wrapping::u16_specs::wrapping_add_signed(
            pre.regs.pc,
            pre.relative_address as i16,
        ),
        ..pre.regs
    }) && post.state is FetchOpcode && mem_unchanged(mem, post_mem))
    &&& (pre.state is ShiftA && (pre.opcode_type is Asl || pre.opcode_type is Lsr
        || pre.opcode_type is Rol || pre.opcode_type is Ror) ==> ({
        let out = shift_result(pre.opcode_type, pre.regs.a, p & STATUS_C == STATUS_C);
        post.regs == (CPURegisters {
            a: out.0,
            p: (StatusFlag { bits: nz_flags(flag_set(p, STATUS_C, out.1), out.0) }),
            ..pre.regs
        }) && post.state is FetchOpcode && mem_unchanged(mem, post_mem)
    }))
    &&& (pre.state is ShiftWrite ==> post.regs == pre.regs
        && post.state is ShiftAddAndWrite && post.fetched_data == pre.fetched_data
        && post.absolute_address == pre.absolute_address && post.opcode_type == pre.opcode_type
        && (mem.plain(pre.absolute_address as int)
        ==> post_mem.value_at(pre.absolute_address as int) == pre.fetched_data) && mem_wrote_at(
        mem,
        post_mem,
        pre.absolute_address as int,
    ))
    &&& (pre.state is ShiftAddAndWrite && (pre.opcode_type is Asl || pre.opcode_type is Lsr
        || pre.opcode_type is Rol || pre.opcode_type is Ror) ==> ({
        let out = shift_result(pre.opcode_type, pre.fetched_data, p & STATUS_C == STATUS_C);
        &&& post.regs == (CPURegisters {
            p: (StatusFlag { bits: nz_flags(flag_set(p, STATUS_C, out.1), out.0) }),
            ..pre.regs
        })
        &&& post.state is FetchOpcode
        &&& (mem.plain(pre.absolute_address as int) ==> post_mem.value_at(
            pre.absolute_address as int,
        ) == out.0)
        &&& mem_wrote_at(mem, post_mem, pre.absolute_address as int)
    }))
    &&& (pre.state is IncDecWriteOld ==> post.regs == pre.regs
        && post.state is IncDecWriteNew && post.fetched_data == pre.fetched_data
        && post.absolute_address == pre.absolute_address && post.opcode_type == pre.opcode_type
        && (mem.plain(pre.absolute_address as int)
        ==> post_mem.value_at(pre.absolute_address as int) == pre.fetched_data) && mem_wrote_at(
        mem,
        post_mem,
        pre.absolute_address as int,
    ))
    &&& (pre.state is IncDecWriteNew ==> ({
        let out: u8 = if pre.opcode_type is Inc {
            ((pre.fetched_data + 1) % 256) as u8
        } else {
            ((pre.fetched_data - 1) % 256) as u8
        };
        &&& post.regs == (CPURegisters {
            p: (StatusFlag { bits: nz_flags(p, out) }),
            ..pre.regs
        })
        &&& post.state is FetchOpcode
        &&& (mem.plain(pre.absolute_address as int) ==> post_mem.value_at(
            pre.absolute_address as int,
        ) == out)
        &&& mem_wrote_at(mem, post_mem, pre.absolute_address as int)
    }))
    &&& (pre.state is BrkPushPCLo ==> post.state is BrkPushStatus && post.regs == (CPURegisters {
        sp: ((pre.regs.sp - 1) % 256) as u8,
        ..pre.regs
    }) && post.interrupt_type == pre.interrupt_type && (!pre.interrupt_type.reset && mem.plain(
        0x100 + pre.regs.sp,
    ) ==> post_mem.value_at(0x100 + pre.regs.sp) == pre.address.lo) && (pre.interrupt_type.reset
        ==> mem_unchanged(mem, post_mem)) && (!pre.interrupt_type.reset ==> mem_wrote_at(
        mem,
        post_mem,
        0x100 + pre.regs.sp,
    )))
    &&& (pre.state is BrkPushStatus ==> ({
        &&& post.state is BrkPushReadPCLo
        &&& post.interrupt_type == pre.interrupt_type
        &&& post.regs == (CPURegisters {
            sp: ((pre.regs.sp - 1) % 256) as u8,
            p: (StatusFlag {
                bits: if pre.interrupt_type.reset {
                    (p | (STATUS_I | STATUS_U)) & !STATUS_D
                } else {
                    p | STATUS_I
                },
            }),
            ..pre.regs
        })
        &&& (pre.interrupt_type.reset ==> mem_unchanged(mem, post_mem))
        &&& (!pre.interrupt_type.reset ==> mem_wrote_at(mem, post_mem, 0x100 + pre.regs.sp) && (
        mem.plain(0x100 + pre.regs.sp) ==> post_mem.value_at(0x100 + pre.regs.sp) == (if pre.interrupt_type.nmi
            || pre.interrupt_type.irq {
            (p | STATUS_U) & !STATUS_B
        } else {
            p | STATUS_U | STATUS_B
        })))
    }))
    &&& (pre.state is BrkPushReadPCLo ==> post.state is BrkPushReadPCHi && post.regs == pre.regs
        && post.interrupt_type == pre.interrupt_type && post.address.lo == mem.value_at(
        vector_of(pre.interrupt_type),
    ) && mem_unchanged(mem, post_mem))
    &&& (pre.state is BrkPushReadPCHi ==> post.state is BrkSetPC && post.regs == pre.regs
        && post.address.hi == mem.value_at(vector_of(pre.interrupt_type) + 1)
        && post.address.lo == pre.address.lo && mem_unchanged(mem, post_mem))
    &&& (pre.state is BrkSetPC ==> post.state is FetchOpcode && post.regs == (CPURegisters {
        pc: (pre.address.hi * 256 + pre.address.lo) as u16,
        ..pre.regs
    }) && !post.interrupt_type.irq && !post.interrupt_type.nmi && !post.interrupt_type.reset
        && mem_unchanged(mem, post_mem))
    &&& (pre.state is PhaPushStack ==> post.state is FetchOpcode && post.regs == (CPURegisters {
        sp: ((pre.regs.sp - 1) % 256) as u8,
        ..pre.regs
    }) && (mem.plain(0x100 + pre.regs.sp) ==> post_mem.value_at(0x100 + pre.regs.sp)
        == pre.regs.a) && mem_wrote_at(mem, post_mem, 0x100 + pre.regs.sp))
    &&& (pre.state is PlaPull ==> post.state is PlaPull1 && post.fetched_data == mem.value_at(
        0x100 + (pre.regs.sp + 1) % 256,
    ) && post.regs == (CPURegisters { sp: ((pre.regs.sp + 1) % 256) as u8, ..pre.regs })
        && mem_unchanged(mem, post_mem))
    &&& (pre.state is PlaPull1 ==> post.state is FetchOpcode && post.regs == (CPURegisters {
        a: pre.fetched_data,
        p: (StatusFlag { bits: nz_flags(p, pre.fetched_data) }),
        ..pre.regs
    }) && mem_unchanged(mem, post_mem))
    &&& (pre.state is PhpPushStack ==> post.state is FetchOpcode && post.regs == (CPURegisters {
        sp: ((pre.regs.sp - 1) % 256) as u8,
        ..pre.regs
    }) && (mem.plain(0x100 + pre.regs.sp) ==> post_mem.value_at(0x100 + pre.regs.sp) == p
        | STATUS_B | STATUS_U) && mem_wrote_at(mem, post_mem, 0x100 + pre.regs.sp))
    &&& (pre.state is PlpPull ==> post.state is PlpPull1 && post.fetched_data == mem.value_at(
        0x100 + (pre.regs.sp + 1) % 256,
    ) && post.regs == (CPURegisters { sp: ((pre.regs.sp + 1) % 256) as u8, ..pre.regs })
        && mem_unchanged(mem, post_mem))
    &&& (pre.state is PlpPull1 ==> post.state is FetchOpcode && post.regs == (CPURegisters {
        p: (StatusFlag {
            bits: (pre.fetched_data & !(STATUS_B | STATUS_U)) | (p & STATUS_B) | STATUS_U,
        }),
        ..pre.regs
    }) && mem_unchanged(mem, post_mem))
    &&& (pre.state is JsrSaveHiPrevPc ==> post.state is JsrSaveLoPrevPc && post.regs
        == (CPURegisters { sp: ((pre.regs.sp - 1) % 256) as u8, ..pre.regs }) && (mem.plain(
        0x100 + pre.regs.sp,
    ) ==> post_mem.value_at(0x100 + pre.regs.sp) == ((pre.regs.pc - 1) % 0x10000) / 256)
        && post.tmp_address.lo == ((pre.regs.pc - 1) % 0x10000) % 256 && post.absolute_address
        == pre.absolute_address && mem_wrote_at(mem, post_mem, 0x100 + pre.regs.sp))
    &&& (pre.state is JsrSaveLoPrevPc ==> post.state is JsrJump && post.regs == (CPURegisters {
        sp: ((pre.regs.sp - 1) % 256) as u8,
        ..pre.regs
    }) && (mem.plain(0x100 + pre.regs.sp) ==> post_mem.value_at(0x100 + pre.regs.sp)
        == pre.tmp_address.lo) && post.absolute_address == pre.absolute_address && mem_wrote_at(
        mem,
        post_mem,
        0x100 + pre.regs.sp,
    ))
    &&& (pre.state is JsrJump ==> post.state is FetchOpcode && post.regs == (CPURegisters {
        pc: pre.absolute_address as u16,
        ..pre.regs
    }) && mem_unchanged(mem, post_mem))
    &&& (pre.state is RtsGetPcLo ==> post.state is RtsGetPcHi && post.tmp_address.lo
        == mem.value_at(0x100 + (pre.regs.sp + 1) % 256) && post.regs == (CPURegisters {
        sp: ((pre.regs.sp + 1) % 256) as u8,
        ..pre.regs
    }) && mem_unchanged(mem, post_mem))
    &&& (pre.state is RtsGetPcHi ==> post.state is RtsWasteOneCycle && post.tmp_address.hi
        == mem.value_at(0x100 + (pre.regs.sp + 1) % 256) && post.tmp_address.lo
        == pre.tmp_address.lo && post.regs == (CPURegisters {
        sp: ((pre.regs.sp + 1) % 256) as u8,
        ..pre.regs
    }) && mem_unchanged(mem, post_mem))
    &&& (pre.state is RtsWasteOneCycle ==> post.state is RtsJump && post.regs == pre.regs
        && post.tmp_address == pre.tmp_address && mem_unchanged(mem, post_mem))
    &&& (pre.state is RtsJump ==> post.state is FetchOpcode && post.regs == (CPURegisters {
        pc: ((pre.tmp_address.hi * 256 + pre.tmp_address.lo + 1) % 0x10000) as u16,
        ..pre.regs
    }) && mem_unchanged(mem, post_mem))
    &&& (pre.state is RtiPopStatus ==> ({
        let pulled = mem.value_at(0x100 + (pre.regs.sp + 1) % 256);
        post.state is RtiPopLoPC && post.regs == (CPURegisters {
            sp: ((pre.regs.sp + 1) % 256) as u8,
            p: (StatusFlag {
                bits: (pulled & !(STATUS_B | STATUS_U)) | (p & STATUS_B) | STATUS_U,
            }),
            ..pre.regs
        }) && mem_unchanged(mem, post_mem)
    }))
    &&& (pre.state is RtiPopLoPC ==> post.state is RtiPopHiPC && post.address.lo == mem.value_at(
        0x100 + (pre.regs.sp + 1) % 256,
    ) && post.regs == (CPURegisters { sp: ((pre.regs.sp + 1) % 256) as u8, ..pre.regs })
        && mem_unchanged(mem, post_mem))
    &&& (pre.state is RtiPopHiPC ==> post.state is RtiSetPC && post.address.hi == mem.value_at(
        0x100 + (pre.regs.sp + 1) % 256,
    ) && post.address.lo == pre.address.lo && post.regs == (CPURegisters {
        sp: ((pre.regs.sp + 1) % 256) as u8,
        ..pre.regs
    }) && mem_unchanged(mem, post_mem))
    &&& (pre.state is RtiSetPC ==> post.state is FetchOpcode && post.regs == (CPURegisters {
        pc: (pre.address.hi * 256 + pre.address.lo) as u16,
        ..pre.regs
    }) && mem_unchanged(mem, post_mem))
}

/// The 6502 core. It is clocked once per bus cycle and performs exactly one
/// bus access on every tick, as the hardware does; `total_cycles` and
/// `accesses` therefore advance in step.
pub struct CPU {
    /// The programmer-visible registers.
    pub regs: CPURegisters,
    /// Ticks consumed since power-on.
    pub total_cycles: u64,
    /// Bus accesses performed since power-on; one per tick.
    pub accesses: u64,
    /// Filler ticks left for a multi-cycle no-operation.
    pub cycles: u32,
    /// The opcode being executed.
    pub opcode: u8,
    /// Interrupt requests waiting to be sampled at the next fetch.
    pub interrupt_type: Interrupt,
    /// Addressing mode of the current instruction.
    pub address_mode: AddressMode,
    /// Mnemonic of the current instruction.
    pub opcode_type: Opcode,
    /// Whether the last bus access was a read.
    pub is_read: bool,
    /// Operand address being assembled.
    pub address: Int16,
    /// Scratch address for indirection and return addresses.
    pub tmp_address: Int16,
    /// Scratch byte for indirection.
    pub temp: u8,
    /// The bus cycle to perform on the next tick.
    pub state: Microcode,
    /// The resolved operand address.
    pub absolute_address: usize,
    /// The branch displacement just fetched.
    pub relative_address: i8,
    /// The operand byte just fetched.
    pub fetched_data: u8,
    /// Which index register the addressing mode folds in.
    pub register_access: RegisterAccess,
    /// The status bit a pending branch tests.
    pub branch_flag_mask: u8,
    /// The value of that bit on which the branch is taken.
    pub branch_when: bool,
    /// Maskable-interrupt request pin.
    pub irq_pin: Pin,
    /// Non-maskable-interrupt request pin.
    pub nmi_pin: Pin,
    /// The program counter at the start of the current instruction.
    pub prev_pc: u16,
}

impl CPU {
    /// A core at power-on: registers zero, no interrupt pending, about to
    /// fetch its first opcode.
    pub fn new() -> (r: CPU)
        ensures
            r.regs == (CPURegisters {
                a: 0,
                x: 0,
                y: 0,
                sp: 0,
                p: StatusFlag { bits: 0 },
                pc: 0,
            }),
            r.total_cycles == 0,
            r.accesses == 0,
            r.state is FetchOpcode,
            !r.interrupt_type.irq && !r.interrupt_type.nmi && !r.interrupt_type.reset,
    {
        CPU {
            regs: Default::default(),
            total_cycles: 0,
            accesses: 0,
            cycles: 0,
            opcode: 0,
            interrupt_type: Interrupt::empty(),
            address_mode: AddressMode::Imp,
            opcode_type: Opcode::Brk,
            is_read: true,
            temp: 0,
            state: Microcode::FetchOpcode,
            absolute_address: 0,
            relative_address: 0,
            fetched_data: 0,
            address: Int16::new_from_16(0),
            tmp_address: Int16::new_from_16(0),
            register_access: RegisterAccess::NoIndex,
            irq_pin: Pin::default(),
            nmi_pin: Pin::default(),
            branch_flag_mask: 0,
            branch_when: false,
            prev_pc: 0,
        }
    }

    /// Request a reset: the next fetch begins the seven-tick reset sequence
    /// that loads the program counter from the reset vector.
    pub fn reset(&mut self)
        ensures
            final(self).interrupt_type == (Interrupt { reset: true, ..old(self).interrupt_type }),
            *final(self) == (CPU {
                interrupt_type: final(self).interrupt_type,
                state: Microcode::FetchOpcode,
                ..*old(self)
            }),
    {
        self.interrupt_type.reset = true;
        self.next_state(Microcode::FetchOpcode);
    }

    /// Request a maskable interrupt. The request is latched only while the
    /// interrupt-disable flag is clear.
    pub fn irq(&mut self)
        ensures
            final(self).interrupt_type.irq == (old(self).interrupt_type.irq || old(
                self,
            ).regs.p.bits & STATUS_I != STATUS_I),
            final(self).interrupt_type.nmi == old(self).interrupt_type.nmi,
            final(self).interrupt_type.reset == old(self).interrupt_type.reset,
            final(self).regs == old(self).regs,
            final(self).state == old(self).state,
            final(self).total_cycles == old(self).total_cycles,
            final(self).accesses == old(self).accesses,
    {
        if !self.regs.p.contains(STATUS_I) {
            self.interrupt_type.irq = true;
        }
    }

    /// Request a non-maskable interrupt; the edge is consumed by the next
    /// instruction fetch.
    pub fn nmi(&mut self)
        ensures
            final(self).interrupt_type.nmi,
            final(self).interrupt_type.irq == old(self).interrupt_type.irq,
            final(self).interrupt_type.reset == old(self).interrupt_type.reset,
            final(self).regs == old(self).regs,
            final(self).state == old(self).state,
            final(self).total_cycles == old(self).total_cycles,
            final(self).accesses == old(self).accesses,
    {
        self.interrupt_type.nmi = true;
    }

    /// True exactly between instructions: the next tick fetches an opcode.
    pub fn done(&self) -> (r: bool)
        ensures
            r == (self.state is FetchOpcode),
    {
        match self.state {
            Microcode::FetchOpcode => true,
            _ => false,
        }
    }

    /// Whether the last bus access was a read.
    pub fn is_read(&self) -> (r: bool)
        ensures
            r == self.is_read,
    {
        self.is_read
    }

    /// Perform the one bus read of this tick.
    fn read<M: Memory>(&mut self, memory: &mut M, address: usize) -> (r: u8)
        requires
            old(memory).inv(),
            old(self).accesses < u64::MAX,
        ensures
            r == old(memory).value_at(address as int),
            forall|b: int| final(memory).plain(b) == old(memory).plain(b),
            forall|b: int| final(memory).cell(b) == old(memory).cell(b),
            forall|b: int|
                old(memory).plain(b) ==> final(memory).value_at(b) == old(memory).value_at(b),
            final(memory).inv(),
            final(memory).clock_state() == old(memory).clock_state(),
            final(self).accesses == old(self).accesses + 1,
            final(self).is_read,
            *final(self) == (CPU { accesses: final(self).accesses, is_read: true, ..*old(self) }),
    {
        self.is_read = true;
        self.accesses = self.accesses + 1;
        memory.read(address, false)
    }

    /// Perform the one bus write of this tick.
    fn write<M: Memory>(&mut self, memory: &mut M, address: usize, value: u8)
        requires
            old(memory).inv(),
            old(self).accesses < u64::MAX,
        ensures
            forall|b: int| final(memory).plain(b) == old(memory).plain(b),
            forall|b: int| final(memory).cell(b) == old(memory).cell(b),
            old(memory).plain(address as int) ==> final(memory).value_at(address as int) == value,
            forall|b: int|
                old(memory).plain(b) && old(memory).cell(b) != old(memory).cell(address as int)
                    ==> final(memory).value_at(b) == old(memory).value_at(b),
            final(memory).inv(),
            final(memory).clock_state() == old(memory).clock_state(),
            final(self).accesses == old(self).accesses + 1,
            !final(self).is_read,
            *final(self) == (CPU { accesses: final(self).accesses, is_read: false, ..*old(self) }),
    {
        self.is_read = false;
        self.accesses = self.accesses + 1;
        memory.write(address, value);
    }

    /// Spend this tick's bus access on a discarded read, as the hardware does
    /// on its internal cycles.
    fn dummy_read<M: Memory>(&mut self, memory: &mut M)
        requires
            old(memory).inv(),
            old(self).accesses < u64::MAX,
        ensures
            forall|b: int| final(memory).plain(b) == old(memory).plain(b),
            forall|b: int| final(memory).cell(b) == old(memory).cell(b),
            forall|b: int|
                old(memory).plain(b) ==> final(memory).value_at(b) == old(memory).value_at(b),
            final(memory).inv(),
            final(memory).clock_state() == old(memory).clock_state(),
            final(self).accesses == old(self).accesses + 1,
            *final(self) == (CPU { accesses: final(self).accesses, is_read: true, ..*old(self) }),
    {
        let _ = self.read(memory, self.regs.pc as usize);
    }

    /// Push one byte: write at the stack pointer, then decrement it.
    fn push_stack<M: Memory>(&mut self, memory: &mut M, value: u8)
        requires
            old(memory).inv(),
            old(self).accesses < u64::MAX,
        ensures
            forall|b: int| final(memory).plain(b) == old(memory).plain(b),
            forall|b: int| final(memory).cell(b) == old(memory).cell(b),
            old(memory).plain(0x100 + old(self).regs.sp) ==> final(memory).value_at(
                0x100 + old(self).regs.sp,
            ) == value,
            forall|b: int|
                old(memory).plain(b) && old(memory).cell(b) != old(memory).cell(
                    0x100 + old(self).regs.sp,
                ) ==> final(memory).value_at(b) == old(memory).value_at(b),
            final(memory).inv(),
            final(memory).clock_state() == old(memory).clock_state(),
            final(self).accesses == old(self).accesses + 1,
            final(self).regs.sp == (old(self).regs.sp - 1) % 256,
            *final(self) == (CPU {
                accesses: final(self).accesses,
                is_read: false,
                regs: final(self).regs,
                ..*old(self)
            }),
            final(self).regs == (CPURegisters { sp: final(self).regs.sp, ..old(self).regs }),
    {
        let address: usize = 0x0100 + self.regs.sp as usize;
        self.write(memory, address, value);
        self.regs.sp = self.regs.sp.wrapping_sub(1);
    }

    /// Pull one byte: increment the stack pointer, then read at it.
    fn pop_stack<M: Memory>(&mut self, memory: &mut M) -> (r: u8)
        requires
            old(memory).inv(),
            old(self).accesses < u64::MAX,
        ensures
            r == old(memory).value_at(0x100 + (old(self).regs.sp + 1) % 256),
            forall|b: int| final(memory).plain(b) == old(memory).plain(b),
            forall|b: int| final(memory).cell(b) == old(memory).cell(b),
            forall|b: int|
                old(memory).plain(b) ==> final(memory).value_at(b) == old(memory).value_at(b),
            final(memory).inv(),
            final(memory).clock_state() == old(memory).clock_state(),
            final(self).accesses == old(self).accesses + 1,
            final(self).regs.sp == (old(self).regs.sp + 1) % 256,
            *final(self) == (CPU {
                accesses: final(self).accesses,
                is_read: true,
                regs: final(self).regs,
                ..*old(self)
            }),
            final(self).regs == (CPURegisters { sp: final(self).regs.sp, ..old(self).regs }),
    {
        self.regs.sp = self.regs.sp.wrapping_add(1);
        let address: usize = 0x0100 + self.regs.sp as usize;
        self.read(memory, address)
    }

    /// Decode the fetched opcode into mode, mnemonic and filler ticks.
    fn set_instruction(&mut self)
        ensures
            *final(self) == (CPU {
                address_mode: final(self).address_mode,
                opcode_type: final(self).opcode_type,
                cycles: final(self).cycles,
                ..*old(self)
            }),
            final(self).address_mode == crate::opcodes::spec_opcode_entry(old(self).opcode).0,
            final(self).opcode_type == crate::opcodes::spec_opcode_entry(old(self).opcode).1,
            final(self).cycles == filler_ticks(
                final(self).address_mode,
                crate::opcodes::spec_opcode_entry(old(self).opcode).2,
            ),
            final(self).address_mode is Acc ==> (final(self).opcode_type is Asl || final(self).opcode_type is Lsr || final(self).opcode_type is Rol || final(self).opcode_type is Ror),
            final(self).address_mode is Rel ==> (final(self).opcode_type is Bpl || final(self).opcode_type is Bmi || final(self).opcode_type is Bvc || final(self).opcode_type is Bvs
                || final(self).opcode_type is Bcc || final(self).opcode_type is Bcs || final(self).opcode_type is Bne || final(self).opcode_type is Beq),
    {
        let (mode, op, cyc) = crate::opcodes::opcode_entry(self.opcode);
        self.address_mode = mode;
        self.opcode_type = op;
        let base: u32 = match mode {
            AddressMode::Imp | AddressMode::Acc | AddressMode::Imm | AddressMode::Rel => 2,
            AddressMode::Zp0 => 3,
            AddressMode::Zpx | AddressMode::Zpy | AddressMode::Abs | AddressMode::Abx
            | AddressMode::Aby => 4,
            AddressMode::Izy | AddressMode::Ind => 5,
            AddressMode::Izx => 6,
        };
        self.cycles = if cyc > base {
            cyc - base
        } else {
            0
        };
    }

    /// Return the program counter and advance it, wrapping at the top of the
    /// address space.
    fn get_pc(&mut self) -> (r: usize)
        ensures
            r == old(self).regs.pc,
            final(self).regs.pc == (old(self).regs.pc + 1) % 0x10000,
            *final(self) == (CPU { regs: final(self).regs, ..*old(self) }),
            final(self).regs == (CPURegisters { pc: final(self).regs.pc, ..old(self).regs }),
    {
        let pc = self.regs.pc as usize;
        self.regs.pc = self.regs.pc.wrapping_add(1);
        pc
    }

    /// Move the state machine on; any filler count is restarted by the next
    /// decode.
    fn next_state(&mut self, state: Microcode)
        ensures
            *final(self) == (CPU { state, ..*old(self) }),
    {
        self.state = state;
    }

    /// Return to the fetch state: the current instruction is finished.
    fn fetch_opcode(&mut self)
        ensures
            *final(self) == (CPU { state: Microcode::FetchOpcode, ..*old(self) }),
    {
        self.next_state(Microcode::FetchOpcode);
    }

    /// Whether the current instruction writes its operand back to memory, so
    /// an indexed address always spends the extra tick.
    fn is_write_instruction(&self) -> (r: bool)
        ensures
            r == (self.opcode_type is Asl || self.opcode_type is Lsr || self.opcode_type is Rol
                || self.opcode_type is Ror || self.opcode_type is Inc || self.opcode_type is Dec
                || self.opcode_type is Sta || self.opcode_type is Stx || self.opcode_type is Sty),
    {
        match self.opcode_type {
            Opcode::Asl | Opcode::Lsr | Opcode::Rol | Opcode::Ror | Opcode::Inc | Opcode::Dec
                | Opcode::Sta | Opcode::Stx | Opcode::Sty => true,
            _ => false,
        }
    }

    /// The vector the pending interrupt reads its handler address from.
    fn vector_address(&self) -> (r: usize)
        ensures
            r == if self.interrupt_type.reset {
                INTERRUPT_RESET as int
            } else if self.interrupt_type.nmi {
                INTERRUPT_NMI as int
            } else {
                INTERRUPT_IRQ as int
            },
    {
        if self.interrupt_type.reset {
            INTERRUPT_RESET as usize
        } else if self.interrupt_type.nmi {
            INTERRUPT_NMI as usize
        } else {
            INTERRUPT_IRQ as usize
        }
    }

    /// Mirror a result into the negative and zero flags.
    fn set_nz(&mut self, value: u8)
        ensures
            final(self).regs.p.bits == (old(self).regs.p.bits & !(STATUS_N | STATUS_Z)) | (if value
                == 0 {
                STATUS_Z
            } else {
                0
            }) | (if value >= 128 {
                STATUS_N
            } else {
                0
            }),
            *final(self) == (CPU { regs: final(self).regs, ..*old(self) }),
            final(self).regs == (CPURegisters { p: final(self).regs.p, ..old(self).regs }),
    {
        self.regs.p.set(STATUS_Z, value == 0);
        self.regs.p.set(STATUS_N, value >= 128);
        proof {
            let b = old(self).regs.p.bits;
            let f = self.regs.p.bits;
            let z: u8 = if value == 0 { STATUS_Z } else { 0 };
            let n: u8 = if value >= 128 { STATUS_N } else { 0 };
            let b1: u8 = if value == 0 { b | STATUS_Z } else { b & !STATUS_Z };
            assert(f == (b & !(STATUS_N | STATUS_Z)) | z | n) by (bit_vector)
                requires
                    f == (if value >= 128 { b1 | STATUS_N } else { b1 & !STATUS_N }),
                    b1 == (if value == 0 { b | STATUS_Z } else { b & !STATUS_Z }),
                    z == (if value == 0 { STATUS_Z } else { 0u8 }),
                    n == (if value >= 128 { STATUS_N } else { 0u8 }),
            ;
        }
    }

    /// Fetch the byte at the program counter and advance it.
    fn get_next_pc_value<M: Memory>(&mut self, memory: &mut M) -> (r: u8)
        requires
            old(memory).inv(),
            old(self).accesses < u64::MAX,
        ensures
            r == old(memory).value_at(old(self).regs.pc as int),
            forall|b: int| final(memory).plain(b) == old(memory).plain(b),
            forall|b: int| final(memory).cell(b) == old(memory).cell(b),
            forall|b: int|
                old(memory).plain(b) ==> final(memory).value_at(b) == old(memory).value_at(b),
            final(memory).inv(),
            final(memory).clock_state() == old(memory).clock_state(),
            final(self).accesses == old(self).accesses + 1,
            final(self).regs.pc == (old(self).regs.pc + 1) % 0x10000,
            *final(self) == (CPU {
                accesses: final(self).accesses,
                is_read: true,
                regs: final(self).regs,
                ..*old(self)
            }),
            final(self).regs == (CPURegisters { pc: final(self).regs.pc, ..old(self).regs }),
    {
        let curr_pc = self.get_pc();
        self.read(memory, curr_pc)
    }

    /// Advance the core by one tick: run the pending bus cycle of the state
    /// machine. Exactly one bus access is performed, so `accesses` keeps
    /// pace with `total_cycles`.
    pub fn clock<M: Memory>(&mut self, memory: &mut M)
        requires
            old(memory).inv(),
            old(self).accesses < u64::MAX,
            old(self).total_cycles < u64::MAX,
        ensures
            final(memory).inv(),
            final(memory).clock_state() == old(memory).clock_state(),
            final(self).accesses == old(self).accesses + 1,
            final(self).total_cycles == old(self).total_cycles + 1,
            cpu_step_spec(*old(self), *old(memory), *final(self), *final(memory)),
    {
        self.run_next_state(memory);
        let ghost mid = *self;
        self.total_cycles = self.total_cycles + 1;
        proof {
            if old(self).state is Execute {
                lemma_exec_effect_counters(*old(self), *old(memory), mid, *self, *final(memory));
            }
            if old(self).state is FetchImm {
                let pre_imm = CPU {
                    absolute_address: old(self).regs.pc as usize,
                    regs: (CPURegisters {
                        pc: ((old(self).regs.pc + 1) % 0x10000) as u16,
                        ..old(self).regs
                    }),
                    ..*old(self)
                };
                lemma_exec_effect_counters(pre_imm, *old(memory), mid, *self, *final(memory));
            }
        }
    }

    /// Run one micro-code step. Every step performs exactly one bus access:
    /// a fetch, an operand read or write, or a discarded read on the ticks
    /// the hardware spends internally.
    /// The fetch tick: sample pending interrupts, fetch and decode the
    /// opcode, and enter the addressing mode's first state.
    #[verifier::rlimit(100)]
    fn step_fetch_opcode<M: Memory>(&mut self, memory: &mut M)
        requires
            old(memory).inv(),
            old(self).accesses < u64::MAX,
            old(self).state is FetchOpcode,
        ensures
            final(memory).inv(),
            final(memory).clock_state() == old(memory).clock_state(),
            final(self).accesses == old(self).accesses + 1,
            final(self).total_cycles == old(self).total_cycles,
            cpu_step_spec(*old(self), *old(memory), *final(self), *final(memory)),
    {
        match self.state {
            Microcode::FetchOpcode => {
                self.prev_pc = self.regs.pc;
                let take_interrupt = self.interrupt_type.nmi || self.interrupt_type.reset || (
                self.interrupt_type.irq && !self.regs.p.contains(STATUS_I));
                if take_interrupt {
                    // The hardware still drives a fetch cycle; the byte is
                    // discarded and the forced opcode is zero.
                    self.opcode = 0;
                    self.dummy_read(memory);
                } else {
                    self.opcode = self.get_next_pc_value(memory);
                }
                self.set_instruction();
                self.address.lo = 0;
                self.address.hi = 0;
                self.address.clear_carry();
                match self.address_mode {
                    AddressMode::Acc => {
                        self.register_access = RegisterAccess::A;
                        self.next_state(Microcode::ShiftA);
                    },
                    AddressMode::Imp => {
                        self.register_access = RegisterAccess::NoIndex;
                        self.next_state(Microcode::Execute);
                    },
                    AddressMode::Imm => {
                        self.register_access = RegisterAccess::NoIndex;
                        self.next_state(Microcode::FetchImm);
                    },
                    AddressMode::Abs => {
                        self.register_access = RegisterAccess::NoIndex;
                        self.next_state(Microcode::FetchLo);
                    },
                    AddressMode::Abx => {
                        self.register_access = RegisterAccess::X;
                        self.next_state(Microcode::FetchLo);
                    },
                    AddressMode::Aby => {
                        self.register_access = RegisterAccess::Y;
                        self.next_state(Microcode::FetchLo);
                    },
                    AddressMode::Zp0 => {
                        self.register_access = RegisterAccess::NoIndex;
                        self.next_state(Microcode::FetchLoZP);
                    },
                    AddressMode::Zpx => {
                        self.register_access = RegisterAccess::X;
                        self.next_state(Microcode::FetchLoZP);
                    },
                    AddressMode::Zpy => {
                        self.register_access = RegisterAccess::Y;
                        self.next_state(Microcode::FetchLoZP);
                    },
                    AddressMode::Izx => {
                        self.next_state(Microcode::FetchIZX1);
                    },
                    AddressMode::Izy => {
                        self.next_state(Microcode::FetchIZY1);
                    },
                    AddressMode::Ind => {
                        self.next_state(Microcode::IndReadLo);
                    },
                    AddressMode::Rel => {
                        match self.opcode_type {
                            Opcode::Bpl => {
                                self.branch_flag_mask = STATUS_N;
                                self.branch_when = false;
                            },
                            Opcode::Bmi => {
                                self.branch_flag_mask = STATUS_N;
                                self.branch_when = true;
                            },
                            Opcode::Bvc => {
                                self.branch_flag_mask = STATUS_V;
                                self.branch_when = false;
                            },
                            Opcode::Bvs => {
                                self.branch_flag_mask = STATUS_V;
                                self.branch_when = true;
                            },
                            Opcode::Bcc => {
                                self.branch_flag_mask = STATUS_C;
                                self.branch_when = false;
                            },
                            Opcode::Bcs => {
                                self.branch_flag_mask = STATUS_C;
                                self.branch_when = true;
                            },
                            Opcode::Bne => {
                                self.branch_flag_mask = STATUS_Z;
                                self.branch_when = false;
                            },
                            Opcode::Beq => {
                                self.branch_flag_mask = STATUS_Z;
                                self.branch_when = true;
                            },
                            _ => {},
                        }
                        self.next_state(Microcode::BranchReadOffsetAndCheck);
                    },
                }
            },
            _ => {
                self.dummy_read(memory);
            },
        }
    }

    /// The operand-address assembly ticks, one read or discarded read
    /// each, and the accumulator shift tick.
    #[verifier::rlimit(100)]
    fn step_operand_address<M: Memory>(&mut self, memory: &mut M)
        requires
            old(memory).inv(),
            old(self).accesses < u64::MAX,
            old(self).state is FetchLo || old(self).state is FetchLoZP || old(self).state is FetchLoZP1 || old(self).state is FetchHi || old(self).state is FetchHiX || old(self).state is FetchHiY || old(self).state is FetchIZX1 || old(self).state is FetchIZX2 || old(self).state is FetchIZX3 || old(self).state is FetchIZX4 || old(self).state is FetchIZY1 || old(self).state is FetchIZY2 || old(self).state is FetchIZY3 || old(self).state is SetCrossPage || old(self).state is IndReadLo || old(self).state is IndReadHi || old(self).state is IndReadActualLo || old(self).state is IndReadActualHiAndJump || old(self).state is ShiftA,
        ensures
            final(memory).inv(),
            final(memory).clock_state() == old(memory).clock_state(),
            final(self).accesses == old(self).accesses + 1,
            final(self).total_cycles == old(self).total_cycles,
            cpu_step_spec(*old(self), *old(memory), *final(self), *final(memory)),
    {
        match self.state {
            Microcode::FetchLo => {
                self.address.lo = self.get_next_pc_value(memory);
                match self.register_access {
                    RegisterAccess::X => {
                        self.next_state(Microcode::FetchHiX);
                    },
                    RegisterAccess::Y => {
                        self.next_state(Microcode::FetchHiY);
                    },
                    _ => {
                        self.next_state(Microcode::FetchHi);
                    },
                }
            },
            Microcode::FetchLoZP => {
                self.address.lo = self.get_next_pc_value(memory);
                match self.register_access {
                    RegisterAccess::X => {
                        self.address.lo = self.address.lo.wrapping_add(self.regs.x);
                        self.next_state(Microcode::FetchLoZP1);
                    },
                    RegisterAccess::Y => {
                        self.address.lo = self.address.lo.wrapping_add(self.regs.y);
                        self.next_state(Microcode::FetchLoZP1);
                    },
                    _ => {
                        self.absolute_address = self.address.to_usize();
                        self.next_state(Microcode::Execute);
                    },
                }
            },
            Microcode::FetchLoZP1 => {
                self.dummy_read(memory);
                self.absolute_address = self.address.to_usize();
                self.next_state(Microcode::Execute);
            },
            Microcode::FetchHi => {
                self.address.hi = self.get_next_pc_value(memory);
                self.absolute_address = self.address.to_usize();
                if let Opcode::Jmp = self.opcode_type {
                    // An absolute jump lands here on its third and last tick.
                    self.regs.pc = self.absolute_address as u16;
                    self.fetch_opcode();
                } else if let Opcode::Jsr = self.opcode_type {
                    self.next_state(Microcode::JsrSaveHiPrevPc);
                } else {
                    self.next_state(Microcode::Execute);
                }
            },
            Microcode::FetchHiX => {
                self.address.hi = self.get_next_pc_value(memory);
                self.address.add_offset(self.regs.x);
                if self.address.has_carry() || self.is_write_instruction() {
                    self.next_state(Microcode::SetCrossPage);
                } else {
                    self.absolute_address = self.address.to_usize();
                    self.next_state(Microcode::Execute);
                }
            },
            Microcode::FetchHiY => {
                self.address.hi = self.get_next_pc_value(memory);
                self.address.add_offset(self.regs.y);
                if self.address.has_carry() || self.is_write_instruction() {
                    self.next_state(Microcode::SetCrossPage);
                } else {
                    self.absolute_address = self.address.to_usize();
                    self.next_state(Microcode::Execute);
                }
            },
            Microcode::FetchIZX1 => {
                self.temp = self.get_next_pc_value(memory);
                self.next_state(Microcode::FetchIZX2);
            },
            Microcode::FetchIZX2 => {
                // The hardware reads the unindexed pointer and discards it.
                let _ = self.read(memory, self.temp as usize);
                self.next_state(Microcode::FetchIZX3);
            },
            Microcode::FetchIZX3 => {
                self.temp = self.temp.wrapping_add(self.regs.x);
                self.address.lo = self.read(memory, self.temp as usize);
                self.next_state(Microcode::FetchIZX4);
            },
            Microcode::FetchIZX4 => {
                self.temp = self.temp.wrapping_add(1);
                self.address.hi = self.read(memory, self.temp as usize);
                self.absolute_address = self.address.to_usize();
                self.next_state(Microcode::Execute);
            },
            Microcode::FetchIZY1 => {
                self.temp = self.get_next_pc_value(memory);
                self.next_state(Microcode::FetchIZY2);
            },
            Microcode::FetchIZY2 => {
                self.address.lo = self.read(memory, self.temp as usize);
                self.next_state(Microcode::FetchIZY3);
            },
            Microcode::FetchIZY3 => {
                self.address.hi = self.read(memory, self.temp.wrapping_add(1) as usize);
                self.address.add_offset(self.regs.y);
                if self.address.has_carry() || self.is_write_instruction() {
                    self.next_state(Microcode::SetCrossPage);
                } else {
                    self.absolute_address = self.address.to_usize();
                    self.next_state(Microcode::Execute);
                }
            },
            Microcode::SetCrossPage => {
                // The hardware reads the address before the carry is folded
                // in and discards the byte.
                let _ = self.read(memory, self.address.to_usize());
                self.address.add_hi_from_carry();
                self.absolute_address = self.address.to_usize();
                self.next_state(Microcode::Execute);
            },
            Microcode::IndReadLo => {
                self.tmp_address.lo = self.get_next_pc_value(memory);
                self.next_state(Microcode::IndReadHi);
            },
            Microcode::IndReadHi => {
                self.tmp_address.hi = self.get_next_pc_value(memory);
                self.next_state(Microcode::IndReadActualLo);
            },
            Microcode::IndReadActualLo => {
                self.address.lo = self.read(memory, self.tmp_address.to_usize());
                self.next_state(Microcode::IndReadActualHiAndJump);
            },
            Microcode::IndReadActualHiAndJump => {
                // The pointer's low byte wraps within its page and the high
                // byte is never carried: the documented indirect-jump quirk.
                self.tmp_address.add_offset(1);
                self.address.hi = self.read(memory, self.tmp_address.to_usize());
                self.regs.pc = self.address.to_u16();
                self.fetch_opcode();
            },
            Microcode::ShiftA => {
                self.dummy_read(memory);
                let carry_in = self.regs.p.contains(STATUS_C);
                let (result, carry) = shift_value(
                    match self.opcode_type {
                        Opcode::Asl => Opcode::Asl,
                        Opcode::Lsr => Opcode::Lsr,
                        Opcode::Rol => Opcode::Rol,
                        _ => Opcode::Ror,
                    },
                    self.regs.a,
                    carry_in,
                );
                self.regs.a = result;
                self.regs.p.set(STATUS_C, carry);
                self.set_nz(result);
                self.fetch_opcode();
            },
            _ => {
                self.dummy_read(memory);
            },
        }
    }

    /// The branch ticks: read the displacement, test the flag, and take
    /// the jump with its page-cross tick where one is due.
    #[verifier::rlimit(100)]
    fn step_branch<M: Memory>(&mut self, memory: &mut M)
        requires
            old(memory).inv(),
            old(self).accesses < u64::MAX,
            old(self).state is BranchReadOffsetAndCheck || old(self).state is BranchJumpIfTrue || old(self).state is BranchJumpIfTrueAndCrossPage,
        ensures
            final(memory).inv(),
            final(memory).clock_state() == old(memory).clock_state(),
            final(self).accesses == old(self).accesses + 1,
            final(self).total_cycles == old(self).total_cycles,
            cpu_step_spec(*old(self), *old(memory), *final(self), *final(memory)),
    {
        match self.state {
            Microcode::BranchReadOffsetAndCheck => {
                let next_value = self.get_next_pc_value(memory);
                self.relative_address = next_value as i8;
                if self.regs.p.contains(self.branch_flag_mask) == self.branch_when {
                    self.next_state(Microcode::BranchJumpIfTrue);
                } else {
                    self.fetch_opcode();
                }
            },
            Microcode::BranchJumpIfTrue => {
                self.dummy_read(memory);
                let next_pc = self.branch_target();
                if self.regs.pc / 256 == next_pc / 256 {
                    self.regs.pc = next_pc;
                    self.fetch_opcode();
                } else {
                    self.next_state(Microcode::BranchJumpIfTrueAndCrossPage);
                }
            },
            Microcode::BranchJumpIfTrueAndCrossPage => {
                self.dummy_read(memory);
                self.regs.pc = self.branch_target();
                self.fetch_opcode();
            },
            _ => {
                self.dummy_read(memory);
            },
        }
    }

    /// The write-back ticks of the read-modify-write instructions: the
    /// unmodified byte first, the shifted or stepped byte after.
    #[verifier::rlimit(100)]
    fn step_write_back<M: Memory>(&mut self, memory: &mut M)
        requires
            old(memory).inv(),
            old(self).accesses < u64::MAX,
            old(self).state is ShiftWrite || old(self).state is ShiftAddAndWrite || old(self).state is IncDecWriteOld || old(self).state is IncDecWriteNew,
        ensures
            final(memory).inv(),
            final(memory).clock_state() == old(memory).clock_state(),
            final(self).accesses == old(self).accesses + 1,
            final(self).total_cycles == old(self).total_cycles,
            cpu_step_spec(*old(self), *old(memory), *final(self), *final(memory)),
    {
        match self.state {
            Microcode::ShiftWrite => {
                // The unmodified byte is written back first: the documented
                // double write of read-modify-write instructions.
                self.write(memory, self.absolute_address, self.fetched_data);
                self.next_state(Microcode::ShiftAddAndWrite);
            },
            Microcode::ShiftAddAndWrite => {
                let carry_in = self.regs.p.contains(STATUS_C);
                let (result, carry) = shift_value(
                    match self.opcode_type {
                        Opcode::Asl => Opcode::Asl,
                        Opcode::Lsr => Opcode::Lsr,
                        Opcode::Rol => Opcode::Rol,
                        _ => Opcode::Ror,
                    },
                    self.fetched_data,
                    carry_in,
                );
                self.write(memory, self.absolute_address, result);
                self.regs.p.set(STATUS_C, carry);
                self.set_nz(result);
                self.fetch_opcode();
            },
            Microcode::IncDecWriteOld => {
                // The unmodified byte is written back first, as with shifts.
                self.write(memory, self.absolute_address, self.fetched_data);
                self.next_state(Microcode::IncDecWriteNew);
            },
            Microcode::IncDecWriteNew => {
                let result = if let Opcode::Inc = self.opcode_type {
                    self.fetched_data.wrapping_add(1)
                } else {
                    self.fetched_data.wrapping_sub(1)
                };
                self.write(memory, self.absolute_address, result);
                self.set_nz(result);
                self.fetch_opcode();
            },
            _ => {
                self.dummy_read(memory);
            },
        }
    }

    /// The break and interrupt ticks: the return address and status
    /// pushes, the vector reads, and the final jump.
    #[verifier::rlimit(100)]
    fn step_interrupt_sequence<M: Memory>(&mut self, memory: &mut M)
        requires
            old(memory).inv(),
            old(self).accesses < u64::MAX,
            old(self).state is BrkPushPCLo || old(self).state is BrkPushStatus || old(self).state is BrkPushReadPCLo || old(self).state is BrkPushReadPCHi || old(self).state is BrkSetPC,
        ensures
            final(memory).inv(),
            final(memory).clock_state() == old(memory).clock_state(),
            final(self).accesses == old(self).accesses + 1,
            final(self).total_cycles == old(self).total_cycles,
            cpu_step_spec(*old(self), *old(memory), *final(self), *final(memory)),
    {
        match self.state {
            Microcode::BrkPushPCLo => {
                if self.interrupt_type.reset {
                    self.suppressed_push(memory);
                } else {
                    self.push_stack(memory, self.address.lo);
                }
                self.next_state(Microcode::BrkPushStatus);
            },
            Microcode::BrkPushStatus => {
                if self.interrupt_type.reset {
                    self.suppressed_push(memory);
                    // A reset leaves the interrupt-disable flag set, the
                    // decimal flag clear, and the unused flag reading as one.
                    self.regs.p.insert(STATUS_I | STATUS_U);
                    self.regs.p.remove(STATUS_D);
                } else {
                    let pushed = if self.interrupt_type.nmi || self.interrupt_type.irq {
                        // Interrupts push the break flag clear.
                        (self.regs.p.bits() | STATUS_U) & !STATUS_B
                    } else {
                        // The break instruction pushes it set.
                        self.regs.p.bits() | STATUS_U | STATUS_B
                    };
                    self.push_stack(memory, pushed);
                    self.regs.p.insert(STATUS_I);
                }
                self.next_state(Microcode::BrkPushReadPCLo);
            },
            Microcode::BrkPushReadPCLo => {
                self.address.lo = self.read(memory, self.vector_address());
                self.next_state(Microcode::BrkPushReadPCHi);
            },
            Microcode::BrkPushReadPCHi => {
                self.address.hi = self.read(memory, self.vector_address() + 1);
                self.next_state(Microcode::BrkSetPC);
            },
            Microcode::BrkSetPC => {
                self.dummy_read(memory);
                self.interrupt_type.clear();
                self.regs.pc = self.address.to_u16();
                self.fetch_opcode();
            },
            _ => {
                self.dummy_read(memory);
            },
        }
    }

    /// The stack-traffic ticks of the push, pull, call and return
    /// instructions.
    #[verifier::rlimit(100)]
    fn step_stack_sequence<M: Memory>(&mut self, memory: &mut M)
        requires
            old(memory).inv(),
            old(self).accesses < u64::MAX,
            old(self).state is PhaPushStack || old(self).state is PlaPull || old(self).state is PlaPull1 || old(self).state is PhpPushStack || old(self).state is PlpPull || old(self).state is PlpPull1 || old(self).state is JsrSaveHiPrevPc || old(self).state is JsrSaveLoPrevPc || old(self).state is JsrJump || old(self).state is RtsGetPcLo || old(self).state is RtsGetPcHi || old(self).state is RtsWasteOneCycle || old(self).state is RtsJump || old(self).state is RtiPopStatus || old(self).state is RtiPopLoPC || old(self).state is RtiPopHiPC || old(self).state is RtiSetPC,
        ensures
            final(memory).inv(),
            final(memory).clock_state() == old(memory).clock_state(),
            final(self).accesses == old(self).accesses + 1,
            final(self).total_cycles == old(self).total_cycles,
            cpu_step_spec(*old(self), *old(memory), *final(self), *final(memory)),
    {
        match self.state {
            Microcode::PhaPushStack => {
                self.push_stack(memory, self.regs.a);
                self.fetch_opcode();
            },
            Microcode::PlaPull => {
                self.fetched_data = self.pop_stack(memory);
                self.next_state(Microcode::PlaPull1);
            },
            Microcode::PlaPull1 => {
                self.dummy_read(memory);
                self.regs.a = self.fetched_data;
                let v = self.fetched_data;
                self.set_nz(v);
                self.fetch_opcode();
            },
            Microcode::PhpPushStack => {
                // The pushed copy carries the break and unused flags set.
                self.push_stack(memory, self.regs.p.bits() | STATUS_B | STATUS_U);
                self.fetch_opcode();
            },
            Microcode::PlpPull => {
                self.fetched_data = self.pop_stack(memory);
                self.next_state(Microcode::PlpPull1);
            },
            Microcode::PlpPull1 => {
                self.dummy_read(memory);
                self.load_status(self.fetched_data);
                self.fetch_opcode();
            },
            Microcode::JsrSaveHiPrevPc => {
                self.tmp_address.set_u16(self.regs.pc.wrapping_sub(1));
                let hi = self.tmp_address.hi;
                self.push_stack(memory, hi);
                self.next_state(Microcode::JsrSaveLoPrevPc);
            },
            Microcode::JsrSaveLoPrevPc => {
                let lo = self.tmp_address.lo;
                self.push_stack(memory, lo);
                self.next_state(Microcode::JsrJump);
            },
            Microcode::JsrJump => {
                self.dummy_read(memory);
                self.regs.pc = self.absolute_address as u16;
                self.fetch_opcode();
            },
            Microcode::RtsGetPcLo => {
                self.tmp_address.lo = self.pop_stack(memory);
                self.next_state(Microcode::RtsGetPcHi);
            },
            Microcode::RtsGetPcHi => {
                self.tmp_address.hi = self.pop_stack(memory);
                self.next_state(Microcode::RtsWasteOneCycle);
            },
            Microcode::RtsWasteOneCycle => {
                self.dummy_read(memory);
                self.next_state(Microcode::RtsJump);
            },
            Microcode::RtsJump => {
                self.dummy_read(memory);
                self.regs.pc = self.tmp_address.to_u16().wrapping_add(1);
                self.fetch_opcode();
            },
            Microcode::RtiPopStatus => {
                let status = self.pop_stack(memory);
                self.load_status(status);
                self.next_state(Microcode::RtiPopLoPC);
            },
            Microcode::RtiPopLoPC => {
                self.address.lo = self.pop_stack(memory);
                self.next_state(Microcode::RtiPopHiPC);
            },
            Microcode::RtiPopHiPC => {
                self.address.hi = self.pop_stack(memory);
                self.next_state(Microcode::RtiSetPC);
            },
            Microcode::RtiSetPC => {
                self.dummy_read(memory);
                self.regs.pc = self.address.to_u16();
                self.fetch_opcode();
            },
            _ => {
                self.dummy_read(memory);
            },
        }
    }

    pub fn run_next_state<M: Memory>(&mut self, memory: &mut M)
        requires
            old(memory).inv(),
            old(self).accesses < u64::MAX,
        ensures
            final(memory).inv(),
            final(memory).clock_state() == old(memory).clock_state(),
            final(self).accesses == old(self).accesses + 1,
            final(self).total_cycles == old(self).total_cycles,
            cpu_step_spec(*old(self), *old(memory), *final(self), *final(memory)),
    {
        match self.state {
            Microcode::FetchOpcode => {
                self.step_fetch_opcode(memory);
            },
            Microcode::FetchLo | Microcode::FetchLoZP | Microcode::FetchLoZP1 | Microcode::FetchHi | Microcode::FetchHiX | Microcode::FetchHiY | Microcode::FetchIZX1 | Microcode::FetchIZX2 | Microcode::FetchIZX3 | Microcode::FetchIZX4 | Microcode::FetchIZY1 | Microcode::FetchIZY2 | Microcode::FetchIZY3 | Microcode::SetCrossPage | Microcode::IndReadLo | Microcode::IndReadHi | Microcode::IndReadActualLo | Microcode::IndReadActualHiAndJump | Microcode::ShiftA => {
                self.step_operand_address(memory);
            },
            Microcode::BranchReadOffsetAndCheck | Microcode::BranchJumpIfTrue | Microcode::BranchJumpIfTrueAndCrossPage => {
                self.step_branch(memory);
            },
            Microcode::ShiftWrite | Microcode::ShiftAddAndWrite | Microcode::IncDecWriteOld | Microcode::IncDecWriteNew => {
                self.step_write_back(memory);
            },
            Microcode::BrkPushPCLo | Microcode::BrkPushStatus | Microcode::BrkPushReadPCLo | Microcode::BrkPushReadPCHi | Microcode::BrkSetPC => {
                self.step_interrupt_sequence(memory);
            },
            Microcode::PhaPushStack | Microcode::PlaPull | Microcode::PlaPull1 | Microcode::PhpPushStack | Microcode::PlpPull | Microcode::PlpPull1 | Microcode::JsrSaveHiPrevPc | Microcode::JsrSaveLoPrevPc | Microcode::JsrJump | Microcode::RtsGetPcLo | Microcode::RtsGetPcHi | Microcode::RtsWasteOneCycle | Microcode::RtsJump | Microcode::RtiPopStatus | Microcode::RtiPopLoPC | Microcode::RtiPopHiPC | Microcode::RtiSetPC => {
                self.step_stack_sequence(memory);
            },
            Microcode::FetchImm => {
                self.absolute_address = self.get_pc();
                self.do_instruction(memory);
            },
            Microcode::Execute => {
                self.do_instruction(memory);
            },
        }
    }

    /// The program counter displaced by the fetched branch offset, wrapping
    /// at the ends of the address space.
    fn branch_target(&self) -> (r: u16)
        ensures
            r == vstd::wrapping::u16_specs::wrapping_add_signed(
                self.regs.pc,
                self.relative_address as i16,
            ),
    {
        self.regs.pc.wrapping_add_signed(self.relative_address as i16)
    }

    /// A stack push whose write the hardware suppresses during a reset: the
    /// tick is spent on a discarded read and the stack pointer still moves.
    fn suppressed_push<M: Memory>(&mut self, memory: &mut M)
        requires
            old(memory).inv(),
            old(self).accesses < u64::MAX,
        ensures
            forall|b: int| final(memory).plain(b) == old(memory).plain(b),
            forall|b: int| final(memory).cell(b) == old(memory).cell(b),
            forall|b: int|
                old(memory).plain(b) ==> final(memory).value_at(b) == old(memory).value_at(b),
            final(memory).inv(),
            final(memory).clock_state() == old(memory).clock_state(),
            final(self).accesses == old(self).accesses + 1,
            final(self).regs.sp == (old(self).regs.sp - 1) % 256,
            *final(self) == (CPU {
                accesses: final(self).accesses,
                is_read: true,
                regs: final(self).regs,
                ..*old(self)
            }),
            final(self).regs == (CPURegisters { sp: final(self).regs.sp, ..old(self).regs }),
    {
        let address: usize = 0x0100 + self.regs.sp as usize;
        let _ = self.read(memory, address);
        self.regs.sp = self.regs.sp.wrapping_sub(1);
    }

    /// Load a pulled status byte: the break flag keeps its previous value
    /// and the unused flag reads as one.
    fn load_status(&mut self, value: u8)
        ensures
            final(self).regs.p.bits == (value & !(STATUS_B | STATUS_U)) | (old(self).regs.p.bits
                & STATUS_B) | STATUS_U,
            *final(self) == (CPU { regs: final(self).regs, ..*old(self) }),
            final(self).regs == (CPURegisters { p: final(self).regs.p, ..old(self).regs }),
    {
        let kept_b = self.regs.p.bits() & STATUS_B;
        self.regs.p.set_from_byte((value & !(STATUS_B | STATUS_U)) | kept_b | STATUS_U);
    }

    /// Perform the execute tick of the current instruction: its one operand
    /// access, or a discarded read for the instructions that work entirely
    /// in registers.
    /// The execute tick of the instructions that read or write their
    /// operand in memory: loads, stores, the bit test, the adder and the
    /// comparisons.
    #[verifier::rlimit(100)]
    fn execute_operand_op<M: Memory>(&mut self, memory: &mut M)
        requires
            old(memory).inv(),
            old(self).accesses < u64::MAX,
            old(self).opcode_type is Lda || old(self).opcode_type is Ldx || old(self).opcode_type is Ldy || old(self).opcode_type is Sta || old(self).opcode_type is Stx || old(self).opcode_type is Sty || old(self).opcode_type is And || old(self).opcode_type is Ora || old(self).opcode_type is Eor || old(self).opcode_type is Bit || old(self).opcode_type is Adc || old(self).opcode_type is Sbc || old(self).opcode_type is Cmp || old(self).opcode_type is Cpx || old(self).opcode_type is Cpy,
        ensures
            final(memory).inv(),
            final(memory).clock_state() == old(memory).clock_state(),
            forall|b: int| final(memory).plain(b) == old(memory).plain(b),
            forall|b: int| final(memory).cell(b) == old(memory).cell(b),
            final(self).accesses == old(self).accesses + 1,
            final(self).total_cycles == old(self).total_cycles,
            exec_effect(*old(self), *old(memory), *final(self), *final(memory)),
    {
        proof {
            reveal(exec_effect);
        }
        match self.opcode_type {
            Opcode::Lda => {
                self.regs.a = self.read(memory, self.absolute_address);
                let v = self.regs.a;
                self.set_nz(v);
                self.fetch_opcode();
            },
            Opcode::Ldx => {
                self.regs.x = self.read(memory, self.absolute_address);
                let v = self.regs.x;
                self.set_nz(v);
                self.fetch_opcode();
            },
            Opcode::Ldy => {
                self.regs.y = self.read(memory, self.absolute_address);
                let v = self.regs.y;
                self.set_nz(v);
                self.fetch_opcode();
            },
            Opcode::Sta => {
                self.write(memory, self.absolute_address, self.regs.a);
                self.fetch_opcode();
            },
            Opcode::Stx => {
                self.write(memory, self.absolute_address, self.regs.x);
                self.fetch_opcode();
            },
            Opcode::Sty => {
                self.write(memory, self.absolute_address, self.regs.y);
                self.fetch_opcode();
            },
            Opcode::And => {
                let m = self.read(memory, self.absolute_address);
                self.regs.a = self.regs.a & m;
                let v = self.regs.a;
                self.set_nz(v);
                self.fetch_opcode();
            },
            Opcode::Ora => {
                let m = self.read(memory, self.absolute_address);
                self.regs.a = self.regs.a | m;
                let v = self.regs.a;
                self.set_nz(v);
                self.fetch_opcode();
            },
            Opcode::Eor => {
                let m = self.read(memory, self.absolute_address);
                self.regs.a = self.regs.a ^ m;
                let v = self.regs.a;
                self.set_nz(v);
                self.fetch_opcode();
            },
            Opcode::Bit => {
                let m = self.read(memory, self.absolute_address);
                self.regs.p.set(STATUS_Z, (m & self.regs.a) == 0);
                self.regs.p.set(STATUS_N, (m & STATUS_N) != 0);
                self.regs.p.set(STATUS_V, (m & STATUS_V) != 0);
                self.fetch_opcode();
            },
            Opcode::Adc => {
                let m = self.read(memory, self.absolute_address);
                let carry_in = self.regs.p.contains(STATUS_C);
                let (result, carry, overflow) = alu_adc(self.regs.a, m, carry_in);
                self.regs.a = result;
                self.regs.p.set(STATUS_C, carry);
                self.regs.p.set(STATUS_V, overflow);
                self.set_nz(result);
                self.fetch_opcode();
            },
            Opcode::Sbc => {
                // Subtraction is addition of the operand's complement.
                let m = self.read(memory, self.absolute_address);
                let carry_in = self.regs.p.contains(STATUS_C);
                let (result, carry, overflow) = alu_adc(self.regs.a, 255 - m, carry_in);
                self.regs.a = result;
                self.regs.p.set(STATUS_C, carry);
                self.regs.p.set(STATUS_V, overflow);
                self.set_nz(result);
                self.fetch_opcode();
            },
            Opcode::Cmp => {
                let m = self.read(memory, self.absolute_address);
                let a = self.regs.a;
                self.compare(a, m);
                self.fetch_opcode();
            },
            Opcode::Cpx => {
                let m = self.read(memory, self.absolute_address);
                let x = self.regs.x;
                self.compare(x, m);
                self.fetch_opcode();
            },
            Opcode::Cpy => {
                let m = self.read(memory, self.absolute_address);
                let y = self.regs.y;
                self.compare(y, m);
                self.fetch_opcode();
            },
            _ => {
                self.dummy_read(memory);
            },
        }
    }

    /// The execute tick of the instructions that hand over to a further
    /// bus sequence: the break entry, returns, stack pushes and pulls, and
    /// the read of a read-modify-write operand.
    #[verifier::rlimit(100)]
    fn execute_sequenced_op<M: Memory>(&mut self, memory: &mut M)
        requires
            old(memory).inv(),
            old(self).accesses < u64::MAX,
            old(self).opcode_type is Brk || old(self).opcode_type is Rti || old(self).opcode_type is Rts || old(self).opcode_type is Asl || old(self).opcode_type is Lsr || old(self).opcode_type is Rol || old(self).opcode_type is Ror || old(self).opcode_type is Inc || old(self).opcode_type is Dec || old(self).opcode_type is Pha || old(self).opcode_type is Pla || old(self).opcode_type is Php || old(self).opcode_type is Plp,
        ensures
            final(memory).inv(),
            final(memory).clock_state() == old(memory).clock_state(),
            forall|b: int| final(memory).plain(b) == old(memory).plain(b),
            forall|b: int| final(memory).cell(b) == old(memory).cell(b),
            final(self).accesses == old(self).accesses + 1,
            final(self).total_cycles == old(self).total_cycles,
            exec_effect(*old(self), *old(memory), *final(self), *final(memory)),
    {
        proof {
            reveal(exec_effect);
        }
        match self.opcode_type {
            Opcode::Brk => {
                // The first tick of the seven-tick break or interrupt
                // sequence: push the high byte of the return address.
                if !self.interrupt_type.any() {
                    // The break instruction skips its padding byte.
                    let _ = self.get_pc();
                }
                self.address.set_u16(self.regs.pc);
                if self.interrupt_type.reset {
                    self.suppressed_push(memory);
                } else {
                    let hi = self.address.hi;
                    self.push_stack(memory, hi);
                }
                self.next_state(Microcode::BrkPushPCLo);
            },
            Opcode::Rti => {
                self.dummy_read(memory);
                self.next_state(Microcode::RtiPopStatus);
            },
            Opcode::Rts => {
                self.dummy_read(memory);
                self.next_state(Microcode::RtsGetPcLo);
            },
            Opcode::Asl | Opcode::Lsr | Opcode::Rol | Opcode::Ror => {
                // The read tick of the three-tick read-modify-write tail.
                self.fetched_data = self.read(memory, self.absolute_address);
                self.next_state(Microcode::ShiftWrite);
            },
            Opcode::Inc | Opcode::Dec => {
                self.fetched_data = self.read(memory, self.absolute_address);
                self.next_state(Microcode::IncDecWriteOld);
            },
            Opcode::Pha => {
                self.dummy_read(memory);
                self.next_state(Microcode::PhaPushStack);
            },
            Opcode::Pla => {
                self.dummy_read(memory);
                self.next_state(Microcode::PlaPull);
            },
            Opcode::Php => {
                self.dummy_read(memory);
                self.next_state(Microcode::PhpPushStack);
            },
            Opcode::Plp => {
                self.dummy_read(memory);
                self.next_state(Microcode::PlpPull);
            },
            _ => {
                self.dummy_read(memory);
            },
        }
    }

    /// The execute tick of the instructions that work entirely in
    /// registers, and of the cycle-counted no-operations.
    #[verifier::spinoff_prover]
    #[verifier::rlimit(100)]
    fn execute_register_op<M: Memory>(&mut self, memory: &mut M)
        requires
            old(memory).inv(),
            old(self).accesses < u64::MAX,
        ensures
            final(memory).inv(),
            final(memory).clock_state() == old(memory).clock_state(),
            forall|b: int| final(memory).plain(b) == old(memory).plain(b),
            forall|b: int| final(memory).cell(b) == old(memory).cell(b),
            final(self).accesses == old(self).accesses + 1,
            final(self).total_cycles == old(self).total_cycles,
            (old(self).opcode_type is Tax || old(self).opcode_type is Tay || old(self).opcode_type is Txa || old(self).opcode_type is Tya || old(self).opcode_type is Inx || old(self).opcode_type is Iny || old(self).opcode_type is Dex || old(self).opcode_type is Dey || old(self).opcode_type is Txs || old(self).opcode_type is Tsx || old(self).opcode_type is Sei || old(self).opcode_type is Cli || old(self).opcode_type is Sec || old(self).opcode_type is Clc || old(self).opcode_type is Sed || old(self).opcode_type is Cld || old(self).opcode_type is Clv || old(self).opcode_type is Nop || old(
                self,
            ).opcode_type is Xxx || old(self).opcode_type is Jmp || old(self).opcode_type is Jsr
                || old(self).opcode_type is Bpl || old(self).opcode_type is Bmi || old(
                self,
            ).opcode_type is Bvc || old(self).opcode_type is Bvs || old(self).opcode_type is Bcc
                || old(self).opcode_type is Bcs || old(self).opcode_type is Bne || old(
                self,
            ).opcode_type is Beq) ==> exec_effect(
                *old(self),
                *old(memory),
                *final(self),
                *final(memory),
            ),
    {
        proof {
            reveal(exec_effect);
        }
        match self.opcode_type {
            Opcode::Tax => {
                self.dummy_read(memory);
                self.regs.x = self.regs.a;
                let v = self.regs.x;
                self.set_nz(v);
                self.fetch_opcode();
            },
            Opcode::Tay => {
                self.dummy_read(memory);
                self.regs.y = self.regs.a;
                let v = self.regs.y;
                self.set_nz(v);
                self.fetch_opcode();
            },
            Opcode::Txa => {
                self.dummy_read(memory);
                self.regs.a = self.regs.x;
                let v = self.regs.a;
                self.set_nz(v);
                self.fetch_opcode();
            },
            Opcode::Tya => {
                self.dummy_read(memory);
                self.regs.a = self.regs.y;
                let v = self.regs.a;
                self.set_nz(v);
                self.fetch_opcode();
            },
            Opcode::Inx => {
                self.dummy_read(memory);
                self.regs.x = self.regs.x.wrapping_add(1);
                let v = self.regs.x;
                self.set_nz(v);
                self.fetch_opcode();
            },
            Opcode::Iny => {
                self.dummy_read(memory);
                self.regs.y = self.regs.y.wrapping_add(1);
                let v = self.regs.y;
                self.set_nz(v);
                self.fetch_opcode();
            },
            Opcode::Dex => {
                self.dummy_read(memory);
                self.regs.x = self.regs.x.wrapping_sub(1);
                let v = self.regs.x;
                self.set_nz(v);
                self.fetch_opcode();
            },
            Opcode::Dey => {
                self.dummy_read(memory);
                self.regs.y = self.regs.y.wrapping_sub(1);
                let v = self.regs.y;
                self.set_nz(v);
                self.fetch_opcode();
            },
            Opcode::Txs => {
                self.dummy_read(memory);
                self.regs.sp = self.regs.x;
                self.fetch_opcode();
            },
            Opcode::Tsx => {
                self.dummy_read(memory);
                self.regs.x = self.regs.sp;
                let v = self.regs.x;
                self.set_nz(v);
                self.fetch_opcode();
            },
            Opcode::Sei => {
                self.dummy_read(memory);
                self.regs.p.insert(STATUS_I);
                self.fetch_opcode();
            },
            Opcode::Cli => {
                self.dummy_read(memory);
                self.regs.p.remove(STATUS_I);
                self.fetch_opcode();
            },
            Opcode::Sec => {
                self.dummy_read(memory);
                self.regs.p.insert(STATUS_C);
                self.fetch_opcode();
            },
            Opcode::Clc => {
                self.dummy_read(memory);
                self.regs.p.remove(STATUS_C);
                self.fetch_opcode();
            },
            Opcode::Sed => {
                self.dummy_read(memory);
                self.regs.p.insert(STATUS_D);
                self.fetch_opcode();
            },
            Opcode::Cld => {
                self.dummy_read(memory);
                self.regs.p.remove(STATUS_D);
                self.fetch_opcode();
            },
            Opcode::Clv => {
                self.dummy_read(memory);
                self.regs.p.remove(STATUS_V);
                self.fetch_opcode();
            },
            _ => {
                // No-operations, defined and undefined alike: an indexed
                // form reads its operand, the rest spend discarded reads
                // until the encoding's cycle count is used up.
                match self.address_mode {
                    AddressMode::Imp => {
                        self.dummy_read(memory);
                    },
                    _ => {
                        let _ = self.read(memory, self.absolute_address);
                    },
                }
                if self.cycles > 0 {
                    self.cycles = self.cycles - 1;
                } else {
                    self.fetch_opcode();
                }
            },
        }
    }

    fn do_instruction<M: Memory>(&mut self, memory: &mut M)
        requires
            old(memory).inv(),
            old(self).accesses < u64::MAX,
        ensures
            final(memory).inv(),
            final(memory).clock_state() == old(memory).clock_state(),
            forall|b: int| final(memory).plain(b) == old(memory).plain(b),
            forall|b: int| final(memory).cell(b) == old(memory).cell(b),
            final(self).accesses == old(self).accesses + 1,
            final(self).total_cycles == old(self).total_cycles,
            exec_effect(*old(self), *old(memory), *final(self), *final(memory)),
    {
        match self.opcode_type {
            Opcode::Lda | Opcode::Ldx | Opcode::Ldy | Opcode::Sta | Opcode::Stx | Opcode::Sty | Opcode::And | Opcode::Ora | Opcode::Eor | Opcode::Bit | Opcode::Adc | Opcode::Sbc | Opcode::Cmp | Opcode::Cpx | Opcode::Cpy => {
                self.execute_operand_op(memory);
            },
            Opcode::Brk | Opcode::Rti | Opcode::Rts | Opcode::Asl | Opcode::Lsr | Opcode::Rol | Opcode::Ror | Opcode::Inc | Opcode::Dec | Opcode::Pha | Opcode::Pla | Opcode::Php | Opcode::Plp => {
                self.execute_sequenced_op(memory);
            },
            _ => {
                self.execute_register_op(memory);
            },
        }
    }

    /// Set carry, zero and negative from the comparison `reg - m`.
    fn compare(&mut self, reg: u8, m: u8)
        ensures
            final(self).regs.p.bits == (old(self).regs.p.bits & !(STATUS_N | STATUS_Z | STATUS_C))
                | (if reg >= m {
                STATUS_C
            } else {
                0
            }) | (if reg == m {
                STATUS_Z
            } else {
                0
            }) | (if (reg - m) % 256 >= 128 {
                STATUS_N
            } else {
                0
            }),
            *final(self) == (CPU { regs: final(self).regs, ..*old(self) }),
            final(self).regs == (CPURegisters { p: final(self).regs.p, ..old(self).regs }),
    {
        let diff = reg.wrapping_sub(m);
        self.regs.p.set(STATUS_C, reg >= m);
        let v = self.regs.p.bits;
        self.regs.p.set(STATUS_Z, reg == m);
        self.regs.p.set(STATUS_N, diff >= 128);
        proof {
            let b = old(self).regs.p.bits;
            let f = self.regs.p.bits;
            let c: u8 = if reg >= m { STATUS_C } else { 0 };
            let z: u8 = if reg == m { STATUS_Z } else { 0 };
            let n: u8 = if diff >= 128 { STATUS_N } else { 0 };
            let b1: u8 = if reg >= m { b | STATUS_C } else { b & !STATUS_C };
            let b2: u8 = if reg == m { b1 | STATUS_Z } else { b1 & !STATUS_Z };
            assert(f == (b & !(STATUS_N | STATUS_Z | STATUS_C)) | c | z | n) by (bit_vector)
                requires
                    f == (if diff >= 128 { b2 | STATUS_N } else { b2 & !STATUS_N }),
                    b2 == (if reg == m { b1 | STATUS_Z } else { b1 & !STATUS_Z }),
                    b1 == (if reg >= m { b | STATUS_C } else { b & !STATUS_C }),
                    c == (if reg >= m { STATUS_C } else { 0u8 }),
                    z == (if reg == m { STATUS_Z } else { 0u8 }),
                    n == (if diff >= 128 { STATUS_N } else { 0u8 }),
            ;
        }
    }
}


/// One bus access per tick. `clock` advances the access count and the
/// cycle count by exactly one each, so a core whose two counts ever agree
/// keeps them in step forever: the accesses performed equal the cycles
/// consumed, and each instruction costs exactly as many accesses as its
/// documented cycle count.
pub proof fn lemma_one_access_per_tick(pre: CPU, post: CPU)
    requires
        pre.accesses == pre.total_cycles,
        post.accesses == pre.accesses + 1,
        post.total_cycles == pre.total_cycles + 1,
    ensures
        post.accesses == post.total_cycles,
{
}



/// The interrupt and reset entry, first act: the forced break fetch and
/// its execute tick. From an instruction boundary with a request pending
/// whose fetch takes it, two ticks later the machine is in the break
/// sequence, the stack pointer one below, the other registers untouched,
/// and only the stack cell written; a reset writes nothing.
#[verifier::spinoff_prover]
#[verifier::rlimit(100)]
pub proof fn lemma_interrupt_entry_fetch<M: Memory>(c0: CPU, m0: M, c1: CPU, m1: M, c2: CPU, m2: M)
    requires
        cpu_step_spec(c0, m0, c1, m1),
        cpu_step_spec(c1, m1, c2, m2),
        c0.state is FetchOpcode,
        c0.interrupt_type.nmi || c0.interrupt_type.reset || (c0.interrupt_type.irq
            && c0.regs.p.bits & STATUS_I != STATUS_I),
    ensures
        c2.state is BrkPushPCLo,
        c2.interrupt_type == c0.interrupt_type,
        c2.regs.sp == (c0.regs.sp - 1) % 256,
        c2.regs.p == c0.regs.p,
        c2.regs.a == c0.regs.a && c2.regs.x == c0.regs.x && c2.regs.y == c0.regs.y,
        forall|b: int|
            m0.plain(b) && m0.cell(b) != m0.cell(0x100 + c0.regs.sp)
                ==> #[trigger] m2.value_at(b) == m0.value_at(b),
        c0.interrupt_type.reset ==> forall|b: int|
            m0.plain(b) ==> #[trigger] m2.value_at(b) == m0.value_at(b),
        forall|b: int| #[trigger] m2.plain(b) == m0.plain(b),
        forall|b: int| #[trigger] m2.cell(b) == m0.cell(b),
{
    reveal(exec_effect);
    assert(c1.state is Execute && c1.opcode_type is Brk) by {
        reveal(crate::opcodes::spec_opcode_entry);
    }
    assert(c1.regs.sp == c0.regs.sp && c1.interrupt_type == c0.interrupt_type);
}

/// The interrupt and reset entry, second act: the two remaining stack
/// ticks. The return address's low byte and the status byte go down, the
/// status byte takes its interrupt form (a reset also clears decimal),
/// and only the two stack cells are written; a reset writes nothing.
#[verifier::spinoff_prover]
#[verifier::rlimit(100)]
pub proof fn lemma_interrupt_entry_stack<M: Memory>(
    it: Interrupt,
    c2: CPU,
    m2: M,
    c3: CPU,
    m3: M,
    c4: CPU,
    m4: M,
)
    requires
        cpu_step_spec(c2, m2, c3, m3),
        cpu_step_spec(c3, m3, c4, m4),
        c2.state is BrkPushPCLo,
        c2.interrupt_type == it,
    ensures
        c4.state is BrkPushReadPCLo,
        c4.interrupt_type == it,
        c4.regs.sp == (c2.regs.sp - 2) % 256,
        c4.regs.p.bits == if it.reset {
            (c2.regs.p.bits | (STATUS_I | STATUS_U)) & !STATUS_D
        } else {
            c2.regs.p.bits | STATUS_I
        },
        c4.regs.a == c2.regs.a && c4.regs.x == c2.regs.x && c4.regs.y == c2.regs.y,
        forall|b: int|
            m2.plain(b) && m2.cell(b) != m2.cell(0x100 + c2.regs.sp) && m2.cell(b) != m2.cell(
                0x100 + (c2.regs.sp - 1) % 256,
            ) ==> #[trigger] m4.value_at(b) == m2.value_at(b),
        it.reset ==> forall|b: int|
            m2.plain(b) ==> #[trigger] m4.value_at(b) == m2.value_at(b),
        forall|b: int| #[trigger] m4.plain(b) == m2.plain(b),
        forall|b: int| #[trigger] m4.cell(b) == m2.cell(b),
{
    assert(c3.state is BrkPushStatus && c3.regs.sp == (c2.regs.sp - 1) % 256
        && c3.interrupt_type == it);
}

/// The interrupt and reset entry, last act: the two vector reads and the
/// jump. Three ticks after the status push the machine is back at the
/// fetch state, the program counter is loaded from the vector bytes the
/// memory holds when the reads begin, the registers beside it are kept,
/// no request is pending any more, and no ordinary cell changes. The
/// vector cells must be ordinary so the reads are pinned.
#[verifier::spinoff_prover]
#[verifier::rlimit(100)]
pub proof fn lemma_interrupt_entry_vector<M: Memory>(
    c4: CPU,
    m4: M,
    c5: CPU,
    m5: M,
    c6: CPU,
    m6: M,
    c7: CPU,
    m7: M,
)
    requires
        cpu_step_spec(c4, m4, c5, m5),
        cpu_step_spec(c5, m5, c6, m6),
        cpu_step_spec(c6, m6, c7, m7),
        c4.state is BrkPushReadPCLo,
        m4.plain(vector_of(c4.interrupt_type)),
        m4.plain(vector_of(c4.interrupt_type) + 1),
    ensures
        c7.state is FetchOpcode,
        c7.regs.pc == m4.value_at(vector_of(c4.interrupt_type) + 1) * 256 + m4.value_at(
            vector_of(c4.interrupt_type),
        ),
        c7.regs == (CPURegisters { pc: c7.regs.pc, ..c4.regs }),
        !c7.interrupt_type.irq && !c7.interrupt_type.nmi && !c7.interrupt_type.reset,
        forall|b: int| m4.plain(b) ==> #[trigger] m7.value_at(b) == m4.value_at(b),
{
    let vec = vector_of(c4.interrupt_type);
    assert(c5.state is BrkPushReadPCHi && c5.interrupt_type == c4.interrupt_type);
    assert(c5.address.lo == m4.value_at(vec));
    assert(m5.value_at(vec + 1) == m4.value_at(vec + 1));
    assert(c6.state is BrkSetPC);
    assert(c6.address.hi == m4.value_at(vec + 1));
    assert(c6.address.lo == m4.value_at(vec));
}

/// Branch timing, not taken. From an instruction boundary with no
/// interrupt pending and a branch opcode under the program counter whose
/// flag test fails, the step specification forces the documented cost:
/// after exactly two ticks the machine is back at the fetch state with
/// the counter just past the displacement byte.
#[verifier::spinoff_prover]
#[verifier::rlimit(100)]
pub proof fn lemma_branch_timing_not_taken<M: Memory>(
    c0: CPU,
    m0: M,
    c1: CPU,
    m1: M,
    c2: CPU,
    m2: M,
)
    requires
        cpu_step_spec(c0, m0, c1, m1),
        cpu_step_spec(c1, m1, c2, m2),
        c0.state is FetchOpcode,
        !c0.interrupt_type.nmi,
        !c0.interrupt_type.reset,
        !(c0.interrupt_type.irq && c0.regs.p.bits & STATUS_I != STATUS_I),
        crate::opcodes::spec_opcode_entry(m0.value_at(c0.regs.pc as int)).0 is Rel,
        (c1.regs.p.bits & c1.branch_flag_mask == c1.branch_flag_mask) != c1.branch_when,
    ensures
        c2.state is FetchOpcode,
        c2.regs.pc == (c0.regs.pc + 2) % 0x10000,
{
    assert(c1.state is BranchReadOffsetAndCheck);
    assert(c1.regs.pc == (c0.regs.pc + 1) % 0x10000);
}

/// Branch timing, taken. With the flag test passing, the jump lands after
/// exactly three ticks when the target stays in the page of the counter,
/// and only after a fourth tick when it crosses into another page.
#[verifier::spinoff_prover]
#[verifier::rlimit(100)]
pub proof fn lemma_branch_timing_taken<M: Memory>(
    c0: CPU,
    m0: M,
    c1: CPU,
    m1: M,
    c2: CPU,
    m2: M,
    c3: CPU,
    m3: M,
    c4: CPU,
    m4: M,
)
    requires
        cpu_step_spec(c0, m0, c1, m1),
        cpu_step_spec(c1, m1, c2, m2),
        cpu_step_spec(c2, m2, c3, m3),
        cpu_step_spec(c3, m3, c4, m4),
        c0.state is FetchOpcode,
        !c0.interrupt_type.nmi,
        !c0.interrupt_type.reset,
        !(c0.interrupt_type.irq && c0.regs.p.bits & STATUS_I != STATUS_I),
        crate::opcodes::spec_opcode_entry(m0.value_at(c0.regs.pc as int)).0 is Rel,
        (c1.regs.p.bits & c1.branch_flag_mask == c1.branch_flag_mask) == c1.branch_when,
    ensures
        ({
            let target = vstd::wrapping::u16_specs::wrapping_add_signed(
                c2.regs.pc,
                c2.relative_address as i16,
            );
            &&& c2.regs.pc / 256 == target / 256 ==> c3.state is FetchOpcode && c3.regs.pc
                == target
            &&& c2.regs.pc / 256 != target / 256 ==> c3.state is BranchJumpIfTrueAndCrossPage
                && c4.state is FetchOpcode && c4.regs.pc == target
        }),
{
    assert(c1.state is BranchReadOffsetAndCheck);
    assert(c2.state is BranchJumpIfTrue);
    let target = vstd::wrapping::u16_specs::wrapping_add_signed(
        c2.regs.pc,
        c2.relative_address as i16,
    );
    if c2.regs.pc / 256 != target / 256 {
        assert(c3.state is BranchJumpIfTrueAndCrossPage);
        assert(c3.regs.pc == c2.regs.pc && c3.relative_address == c2.relative_address);
    }
}

} // verus!
