//! The instruction semantics over the ghost model: one specification-level
//! function per arithmetic rule, and `step_spec`, the interpreter that says
//! exactly what one fetch-decode-execute step does to the machine and how
//! many cycles it costs.
//!
//! Cycle accounting follows the hardware: every instruction costs its base
//! cycle count from the decode table; instructions that only read their
//! operand pay one more cycle when indexed addressing crossed a page; a
//! taken branch pays one more cycle, and yet another when the branch target
//! lies in a different page than the instruction that follows the branch.

use vstd::prelude::*;

use crate::addressing::resolve_spec;
use crate::flags::{byte_of_flags, flags_of_byte, Flags};
use crate::instruction::{decode_spec, Instruction, Op};
use crate::interrupt::{interrupt_spec, InterruptType};
use crate::state::{addr_hi, addr_lo, make_addr, page_of, wadd16, wadd8, wsub16, wsub8, CpuState};

verus! {

/// What one step yields: the machine afterwards, and the cycles consumed.
pub ghost struct StepOutcome {
    pub state: CpuState,
    pub cycles: u8,
}

/// Zero set iff the value is zero; Negative set iff its top bit is set.
pub open spec fn zn_flags(f: Flags, v: u8) -> Flags {
    Flags { zero: v == 0, negative: v >= 0x80, ..f }
}

/// Load a value into the accumulator, refreshing Zero and Negative.
pub open spec fn set_acc_zn(s: CpuState, v: u8) -> CpuState {
    CpuState { acc: v, flags: zn_flags(s.flags, v), ..s }
}

/// Load a value into index X, refreshing Zero and Negative.
pub open spec fn set_x_zn(s: CpuState, v: u8) -> CpuState {
    CpuState { x: v, flags: zn_flags(s.flags, v), ..s }
}

/// Load a value into index Y, refreshing Zero and Negative.
pub open spec fn set_y_zn(s: CpuState, v: u8) -> CpuState {
    CpuState { y: v, flags: zn_flags(s.flags, v), ..s }
}

/// The accumulator after ADC: the 8-bit sum of accumulator, operand and
/// carry-in, wrapping modulo 256.
pub open spec fn adc_value(a: u8, m: u8, c: bool) -> u8 {
    let sum = a + m + (if c {
        1int
    } else {
        0int
    });
    if sum > 0xFF {
        (sum - 0x100) as u8
    } else {
        sum as u8
    }
}

/// Carry after ADC: set iff the 9-bit sum exceeds 0xFF.
pub open spec fn adc_carry(a: u8, m: u8, c: bool) -> bool {
    a + m + (if c {
        1int
    } else {
        0int
    }) > 0xFF
}

/// Overflow after addition: the operands agree in sign and the result
/// disagrees (two's-complement overflow).
pub open spec fn adc_overflow(a: u8, m: u8, r: u8) -> bool {
    ((a >= 0x80) == (m >= 0x80)) && ((r >= 0x80) != (a >= 0x80))
}

/// The full effect of ADC on the machine: accumulator and the Carry,
/// Overflow, Zero and Negative flags.
pub open spec fn adc_state(s: CpuState, m: u8) -> CpuState {
    let r = adc_value(s.acc, m, s.flags.carry);
    CpuState {
        acc: r,
        flags: Flags {
            carry: adc_carry(s.acc, m, s.flags.carry),
            overflow: adc_overflow(s.acc, m, r),
            zero: r == 0,
            negative: r >= 0x80,
            ..s.flags
        },
        ..s
    }
}

/// SBC is ADC of the operand's ones' complement: subtraction borrows
/// exactly when the inverted addition does not carry.
pub open spec fn sbc_state(s: CpuState, m: u8) -> CpuState {
    adc_state(s, (0xFF - m) as u8)
}

/// The round-trip law of the arithmetic pair: adding an operand with Carry
/// clear and then subtracting the same operand with Carry set returns the
/// accumulator to its original value, for every pair of 8-bit values.  The
/// law speaks of the accumulator's visible value alone; Carry and Overflow
/// after each half follow their own rules.
pub proof fn lemma_adc_sbc_round_trip(a: u8, b: u8)
    ensures
        adc_value(adc_value(a, b, false), (0xFF - b) as u8, true) == a,
{
}

/// The same law at the machine level: after ADC of an operand with Carry
/// clear, an SBC of that operand with Carry restored to set leaves the
/// accumulator where it began.
pub proof fn lemma_adc_sbc_state_round_trip(s: CpuState, b: u8)
    requires
        !s.flags.carry,
    ensures
        ({
            let after_adc = adc_state(s, b);
            let restored = CpuState {
                flags: Flags { carry: true, ..after_adc.flags },
                ..after_adc
            };
            sbc_state(restored, b).acc == s.acc
        }),
{
}

/// Compare flags: Carry iff no borrow (register >= operand), Zero iff
/// equal, Negative from the top bit of the wrapping difference.
pub open spec fn cmp_flags(f: Flags, reg: u8, m: u8) -> Flags {
    Flags { carry: reg >= m, zero: reg == m, negative: wsub8(reg, m) >= 0x80, ..f }
}

/// The operand an instruction works on: the byte at the effective address,
/// or the accumulator when the mode yields no address (Accumulator mode).
pub open spec fn operand_of(s: CpuState, addr: Option<u16>) -> u8 {
    match addr {
        Some(a) => s.read(a),
        None => s.acc,
    }
}

/// Where read-modify-write instructions put their result: the effective
/// address, or the accumulator in Accumulator mode.
pub open spec fn store_result(s: CpuState, target: Option<u16>, v: u8) -> CpuState {
    match target {
        Some(a) => s.with_mem(a, v),
        None => CpuState { acc: v, ..s },
    }
}

/// Where store instructions put their value; they have no accumulator form,
/// so without an address nothing is written.
pub open spec fn store_mem(s: CpuState, target: Option<u16>, v: u8) -> CpuState {
    match target {
        Some(a) => s.with_mem(a, v),
        None => s,
    }
}

/// A shift or rotate: write the result back, set Carry from the bit shifted
/// out, and refresh Zero and Negative from the result.
pub open spec fn shift_state(s: CpuState, target: Option<u16>, res: u8, carry_out: bool) -> CpuState {
    store_result(
        CpuState {
            flags: Flags { carry: carry_out, zero: res == 0, negative: res >= 0x80, ..s.flags },
            ..s
        },
        target,
        res,
    )
}

/// Left shift: the low bit is vacated, the top bit is shifted out.
pub open spec fn asl_value(v: u8) -> u8 {
    if 2 * v > 0xFF {
        (2 * v - 0x100) as u8
    } else {
        (2 * v) as u8
    }
}

/// Right shift: the top bit is vacated, the low bit is shifted out.
pub open spec fn lsr_value(v: u8) -> u8 {
    v / 2
}

/// Rotate left: the previous Carry enters the low bit.
pub open spec fn rol_value(v: u8, c: bool) -> u8 {
    let sum = 2 * v + (if c {
        1int
    } else {
        0int
    });
    if sum > 0xFF {
        (sum - 0x100) as u8
    } else {
        sum as u8
    }
}

/// Rotate right: the previous Carry enters the top bit.
pub open spec fn ror_value(v: u8, c: bool) -> u8 {
    (v / 2 + (if c {
        0x80int
    } else {
        0int
    })) as u8
}

/// A read-modify-write whose flags are just Zero/Negative of the result
/// (INC and DEC).
pub open spec fn rmw_zn_state(s: CpuState, target: Option<u16>, res: u8) -> CpuState {
    store_result(CpuState { flags: zn_flags(s.flags, res), ..s }, target, res)
}

/// Base cycles plus the page-crossing penalty owed by read instructions.
pub open spec fn page_cycles(base: u8, crossed: bool) -> u8 {
    if crossed {
        wadd8(base, 1)
    } else {
        base
    }
}

/// The outcome of a branch over one flag: a taken branch retargets the
/// program counter and costs one extra cycle, plus another if the target
/// lies in a different page than the following instruction.
pub open spec fn branch_outcome(s: CpuState, ins: Instruction, addr: Option<u16>, taken: bool) -> StepOutcome {
    match addr {
        Some(t) => if taken {
            StepOutcome {
                state: s.with_pc(t),
                cycles: if page_of(t) != page_of(s.pc) {
                    wadd8(wadd8(ins.cycle, 1), 1)
                } else {
                    wadd8(ins.cycle, 1)
                },
            }
        } else {
            StepOutcome { state: s, cycles: ins.cycle }
        },
        None => StepOutcome { state: s, cycles: ins.cycle },
    }
}

/// Read-class instructions: they only consume their operand and pay the
/// page-crossing penalty.  Opaque: proofs reveal it where the family's
/// effect is being established.
#[verifier::opaque]
pub open spec fn read_op_spec(
    s: CpuState,
    ins: Instruction,
    addr: Option<u16>,
    crossed: bool,
) -> StepOutcome {
    let m = operand_of(s, addr);
    let base = ins.cycle;
    match ins.op {
        Op::Adc => StepOutcome { state: adc_state(s, m), cycles: page_cycles(base, crossed) },
        Op::Sbc => StepOutcome { state: sbc_state(s, m), cycles: page_cycles(base, crossed) },
        Op::And => StepOutcome {
            state: set_acc_zn(s, s.acc & m),
            cycles: page_cycles(base, crossed),
        },
        Op::Ora => StepOutcome {
            state: set_acc_zn(s, s.acc | m),
            cycles: page_cycles(base, crossed),
        },
        Op::Eor => StepOutcome {
            state: set_acc_zn(s, s.acc ^ m),
            cycles: page_cycles(base, crossed),
        },
        Op::Cmp => StepOutcome {
            state: CpuState { flags: cmp_flags(s.flags, s.acc, m), ..s },
            cycles: page_cycles(base, crossed),
        },
        Op::Cpx => StepOutcome {
            state: CpuState { flags: cmp_flags(s.flags, s.x, m), ..s },
            cycles: page_cycles(base, crossed),
        },
        Op::Cpy => StepOutcome {
            state: CpuState { flags: cmp_flags(s.flags, s.y, m), ..s },
            cycles: page_cycles(base, crossed),
        },
        Op::Bit => StepOutcome {
            state: CpuState {
                flags: Flags {
                    zero: (s.acc & m) == 0,
                    overflow: (m / 0x40) % 2 == 1,
                    negative: m >= 0x80,
                    ..s.flags
                },
                ..s
            },
            cycles: page_cycles(base, crossed),
        },
        Op::Lda => StepOutcome { state: set_acc_zn(s, m), cycles: page_cycles(base, crossed) },
        Op::Ldx => StepOutcome { state: set_x_zn(s, m), cycles: page_cycles(base, crossed) },
        Op::Ldy => StepOutcome { state: set_y_zn(s, m), cycles: page_cycles(base, crossed) },
        Op::Lax => StepOutcome {
            state: CpuState { acc: m, x: m, flags: zn_flags(s.flags, m), ..s },
            cycles: page_cycles(base, crossed),
        },
        Op::Las => {
            let v = m & s.sp;
            StepOutcome {
                state: CpuState { acc: v, x: v, sp: v, flags: zn_flags(s.flags, v), ..s },
                cycles: page_cycles(base, crossed),
            }
        },
        Op::Nop => StepOutcome { state: s, cycles: page_cycles(base, crossed) },
        _ => StepOutcome { state: s, cycles: base },
    }
}

/// The immediate-only undocumented arithmetic instructions.  Opaque:
/// proofs reveal it where the family's effect is being established.
#[verifier::opaque]
pub open spec fn imm_op_spec(
    s: CpuState,
    ins: Instruction,
    addr: Option<u16>,
    crossed: bool,
) -> StepOutcome {
    let m = operand_of(s, addr);
    let base = ins.cycle;
    match ins.op {
        Op::Anc => {
            let a2 = s.acc & m;
            StepOutcome {
                state: CpuState {
                    acc: a2,
                    flags: Flags { carry: a2 >= 0x80, zero: a2 == 0, negative: a2 >= 0x80, ..s.flags },
                    ..s
                },
                cycles: base,
            }
        },
        Op::Alr => {
            let a2 = s.acc & m;
            let res = lsr_value(a2);
            StepOutcome {
                state: CpuState {
                    acc: res,
                    flags: Flags {
                        carry: a2 % 2 == 1,
                        zero: res == 0,
                        negative: res >= 0x80,
                        ..s.flags
                    },
                    ..s
                },
                cycles: base,
            }
        },
        Op::Arr => {
            let a2 = s.acc & m;
            let res = ror_value(a2, s.flags.carry);
            StepOutcome {
                state: CpuState {
                    acc: res,
                    flags: Flags {
                        carry: (res / 0x40) % 2 == 1,
                        overflow: ((res / 0x40) % 2 == 1) != ((res / 0x20) % 2 == 1),
                        zero: res == 0,
                        negative: res >= 0x80,
                        ..s.flags
                    },
                    ..s
                },
                cycles: base,
            }
        },
        Op::Axs => {
            let t = s.acc & s.x;
            let res = wsub8(t, m);
            StepOutcome {
                state: CpuState {
                    x: res,
                    flags: Flags { carry: t >= m, zero: res == 0, negative: res >= 0x80, ..s.flags },
                    ..s
                },
                cycles: base,
            }
        },
        Op::Lxa => StepOutcome {
            state: CpuState { acc: m, x: m, flags: zn_flags(s.flags, m), ..s },
            cycles: base,
        },
        Op::Xaa => StepOutcome {
            state: CpuState { acc: s.x & m, flags: zn_flags(s.flags, s.x & m), ..s },
            cycles: base,
        },
        _ => StepOutcome { state: s, cycles: base },
    }
}

/// Shifts, rotates, and memory increments and decrements.  Opaque:
/// proofs reveal it where the family's effect is being established.
#[verifier::opaque]
pub open spec fn shift_op_spec(
    s: CpuState,
    ins: Instruction,
    addr: Option<u16>,
    crossed: bool,
) -> StepOutcome {
    let m = operand_of(s, addr);
    let base = ins.cycle;
    match ins.op {
        Op::Asl => StepOutcome {
            state: shift_state(s, addr, asl_value(m), m >= 0x80),
            cycles: base,
        },
        Op::Lsr => StepOutcome {
            state: shift_state(s, addr, lsr_value(m), m % 2 == 1),
            cycles: base,
        },
        Op::Rol => StepOutcome {
            state: shift_state(s, addr, rol_value(m, s.flags.carry), m >= 0x80),
            cycles: base,
        },
        Op::Ror => StepOutcome {
            state: shift_state(s, addr, ror_value(m, s.flags.carry), m % 2 == 1),
            cycles: base,
        },
        Op::Inc => StepOutcome { state: rmw_zn_state(s, addr, wadd8(m, 1)), cycles: base },
        Op::Dec => StepOutcome { state: rmw_zn_state(s, addr, wsub8(m, 1)), cycles: base },
        _ => StepOutcome { state: s, cycles: base },
    }
}

/// The undocumented combined read-modify-write instructions.  Opaque:
/// proofs reveal it where the family's effect is being established.
#[verifier::opaque]
pub open spec fn rmw_op_spec(
    s: CpuState,
    ins: Instruction,
    addr: Option<u16>,
    crossed: bool,
) -> StepOutcome {
    let m = operand_of(s, addr);
    let base = ins.cycle;
    match ins.op {
        Op::Slo => {
            let res = asl_value(m);
            let a2 = s.acc | res;
            StepOutcome {
                state: store_result(
                    CpuState {
                        acc: a2,
                        flags: Flags {
                            carry: m >= 0x80,
                            zero: a2 == 0,
                            negative: a2 >= 0x80,
                            ..s.flags
                        },
                        ..s
                    },
                    addr,
                    res,
                ),
                cycles: base,
            }
        },
        Op::Rla => {
            let res = rol_value(m, s.flags.carry);
            let a2 = s.acc & res;
            StepOutcome {
                state: store_result(
                    CpuState {
                        acc: a2,
                        flags: Flags {
                            carry: m >= 0x80,
                            zero: a2 == 0,
                            negative: a2 >= 0x80,
                            ..s.flags
                        },
                        ..s
                    },
                    addr,
                    res,
                ),
                cycles: base,
            }
        },
        Op::Sre => {
            let res = lsr_value(m);
            let a2 = s.acc ^ res;
            StepOutcome {
                state: store_result(
                    CpuState {
                        acc: a2,
                        flags: Flags {
                            carry: m % 2 == 1,
                            zero: a2 == 0,
                            negative: a2 >= 0x80,
                            ..s.flags
                        },
                        ..s
                    },
                    addr,
                    res,
                ),
                cycles: base,
            }
        },
        Op::Rra => {
            let res = ror_value(m, s.flags.carry);
            let s1 = store_result(s, addr, res);
            StepOutcome {
                state: adc_state(
                    CpuState { flags: Flags { carry: m % 2 == 1, ..s1.flags }, ..s1 },
                    res,
                ),
                cycles: base,
            }
        },
        Op::Dcp => {
            let res = wsub8(m, 1);
            StepOutcome {
                state: store_result(
                    CpuState { flags: cmp_flags(s.flags, s.acc, res), ..s },
                    addr,
                    res,
                ),
                cycles: base,
            }
        },
        Op::Isc => {
            let res = wadd8(m, 1);
            let s1 = store_result(s, addr, res);
            StepOutcome { state: sbc_state(s1, res), cycles: base }
        },
        _ => StepOutcome { state: s, cycles: base },
    }
}

/// Store instructions, including the unstable high-byte stores.  Opaque:
/// proofs reveal it where the family's effect is being established.
#[verifier::opaque]
pub open spec fn store_op_spec(
    s: CpuState,
    ins: Instruction,
    addr: Option<u16>,
    crossed: bool,
) -> StepOutcome {
    let base = ins.cycle;
    match ins.op {
        Op::Sta => StepOutcome { state: store_mem(s, addr, s.acc), cycles: base },
        Op::Stx => StepOutcome { state: store_mem(s, addr, s.x), cycles: base },
        Op::Sty => StepOutcome { state: store_mem(s, addr, s.y), cycles: base },
        Op::Sax => StepOutcome { state: store_mem(s, addr, s.acc & s.x), cycles: base },
        // Unstable high-byte stores: the value stored is masked with the
        // high byte of the effective address plus one.
        Op::Shx => StepOutcome {
            state: match addr {
                Some(a) => s.with_mem(a, s.x & wadd8(addr_hi(a), 1)),
                None => s,
            },
            cycles: base,
        },
        Op::Shy => StepOutcome {
            state: match addr {
                Some(a) => s.with_mem(a, s.y & wadd8(addr_hi(a), 1)),
                None => s,
            },
            cycles: base,
        },
        Op::Ahx => StepOutcome {
            state: match addr {
                Some(a) => s.with_mem(a, s.acc & s.x & wadd8(addr_hi(a), 1)),
                None => s,
            },
            cycles: base,
        },
        Op::Tas => {
            let v = s.acc & s.x;
            let s1 = CpuState { sp: v, ..s };
            StepOutcome {
                state: match addr {
                    Some(a) => s1.with_mem(a, v & wadd8(addr_hi(a), 1)),
                    None => s1,
                },
                cycles: base,
            }
        },
        _ => StepOutcome { state: s, cycles: base },
    }
}

/// The eight conditional branches, one per testable flag value.  Opaque:
/// proofs reveal it where the family's effect is being established.
#[verifier::opaque]
pub open spec fn branch_op_spec(
    s: CpuState,
    ins: Instruction,
    addr: Option<u16>,
    crossed: bool,
) -> StepOutcome {
    let base = ins.cycle;
    match ins.op {
        Op::Bcc => branch_outcome(s, ins, addr, !s.flags.carry),
        Op::Bcs => branch_outcome(s, ins, addr, s.flags.carry),
        Op::Bne => branch_outcome(s, ins, addr, !s.flags.zero),
        Op::Beq => branch_outcome(s, ins, addr, s.flags.zero),
        Op::Bpl => branch_outcome(s, ins, addr, !s.flags.negative),
        Op::Bmi => branch_outcome(s, ins, addr, s.flags.negative),
        Op::Bvc => branch_outcome(s, ins, addr, !s.flags.overflow),
        Op::Bvs => branch_outcome(s, ins, addr, s.flags.overflow),
        _ => StepOutcome { state: s, cycles: base },
    }
}

/// Jumps, subroutine and interrupt returns, stack pushes and pulls, BRK
/// and the KIL halt family.  Opaque: proofs reveal it where the family's
/// effect is being established.
#[verifier::opaque]
pub open spec fn system_op_spec(
    s: CpuState,
    ins: Instruction,
    addr: Option<u16>,
    crossed: bool,
) -> StepOutcome {
    let base = ins.cycle;
    match ins.op {
        Op::Jmp => StepOutcome {
            state: match addr {
                Some(t) => s.with_pc(t),
                None => s,
            },
            cycles: base,
        },
        Op::Jsr => StepOutcome {
            state: match addr {
                Some(t) => {
                    let ret = wsub16(s.pc, 1);
                    s.push(addr_hi(ret)).push(addr_lo(ret)).with_pc(t)
                },
                None => s,
            },
            cycles: base,
        },
        Op::Rts => {
            let lo = s.pop_value();
            let s1 = s.pop_state();
            let hi = s1.pop_value();
            let s2 = s1.pop_state();
            StepOutcome {
                state: CpuState { pc: wadd16(make_addr(lo, hi), 1), ..s2 },
                cycles: base,
            }
        },
        Op::Rti => {
            let fv = s.pop_value();
            let s1 = s.pop_state();
            let lo = s1.pop_value();
            let s2 = s1.pop_state();
            let hi = s2.pop_value();
            let s3 = s2.pop_state();
            StepOutcome {
                state: CpuState { flags: flags_of_byte(fv), pc: make_addr(lo, hi), ..s3 },
                cycles: base,
            }
        },
        Op::Pha => StepOutcome { state: s.push(s.acc), cycles: base },
        Op::Php => StepOutcome { state: s.push(byte_of_flags(s.flags)), cycles: base },
        Op::Pla => {
            let v = s.pop_value();
            StepOutcome { state: set_acc_zn(s.pop_state(), v), cycles: base }
        },
        Op::Plp => {
            let v = s.pop_value();
            StepOutcome {
                state: CpuState { flags: flags_of_byte(v), ..s.pop_state() },
                cycles: base,
            }
        },
        Op::Brk => StepOutcome { state: interrupt_spec(s, InterruptType::BRK), cycles: base },
        Op::Kil => StepOutcome { state: CpuState { halted: true, ..s }, cycles: base },
        _ => StepOutcome { state: s, cycles: base },
    }
}

/// Flag instructions, register transfers, and register increments and
/// decrements.  Opaque: proofs reveal it where the family's effect is
/// being established.
#[verifier::opaque]
pub open spec fn reg_op_spec(
    s: CpuState,
    ins: Instruction,
    addr: Option<u16>,
    crossed: bool,
) -> StepOutcome {
    let base = ins.cycle;
    match ins.op {
        Op::Clc => StepOutcome {
            state: CpuState { flags: Flags { carry: false, ..s.flags }, ..s },
            cycles: base,
        },
        Op::Sec => StepOutcome {
            state: CpuState { flags: Flags { carry: true, ..s.flags }, ..s },
            cycles: base,
        },
        Op::Cli => StepOutcome {
            state: CpuState { flags: Flags { interrupt_disable: false, ..s.flags }, ..s },
            cycles: base,
        },
        Op::Sei => StepOutcome {
            state: CpuState { flags: Flags { interrupt_disable: true, ..s.flags }, ..s },
            cycles: base,
        },
        Op::Cld => StepOutcome {
            state: CpuState { flags: Flags { decimal: false, ..s.flags }, ..s },
            cycles: base,
        },
        Op::Sed => StepOutcome {
            state: CpuState { flags: Flags { decimal: true, ..s.flags }, ..s },
            cycles: base,
        },
        Op::Clv => StepOutcome {
            state: CpuState { flags: Flags { overflow: false, ..s.flags }, ..s },
            cycles: base,
        },
        Op::Tax => StepOutcome { state: set_x_zn(s, s.acc), cycles: base },
        Op::Tay => StepOutcome { state: set_y_zn(s, s.acc), cycles: base },
        Op::Txa => StepOutcome { state: set_acc_zn(s, s.x), cycles: base },
        Op::Tya => StepOutcome { state: set_acc_zn(s, s.y), cycles: base },
        Op::Tsx => StepOutcome { state: set_x_zn(s, s.sp), cycles: base },
        Op::Txs => StepOutcome { state: CpuState { sp: s.x, ..s }, cycles: base },
        Op::Inx => StepOutcome { state: set_x_zn(s, wadd8(s.x, 1)), cycles: base },
        Op::Iny => StepOutcome { state: set_y_zn(s, wadd8(s.y, 1)), cycles: base },
        Op::Dex => StepOutcome { state: set_x_zn(s, wsub8(s.x, 1)), cycles: base },
        Op::Dey => StepOutcome { state: set_y_zn(s, wsub8(s.y, 1)), cycles: base },
        _ => StepOutcome { state: s, cycles: base },
    }
}

/// The semantic effect of one decoded instruction, applied to the machine
/// after its operand bytes have been consumed: dispatch by instruction
/// family.  `addr` and `crossed` are the outcome of addressing-mode
/// resolution.
pub open spec fn operate_spec(
    s: CpuState,
    ins: Instruction,
    addr: Option<u16>,
    crossed: bool,
) -> StepOutcome {
    match ins.op {
        Op::Adc | Op::Sbc | Op::And | Op::Ora | Op::Eor | Op::Cmp | Op::Cpx | Op::Cpy |
        Op::Bit | Op::Lda | Op::Ldx | Op::Ldy | Op::Lax | Op::Las | Op::Nop => read_op_spec(s, ins, addr, crossed),
        Op::Anc | Op::Alr | Op::Arr | Op::Axs | Op::Lxa | Op::Xaa => imm_op_spec(s, ins, addr, crossed),
        Op::Asl | Op::Lsr | Op::Rol | Op::Ror | Op::Inc | Op::Dec => shift_op_spec(s, ins, addr, crossed),
        Op::Slo | Op::Rla | Op::Sre | Op::Rra | Op::Dcp | Op::Isc => rmw_op_spec(s, ins, addr, crossed),
        Op::Sta | Op::Stx | Op::Sty | Op::Sax | Op::Shx | Op::Shy | Op::Ahx | Op::Tas => store_op_spec(s, ins, addr, crossed),
        Op::Bcc | Op::Bcs | Op::Bne | Op::Beq | Op::Bpl | Op::Bmi | Op::Bvc | Op::Bvs => branch_op_spec(s, ins, addr, crossed),
        Op::Jmp | Op::Jsr | Op::Rts | Op::Rti | Op::Pha | Op::Php | Op::Pla | Op::Plp |
        Op::Brk | Op::Kil => system_op_spec(s, ins, addr, crossed),
        Op::Clc | Op::Sec | Op::Cli | Op::Sei | Op::Cld | Op::Sed | Op::Clv | Op::Tax |
        Op::Tay | Op::Txa | Op::Tya | Op::Tsx | Op::Txs | Op::Inx | Op::Iny | Op::Dex |
        Op::Dey => reg_op_spec(s, ins, addr, crossed),
    }
}

/// The flag discipline of the instruction set: Interrupt-Disable, Decimal
/// and Break are mutated only by the instructions defined to touch them
/// (CLI/SEI, CLD/SED, PLP, RTI, and BRK's interrupt entry).  Every other
/// instruction leaves those three flags exactly as it found them, whatever
/// its operand and addressing outcome.
#[verifier::rlimit(100)]
pub proof fn lemma_flag_discipline(s: CpuState, ins: Instruction, addr: Option<u16>, crossed: bool)
    requires
        !(ins.op is Cli || ins.op is Sei || ins.op is Cld || ins.op is Sed || ins.op is Plp
            || ins.op is Rti || ins.op is Brk),
    ensures
        operate_spec(s, ins, addr, crossed).state.flags.interrupt_disable
            == s.flags.interrupt_disable,
        operate_spec(s, ins, addr, crossed).state.flags.decimal == s.flags.decimal,
        operate_spec(s, ins, addr, crossed).state.flags.brk == s.flags.brk,
{
    let o = operate_spec(s, ins, addr, crossed);
    match ins.op {
        Op::Adc | Op::Sbc | Op::And | Op::Ora | Op::Eor | Op::Cmp | Op::Cpx | Op::Cpy |
        Op::Bit | Op::Lda | Op::Ldx | Op::Ldy | Op::Lax | Op::Las | Op::Nop => {
            reveal(read_op_spec);
            assert(o.state.flags.interrupt_disable == s.flags.interrupt_disable);
        },
        Op::Anc | Op::Alr | Op::Arr | Op::Axs | Op::Lxa | Op::Xaa => {
            reveal(imm_op_spec);
            assert(o.state.flags.interrupt_disable == s.flags.interrupt_disable);
        },
        Op::Asl | Op::Lsr | Op::Rol | Op::Ror | Op::Inc | Op::Dec => {
            reveal(shift_op_spec);
            assert(o.state.flags.interrupt_disable == s.flags.interrupt_disable);
        },
        Op::Slo | Op::Rla | Op::Sre | Op::Rra | Op::Dcp | Op::Isc => {
            reveal(rmw_op_spec);
            assert(o.state.flags.interrupt_disable == s.flags.interrupt_disable);
        },
        Op::Sta | Op::Stx | Op::Sty | Op::Sax | Op::Shx | Op::Shy | Op::Ahx | Op::Tas => {
            reveal(store_op_spec);
            assert(o.state.flags.interrupt_disable == s.flags.interrupt_disable);
        },
        Op::Bcc | Op::Bcs | Op::Bne | Op::Beq | Op::Bpl | Op::Bmi | Op::Bvc | Op::Bvs => {
            reveal(branch_op_spec);
            assert(o.state.flags.interrupt_disable == s.flags.interrupt_disable);
        },
        Op::Jmp | Op::Jsr | Op::Rts | Op::Rti | Op::Pha | Op::Php | Op::Pla | Op::Plp |
        Op::Brk | Op::Kil => {
            reveal(system_op_spec);
            assert(o.state.flags.interrupt_disable == s.flags.interrupt_disable);
        },
        Op::Clc | Op::Sec | Op::Cli | Op::Sei | Op::Cld | Op::Sed | Op::Clv | Op::Tax |
        Op::Tay | Op::Txa | Op::Tya | Op::Tsx | Op::Txs | Op::Inx | Op::Iny | Op::Dex |
        Op::Dey => {
            reveal(reg_op_spec);
            assert(o.state.flags.interrupt_disable == s.flags.interrupt_disable);
        },
    }
}

/// One decoded instruction applied to the machine whose program counter
/// points at the instruction's operand bytes.
pub open spec fn apply_spec(s: CpuState, ins: Instruction) -> StepOutcome {
    let r = resolve_spec(s, ins.addressing_mode);
    operate_spec(s.with_pc(r.pc), ins, r.addr, r.crossed)
}

/// One full fetch-decode-execute step.  A halted machine (after a KIL
/// opcode) does nothing and consumes no cycles; otherwise the opcode at the
/// program counter is fetched, decoded through the total table, resolved
/// and applied.
pub open spec fn step_spec(s: CpuState) -> StepOutcome {
    if s.halted {
        StepOutcome { state: s, cycles: 0 }
    } else {
        let ins = decode_spec(s.read(s.pc));
        apply_spec(s.with_pc(wadd16(s.pc, 1)), ins)
    }
}

/// The halt policy chosen for the KIL family: halting is modeled as an
/// explicit terminal state, not an error.  Stepping a halted machine
/// changes nothing and consumes no cycles, so a driver detects the
/// condition by inspecting the halt latch rather than by catching a
/// failure.
pub proof fn lemma_halted_is_terminal(s: CpuState)
    requires
        s.halted,
    ensures
        step_spec(s).state == s,
        step_spec(s).cycles == 0,
{
}

/// The machine with a program fragment copied into memory at `start`;
/// everything else is untouched.
pub open spec fn load_program_spec(s: CpuState, start: u16, bytes: Seq<u8>) -> CpuState
    recommends
        start + bytes.len() <= 0x10000,
{
    CpuState {
        mem: Seq::new(
            s.mem.len(),
            |j: int|
                if start <= j < start + bytes.len() {
                    bytes[j - start]
                } else {
                    s.mem[j]
                },
        ),
        ..s
    }
}

/// What running a bounded number of steps yields: the machine afterwards
/// and the total cycles consumed.
pub ghost struct RunOutcome {
    pub state: CpuState,
    pub cycles: nat,
}

/// Stepping the machine while the program counter stays inside
/// `start..end`, the machine has not halted, and fuel remains; each step
/// spends one unit of fuel.  Cycle counts accumulate.
pub open spec fn run_spec(s: CpuState, start: u16, end: int, fuel: nat) -> RunOutcome
    decreases fuel,
{
    if fuel == 0 || s.halted || !(start <= s.pc < end) {
        RunOutcome { state: s, cycles: 0 }
    } else {
        let o = step_spec(s);
        let rest = run_spec(o.state, start, end, (fuel - 1) as nat);
        RunOutcome { state: rest.state, cycles: (o.cycles + rest.cycles) as nat }
    }
}

} // verus!
