use vstd::prelude::*;
use crate::cpu_bus::{BusModel, CpuBus, read_spec, read_word_spec, with_pc, write_spec};
use crate::cpu_state::{
    CpuModel, CpuState, CpuStatus, flag, nz_spec, pop_state_spec, pop_value_spec, push_spec,
    set_bit,
};
use crate::error::NesError;
use crate::instructions::{Instruction, Opcode, Param};
use crate::rom::ROM;

verus! {

// ---------------------------------------------------------------------------
// The effect of each instruction on the CPU model.
// ---------------------------------------------------------------------------

/// 1 when the carry flag is set, else 0.
pub open spec fn carry_in(m: CpuModel) -> int {
    if flag(m, CpuStatus::CARRY) { 1 } else { 0 }
}

/// `A + M + C` before truncation to a byte.
pub open spec fn adc_sum(m: CpuModel, v: u8) -> int {
    m.a as int + v as int + carry_in(m)
}

/// ADC: add `v` and the carry to `A`, setting N, V, Z and C.
pub open spec fn adc_spec(m: CpuModel, v: u8) -> CpuModel {
    let sum = adc_sum(m, v);
    let r = (sum % 256) as u8;
    let p1 = set_bit(m.p, CpuStatus::NEGATIVE, r >= 0x80);
    let p2 = set_bit(p1, CpuStatus::OVERFLOW, (v ^ r) & (m.a ^ r) & 0x80 != 0);
    let p3 = set_bit(p2, CpuStatus::ZERO, r == 0);
    let p4 = set_bit(p3, CpuStatus::CARRY, sum > 0xFF);
    CpuModel { a: r, p: p4, ..m }
}

/// SBC: ADC of the complement of `v`.
pub open spec fn sbc_spec(m: CpuModel, v: u8) -> CpuModel {
    adc_spec(m, v ^ 0xFF)
}

/// The model with `A := v` and N, Z set from `v`.
pub open spec fn load_a_spec(m: CpuModel, v: u8) -> CpuModel {
    nz_spec(CpuModel { a: v, ..m }, v)
}

/// The model with `X := v` and N, Z set from `v`.
pub open spec fn load_x_spec(m: CpuModel, v: u8) -> CpuModel {
    nz_spec(CpuModel { x: v, ..m }, v)
}

/// The model with `Y := v` and N, Z set from `v`.
pub open spec fn load_y_spec(m: CpuModel, v: u8) -> CpuModel {
    nz_spec(CpuModel { y: v, ..m }, v)
}

/// The model with the carry set to `c`.
pub open spec fn with_carry(m: CpuModel, c: bool) -> CpuModel {
    CpuModel { p: set_bit(m.p, CpuStatus::CARRY, c), ..m }
}

/// A shifted left by one, before truncation.
pub open spec fn asl_value(v: u8) -> int {
    v as int * 2
}

/// A rotated left through the carry, before truncation.
pub open spec fn rol_value(m: CpuModel, v: u8) -> int {
    v as int * 2 + carry_in(m)
}

/// A rotated right through the carry.
pub open spec fn ror_value(m: CpuModel, v: u8) -> u8 {
    (v / 2 + if flag(m, CpuStatus::CARRY) { 0x80int } else { 0 }) as u8
}

/// The accumulator form of ASL.
pub open spec fn asl_acc_spec(m: CpuModel, v: u8) -> CpuModel {
    let r = (asl_value(v) % 256) as u8;
    with_carry(load_a_spec(m, r), asl_value(v) > 0xFF)
}

/// The accumulator form of LSR.
pub open spec fn lsr_acc_spec(m: CpuModel, v: u8) -> CpuModel {
    with_carry(load_a_spec(m, v / 2), v % 2 == 1)
}

/// The accumulator form of ROL.
pub open spec fn rol_acc_spec(m: CpuModel, v: u8) -> CpuModel {
    let r = (rol_value(m, v) % 256) as u8;
    with_carry(load_a_spec(m, r), rol_value(m, v) > 0xFF)
}

/// The accumulator form of ROR.
pub open spec fn ror_acc_spec(m: CpuModel, v: u8) -> CpuModel {
    with_carry(load_a_spec(m, ror_value(m, v)), v % 2 == 1)
}

/// BIT: Z from `A & v`, N from bit 7 and V from bit 6 of `v`.
pub open spec fn bit_spec(m: CpuModel, v: u8) -> CpuModel {
    let p1 = set_bit(m.p, CpuStatus::NEGATIVE, v >= 0x80);
    let p2 = set_bit(p1, CpuStatus::OVERFLOW, v & 0x40 != 0);
    let p3 = set_bit(p2, CpuStatus::ZERO, m.a & v == 0);
    CpuModel { p: p3, ..m }
}

/// A compare of register value `reg` with `v`.
pub open spec fn compare_spec(m: CpuModel, reg: u8, v: u8) -> CpuModel {
    with_carry(nz_spec(m, reg.wrapping_sub(v)), reg >= v)
}

/// The 16-bit two's complement extension of a signed 8-bit offset.
pub open spec fn sign_extend(v: u8) -> u16 {
    if v < 0x80 { v as u16 } else { (v as int + 0xFF00) as u16 }
}

/// The signed value of an 8-bit offset.
pub open spec fn signed_offset(v: u8) -> int {
    if v < 0x80 { v as int } else { v as int - 256 }
}

/// The high byte (page number) of an address.
pub open spec fn page_of(addr: u16) -> int {
    addr as int / 256
}

/// A conditional branch by offset `v`, taken when `cond` holds.
pub open spec fn branch_spec(m: CpuModel, v: u8, cond: bool) -> CpuModel {
    if cond {
        let target = m.pc.wrapping_add(sign_extend(v));
        CpuModel { branch: true, page_cross: page_of(target) != page_of(m.pc), pc: target, ..m }
    } else {
        CpuModel { branch: false, ..m }
    }
}

/// The model with the flag(s) of `mask` switched on or off.
pub open spec fn flag_spec(m: CpuModel, mask: u8, on: bool) -> CpuModel {
    CpuModel { p: set_bit(m.p, mask, on), ..m }
}

/// The high byte of a 16-bit value.
pub open spec fn hi(v: u16) -> u8 {
    (v / 256) as u8
}

/// The low byte of a 16-bit value.
pub open spec fn lo(v: u16) -> u8 {
    (v % 256) as u8
}

/// The 16-bit value with high byte `h` and low byte `l`.
pub open spec fn word(h: u8, l: u8) -> u16 {
    (h as int * 256 + l as int) as u16
}

/// JSR: push the address of the last byte of the instruction, high byte first, then jump.
pub open spec fn jsr_spec(m: CpuModel, addr: u16) -> CpuModel {
    let ret = m.pc.wrapping_sub(1);
    CpuModel { pc: addr, ..push_spec(push_spec(m, hi(ret)), lo(ret)) }
}

/// Pops two bytes (low, then high) and returns the state and the word.
pub open spec fn pop_word_spec(m: CpuModel) -> (CpuModel, u16) {
    let l = pop_value_spec(m);
    let m1 = pop_state_spec(m);
    let h = pop_value_spec(m1);
    let m2 = pop_state_spec(m1);
    (m2, word(h, l))
}

/// RTS: pop the return address and continue after it.
pub open spec fn rts_spec(m: CpuModel) -> CpuModel {
    let (m2, w) = pop_word_spec(m);
    CpuModel { pc: w.wrapping_add(1), ..m2 }
}

/// PLP: pull the status, clearing B and setting the always-set bit.
pub open spec fn plp_spec(m: CpuModel) -> CpuModel {
    let v = pop_value_spec(m);
    let p = set_bit(set_bit(v, CpuStatus::BRK, false), CpuStatus::ALWAYS, true);
    CpuModel { p: p, ..pop_state_spec(m) }
}

/// RTI: PLP, then pull the program counter (not incremented).
pub open spec fn rti_spec(m: CpuModel) -> CpuModel {
    let (m2, w) = pop_word_spec(plp_spec(m));
    CpuModel { pc: w, ..m2 }
}

/// PHP: push the status with the break flag on.
pub open spec fn php_spec(m: CpuModel) -> CpuModel {
    push_spec(m, m.p | CpuStatus::BRK)
}

/// PLA: pull the accumulator, setting N and Z.
pub open spec fn pla_spec(m: CpuModel) -> CpuModel {
    load_a_spec(pop_state_spec(m), pop_value_spec(m))
}

// ---------------------------------------------------------------------------
// Instructions that touch only the CPU's registers and its stack page.
// ---------------------------------------------------------------------------

/// Sets or clears one status flag.
fn set_flag(cpu_state: &mut CpuState, mask: u8, on: bool)
    requires
        old(cpu_state).wf(),
    ensures
        final(cpu_state).wf(),
        final(cpu_state)@ == flag_spec(old(cpu_state)@, mask, on),
{
    cpu_state.status.set(mask, on);
}

/// ADC: add with carry.
pub fn adc(cpu_state: &mut CpuState, parameter: u8)
    requires
        old(cpu_state).wf(),
    ensures
        final(cpu_state).wf(),
        final(cpu_state)@ == adc_spec(old(cpu_state)@, parameter),
{
    let reg_a = cpu_state.reg_a;
    let carry: u16 = if cpu_state.status.contains(CpuStatus::CARRY) { 1 } else { 0 };
    let sum: u16 = reg_a as u16 + parameter as u16 + carry;
    let result: u8 = (sum % 256) as u8;
    cpu_state.status.set(CpuStatus::NEGATIVE, result >= 0x80);
    cpu_state.status.set(CpuStatus::OVERFLOW, (parameter ^ result) & (reg_a ^ result) & 0x80 != 0);
    cpu_state.status.set(CpuStatus::ZERO, result == 0);
    cpu_state.status.set(CpuStatus::CARRY, sum > 0xFF);
    cpu_state.reg_a = result;
}

/// SBC: subtract with borrow, computed as ADC of the complement.
pub fn sbc(cpu_state: &mut CpuState, parameter: u8)
    requires
        old(cpu_state).wf(),
    ensures
        final(cpu_state).wf(),
        final(cpu_state)@ == sbc_spec(old(cpu_state)@, parameter),
{
    adc(cpu_state, parameter ^ 0xFF);
}

/// AND: bitwise and into A.
pub fn and(cpu_state: &mut CpuState, parameter: u8)
    requires
        old(cpu_state).wf(),
    ensures
        final(cpu_state).wf(),
        final(cpu_state)@ == load_a_spec(old(cpu_state)@, old(cpu_state).reg_a & parameter),
{
    cpu_state.reg_a = cpu_state.reg_a & parameter;
    let r = cpu_state.reg_a;
    cpu_state.set_nz(r);
}

/// ORA: bitwise or into A.
pub fn ora(cpu_state: &mut CpuState, parameter: u8)
    requires
        old(cpu_state).wf(),
    ensures
        final(cpu_state).wf(),
        final(cpu_state)@ == load_a_spec(old(cpu_state)@, old(cpu_state).reg_a | parameter),
{
    cpu_state.reg_a = cpu_state.reg_a | parameter;
    let r = cpu_state.reg_a;
    cpu_state.set_nz(r);
}

/// EOR: bitwise exclusive or into A.
pub fn eor(cpu_state: &mut CpuState, parameter: u8)
    requires
        old(cpu_state).wf(),
    ensures
        final(cpu_state).wf(),
        final(cpu_state)@ == load_a_spec(old(cpu_state)@, old(cpu_state).reg_a ^ parameter),
{
    cpu_state.reg_a = cpu_state.reg_a ^ parameter;
    let r = cpu_state.reg_a;
    cpu_state.set_nz(r);
}

/// ASL on the accumulator.
pub fn asl_acc(cpu_state: &mut CpuState, parameter: u8)
    requires
        old(cpu_state).wf(),
    ensures
        final(cpu_state).wf(),
        final(cpu_state)@ == asl_acc_spec(old(cpu_state)@, parameter),
{
    let result: u16 = parameter as u16 * 2;
    cpu_state.reg_a = (result % 256) as u8;
    let r = cpu_state.reg_a;
    cpu_state.set_nz(r);
    cpu_state.status.set(CpuStatus::CARRY, result > 0xFF);
}

/// LSR on the accumulator.
pub fn lsr_acc(cpu_state: &mut CpuState, parameter: u8)
    requires
        old(cpu_state).wf(),
    ensures
        final(cpu_state).wf(),
        final(cpu_state)@ == lsr_acc_spec(old(cpu_state)@, parameter),
{
    cpu_state.reg_a = parameter / 2;
    let r = cpu_state.reg_a;
    cpu_state.set_nz(r);
    cpu_state.status.set(CpuStatus::CARRY, parameter % 2 == 1);
}

/// ROL on the accumulator.
pub fn rol_acc(cpu_state: &mut CpuState, parameter: u8)
    requires
        old(cpu_state).wf(),
    ensures
        final(cpu_state).wf(),
        final(cpu_state)@ == rol_acc_spec(old(cpu_state)@, parameter),
{
    let carry: u16 = if cpu_state.status.contains(CpuStatus::CARRY) { 1 } else { 0 };
    let result: u16 = parameter as u16 * 2 + carry;
    cpu_state.reg_a = (result % 256) as u8;
    let r = cpu_state.reg_a;
    cpu_state.set_nz(r);
    cpu_state.status.set(CpuStatus::CARRY, result > 0xFF);
}

/// ROR on the accumulator.
pub fn ror_acc(cpu_state: &mut CpuState, parameter: u8)
    requires
        old(cpu_state).wf(),
    ensures
        final(cpu_state).wf(),
        final(cpu_state)@ == ror_acc_spec(old(cpu_state)@, parameter),
{
    let high: u8 = if cpu_state.status.contains(CpuStatus::CARRY) { 0x80 } else { 0 };
    let result: u8 = parameter / 2 + high;
    cpu_state.reg_a = result;
    cpu_state.set_nz(result);
    cpu_state.status.set(CpuStatus::CARRY, parameter % 2 == 1);
}

/// BIT: test bits of memory against A.
pub fn bit(cpu_state: &mut CpuState, parameter: u8)
    requires
        old(cpu_state).wf(),
    ensures
        final(cpu_state).wf(),
        final(cpu_state)@ == bit_spec(old(cpu_state)@, parameter),
{
    let result = cpu_state.reg_a & parameter;
    cpu_state.status.set(CpuStatus::NEGATIVE, parameter >= 0x80);
    cpu_state.status.set(CpuStatus::OVERFLOW, parameter & 0x40 != 0);
    cpu_state.status.set(CpuStatus::ZERO, result == 0);
}

/// Takes a branch by a signed offset when `cond` holds, recording whether it was
/// taken and whether it crossed a page.
fn branch(cpu_state: &mut CpuState, parameter: u8, cond: bool)
    requires
        old(cpu_state).wf(),
    ensures
        final(cpu_state).wf(),
        final(cpu_state)@ == branch_spec(old(cpu_state)@, parameter, cond),
{
    cpu_state.branch_flag = cond;
    if cond {
        let offset: u16 = if parameter < 0x80 { parameter as u16 } else { parameter as u16 + 0xFF00 };
        let pc = cpu_state.program_counter;
        let target = pc.wrapping_add(offset);
        cpu_state.page_cross_flag = target / 256 != pc / 256;
        cpu_state.program_counter = target;
    }
}

/// BPL: branch when N is clear.
pub fn bpl(cpu_state: &mut CpuState, parameter: u8)
    requires
        old(cpu_state).wf(),
    ensures
        final(cpu_state).wf(),
        final(cpu_state)@ == branch_spec(
            old(cpu_state)@,
            parameter,
            !flag(old(cpu_state)@, CpuStatus::NEGATIVE),
        ),
{
    let cond = !cpu_state.status.contains(CpuStatus::NEGATIVE);
    branch(cpu_state, parameter, cond);
}

/// BMI: branch when N is set.
pub fn bmi(cpu_state: &mut CpuState, parameter: u8)
    requires
        old(cpu_state).wf(),
    ensures
        final(cpu_state).wf(),
        final(cpu_state)@ == branch_spec(
            old(cpu_state)@,
            parameter,
            flag(old(cpu_state)@, CpuStatus::NEGATIVE),
        ),
{
    let cond = cpu_state.status.contains(CpuStatus::NEGATIVE);
    branch(cpu_state, parameter, cond);
}

/// BVC: branch when V is clear.
pub fn bvc(cpu_state: &mut CpuState, parameter: u8)
    requires
        old(cpu_state).wf(),
    ensures
        final(cpu_state).wf(),
        final(cpu_state)@ == branch_spec(
            old(cpu_state)@,
            parameter,
            !flag(old(cpu_state)@, CpuStatus::OVERFLOW),
        ),
{
    let cond = !cpu_state.status.contains(CpuStatus::OVERFLOW);
    branch(cpu_state, parameter, cond);
}

/// BVS: branch when V is set.
pub fn bvs(cpu_state: &mut CpuState, parameter: u8)
    requires
        old(cpu_state).wf(),
    ensures
        final(cpu_state).wf(),
        final(cpu_state)@ == branch_spec(
            old(cpu_state)@,
            parameter,
            flag(old(cpu_state)@, CpuStatus::OVERFLOW),
        ),
{
    let cond = cpu_state.status.contains(CpuStatus::OVERFLOW);
    branch(cpu_state, parameter, cond);
}

/// BCC: branch when C is clear.
pub fn bcc(cpu_state: &mut CpuState, parameter: u8)
    requires
        old(cpu_state).wf(),
    ensures
        final(cpu_state).wf(),
        final(cpu_state)@ == branch_spec(
            old(cpu_state)@,
            parameter,
            !flag(old(cpu_state)@, CpuStatus::CARRY),
        ),
{
    let cond = !cpu_state.status.contains(CpuStatus::CARRY);
    branch(cpu_state, parameter, cond);
}

/// BCS: branch when C is set.
pub fn bcs(cpu_state: &mut CpuState, parameter: u8)
    requires
        old(cpu_state).wf(),
    ensures
        final(cpu_state).wf(),
        final(cpu_state)@ == branch_spec(
            old(cpu_state)@,
            parameter,
            flag(old(cpu_state)@, CpuStatus::CARRY),
        ),
{
    let cond = cpu_state.status.contains(CpuStatus::CARRY);
    branch(cpu_state, parameter, cond);
}

/// BNE: branch when Z is clear.
pub fn bne(cpu_state: &mut CpuState, parameter: u8)
    requires
        old(cpu_state).wf(),
    ensures
        final(cpu_state).wf(),
        final(cpu_state)@ == branch_spec(
            old(cpu_state)@,
            parameter,
            !flag(old(cpu_state)@, CpuStatus::ZERO),
        ),
{
    let cond = !cpu_state.status.contains(CpuStatus::ZERO);
    branch(cpu_state, parameter, cond);
}

/// BEQ: branch when Z is set.
pub fn beq(cpu_state: &mut CpuState, parameter: u8)
    requires
        old(cpu_state).wf(),
    ensures
        final(cpu_state).wf(),
        final(cpu_state)@ == branch_spec(
            old(cpu_state)@,
            parameter,
            flag(old(cpu_state)@, CpuStatus::ZERO),
        ),
{
    let cond = cpu_state.status.contains(CpuStatus::ZERO);
    branch(cpu_state, parameter, cond);
}


/// Compares a register value with the parameter.
fn compare(cpu_state: &mut CpuState, reg: u8, parameter: u8)
    requires
        old(cpu_state).wf(),
    ensures
        final(cpu_state).wf(),
        final(cpu_state)@ == compare_spec(old(cpu_state)@, reg, parameter),
{
    let result = reg.wrapping_sub(parameter);
    cpu_state.set_nz(result);
    cpu_state.status.set(CpuStatus::CARRY, reg >= parameter);
}

/// CMP: compare A.
pub fn cmp(cpu_state: &mut CpuState, parameter: u8)
    requires
        old(cpu_state).wf(),
    ensures
        final(cpu_state).wf(),
        final(cpu_state)@ == compare_spec(old(cpu_state)@, old(cpu_state).reg_a, parameter),
{
    let reg = cpu_state.reg_a;
    compare(cpu_state, reg, parameter);
}

/// CPX: compare X.
pub fn cpx(cpu_state: &mut CpuState, parameter: u8)
    requires
        old(cpu_state).wf(),
    ensures
        final(cpu_state).wf(),
        final(cpu_state)@ == compare_spec(old(cpu_state)@, old(cpu_state).reg_x, parameter),
{
    let reg = cpu_state.reg_x;
    compare(cpu_state, reg, parameter);
}

/// CPY: compare Y.
pub fn cpy(cpu_state: &mut CpuState, parameter: u8)
    requires
        old(cpu_state).wf(),
    ensures
        final(cpu_state).wf(),
        final(cpu_state)@ == compare_spec(old(cpu_state)@, old(cpu_state).reg_y, parameter),
{
    let reg = cpu_state.reg_y;
    compare(cpu_state, reg, parameter);
}

/// CLC: clears the carry flag.
pub fn clc(cpu_state: &mut CpuState)
    requires
        old(cpu_state).wf(),
    ensures
        final(cpu_state).wf(),
        final(cpu_state)@ == flag_spec(old(cpu_state)@, CpuStatus::CARRY, false),
{
    set_flag(cpu_state, CpuStatus::CARRY, false);
}

/// SEC: sets the carry flag.
pub fn sec(cpu_state: &mut CpuState)
    requires
        old(cpu_state).wf(),
    ensures
        final(cpu_state).wf(),
        final(cpu_state)@ == flag_spec(old(cpu_state)@, CpuStatus::CARRY, true),
{
    set_flag(cpu_state, CpuStatus::CARRY, true);
}

/// CLI: clears the interrupt-disable flag.
pub fn cli(cpu_state: &mut CpuState)
    requires
        old(cpu_state).wf(),
    ensures
        final(cpu_state).wf(),
        final(cpu_state)@ == flag_spec(old(cpu_state)@, CpuStatus::INT_DISABLE, false),
{
    set_flag(cpu_state, CpuStatus::INT_DISABLE, false);
}

/// SEI: sets the interrupt-disable flag.
pub fn sei(cpu_state: &mut CpuState)
    requires
        old(cpu_state).wf(),
    ensures
        final(cpu_state).wf(),
        final(cpu_state)@ == flag_spec(old(cpu_state)@, CpuStatus::INT_DISABLE, true),
{
    set_flag(cpu_state, CpuStatus::INT_DISABLE, true);
}

/// CLV: clears the overflow flag.
pub fn clv(cpu_state: &mut CpuState)
    requires
        old(cpu_state).wf(),
    ensures
        final(cpu_state).wf(),
        final(cpu_state)@ == flag_spec(old(cpu_state)@, CpuStatus::OVERFLOW, false),
{
    set_flag(cpu_state, CpuStatus::OVERFLOW, false);
}

/// CLD: clears the decimal flag.
pub fn cld(cpu_state: &mut CpuState)
    requires
        old(cpu_state).wf(),
    ensures
        final(cpu_state).wf(),
        final(cpu_state)@ == flag_spec(old(cpu_state)@, CpuStatus::DECIMAL, false),
{
    set_flag(cpu_state, CpuStatus::DECIMAL, false);
}

/// SED: sets the decimal flag.
pub fn sed(cpu_state: &mut CpuState)
    requires
        old(cpu_state).wf(),
    ensures
        final(cpu_state).wf(),
        final(cpu_state)@ == flag_spec(old(cpu_state)@, CpuStatus::DECIMAL, true),
{
    set_flag(cpu_state, CpuStatus::DECIMAL, true);
}

/// LDA: load A.
pub fn lda(cpu_state: &mut CpuState, parameter: u8)
    requires
        old(cpu_state).wf(),
    ensures
        final(cpu_state).wf(),
        final(cpu_state)@ == load_a_spec(old(cpu_state)@, parameter),
{
    cpu_state.reg_a = parameter;
    cpu_state.set_nz(parameter);
}

/// LDX: load X.
pub fn ldx(cpu_state: &mut CpuState, parameter: u8)
    requires
        old(cpu_state).wf(),
    ensures
        final(cpu_state).wf(),
        final(cpu_state)@ == load_x_spec(old(cpu_state)@, parameter),
{
    cpu_state.reg_x = parameter;
    cpu_state.set_nz(parameter);
}

/// LDY: load Y.
pub fn ldy(cpu_state: &mut CpuState, parameter: u8)
    requires
        old(cpu_state).wf(),
    ensures
        final(cpu_state).wf(),
        final(cpu_state)@ == load_y_spec(old(cpu_state)@, parameter),
{
    cpu_state.reg_y = parameter;
    cpu_state.set_nz(parameter);
}

/// TAX: transfer A to X, setting N and Z.
pub fn tax(cpu_state: &mut CpuState)
    requires
        old(cpu_state).wf(),
    ensures
        final(cpu_state).wf(),
        final(cpu_state)@ == load_x_spec(old(cpu_state)@, old(cpu_state).reg_a),
{
    let value = cpu_state.reg_a;
    cpu_state.reg_x = value;
    cpu_state.set_nz(value);
}

/// TXA: transfer X to A, setting N and Z.
pub fn txa(cpu_state: &mut CpuState)
    requires
        old(cpu_state).wf(),
    ensures
        final(cpu_state).wf(),
        final(cpu_state)@ == load_a_spec(old(cpu_state)@, old(cpu_state).reg_x),
{
    let value = cpu_state.reg_x;
    cpu_state.reg_a = value;
    cpu_state.set_nz(value);
}

/// TAY: transfer A to Y, setting N and Z.
pub fn tay(cpu_state: &mut CpuState)
    requires
        old(cpu_state).wf(),
    ensures
        final(cpu_state).wf(),
        final(cpu_state)@ == load_y_spec(old(cpu_state)@, old(cpu_state).reg_a),
{
    let value = cpu_state.reg_a;
    cpu_state.reg_y = value;
    cpu_state.set_nz(value);
}

/// TYA: transfer Y to A, setting N and Z.
pub fn tya(cpu_state: &mut CpuState)
    requires
        old(cpu_state).wf(),
    ensures
        final(cpu_state).wf(),
        final(cpu_state)@ == load_a_spec(old(cpu_state)@, old(cpu_state).reg_y),
{
    let value = cpu_state.reg_y;
    cpu_state.reg_a = value;
    cpu_state.set_nz(value);
}

/// TSX: transfer S to X, setting N and Z.
pub fn tsx(cpu_state: &mut CpuState)
    requires
        old(cpu_state).wf(),
    ensures
        final(cpu_state).wf(),
        final(cpu_state)@ == load_x_spec(old(cpu_state)@, old(cpu_state).stack_pointer),
{
    let value = cpu_state.stack_pointer;
    cpu_state.reg_x = value;
    cpu_state.set_nz(value);
}

/// DEX: decrement X, setting N and Z.
pub fn dex(cpu_state: &mut CpuState)
    requires
        old(cpu_state).wf(),
    ensures
        final(cpu_state).wf(),
        final(cpu_state)@ == load_x_spec(old(cpu_state)@, old(cpu_state).reg_x.wrapping_sub(1)),
{
    let value = cpu_state.reg_x.wrapping_sub(1);
    cpu_state.reg_x = value;
    cpu_state.set_nz(value);
}

/// INX: increment X, setting N and Z.
pub fn inx(cpu_state: &mut CpuState)
    requires
        old(cpu_state).wf(),
    ensures
        final(cpu_state).wf(),
        final(cpu_state)@ == load_x_spec(old(cpu_state)@, old(cpu_state).reg_x.wrapping_add(1)),
{
    let value = cpu_state.reg_x.wrapping_add(1);
    cpu_state.reg_x = value;
    cpu_state.set_nz(value);
}

/// DEY: decrement Y, setting N and Z.
pub fn dey(cpu_state: &mut CpuState)
    requires
        old(cpu_state).wf(),
    ensures
        final(cpu_state).wf(),
        final(cpu_state)@ == load_y_spec(old(cpu_state)@, old(cpu_state).reg_y.wrapping_sub(1)),
{
    let value = cpu_state.reg_y.wrapping_sub(1);
    cpu_state.reg_y = value;
    cpu_state.set_nz(value);
}

/// INY: increment Y, setting N and Z.
pub fn iny(cpu_state: &mut CpuState)
    requires
        old(cpu_state).wf(),
    ensures
        final(cpu_state).wf(),
        final(cpu_state)@ == load_y_spec(old(cpu_state)@, old(cpu_state).reg_y.wrapping_add(1)),
{
    let value = cpu_state.reg_y.wrapping_add(1);
    cpu_state.reg_y = value;
    cpu_state.set_nz(value);
}

/// TXS: transfer X to S, no flags.
pub fn txs(cpu_state: &mut CpuState)
    requires
        old(cpu_state).wf(),
    ensures
        final(cpu_state).wf(),
        final(cpu_state)@ == (CpuModel { s: old(cpu_state).reg_x, ..old(cpu_state)@ }),
{
    cpu_state.stack_pointer = cpu_state.reg_x;
}

/// JMP: continue at `address`.
pub fn jmp(cpu_state: &mut CpuState, address: u16)
    requires
        old(cpu_state).wf(),
    ensures
        final(cpu_state).wf(),
        final(cpu_state)@ == (CpuModel { pc: address, ..old(cpu_state)@ }),
{
    cpu_state.program_counter = address;
}

/// JSR: push the return address minus one (high byte first) and jump.
pub fn jsr(cpu_state: &mut CpuState, address: u16)
    requires
        old(cpu_state).wf(),
    ensures
        final(cpu_state).wf(),
        final(cpu_state)@ == jsr_spec(old(cpu_state)@, address),
{
    let ret = cpu_state.program_counter.wrapping_sub(1);
    cpu_state.push_to_stack((ret / 256) as u8);
    cpu_state.push_to_stack((ret % 256) as u8);
    cpu_state.program_counter = address;
}

/// Pops a little-endian word from the stack.
fn pop_word(cpu_state: &mut CpuState) -> (r: u16)
    requires
        old(cpu_state).wf(),
    ensures
        final(cpu_state).wf(),
        (final(cpu_state)@, r) == pop_word_spec(old(cpu_state)@),
{
    let lsb = cpu_state.pop_from_stack();
    let msb = cpu_state.pop_from_stack();
    msb as u16 * 256 + lsb as u16
}

/// RTS: return from subroutine.
pub fn rts(cpu_state: &mut CpuState)
    requires
        old(cpu_state).wf(),
    ensures
        final(cpu_state).wf(),
        final(cpu_state)@ == rts_spec(old(cpu_state)@),
{
    let w = pop_word(cpu_state);
    cpu_state.program_counter = w.wrapping_add(1);
}

/// RTI: return from interrupt.
pub fn rti(cpu_state: &mut CpuState)
    requires
        old(cpu_state).wf(),
    ensures
        final(cpu_state).wf(),
        final(cpu_state)@ == rti_spec(old(cpu_state)@),
{
    plp(cpu_state);
    let w = pop_word(cpu_state);
    cpu_state.program_counter = w;
}

/// PHA: push A.
pub fn pha(cpu_state: &mut CpuState)
    requires
        old(cpu_state).wf(),
    ensures
        final(cpu_state).wf(),
        final(cpu_state)@ == push_spec(old(cpu_state)@, old(cpu_state).reg_a),
{
    let value = cpu_state.reg_a;
    cpu_state.push_to_stack(value);
}

/// PLA: pull A, setting N and Z.
pub fn pla(cpu_state: &mut CpuState)
    requires
        old(cpu_state).wf(),
    ensures
        final(cpu_state).wf(),
        final(cpu_state)@ == pla_spec(old(cpu_state)@),
{
    let value = cpu_state.pop_from_stack();
    cpu_state.reg_a = value;
    cpu_state.set_nz(value);
}

/// PHP: push the status with the break flag forced on.
pub fn php(cpu_state: &mut CpuState)
    requires
        old(cpu_state).wf(),
    ensures
        final(cpu_state).wf(),
        final(cpu_state)@ == php_spec(old(cpu_state)@),
{
    let value = cpu_state.status.bits | CpuStatus::BRK;
    cpu_state.push_to_stack(value);
}

/// PLP: pull the status, clearing break and forcing the always-set bit.
pub fn plp(cpu_state: &mut CpuState)
    requires
        old(cpu_state).wf(),
    ensures
        final(cpu_state).wf(),
        final(cpu_state)@ == plp_spec(old(cpu_state)@),
{
    let value = cpu_state.pop_from_stack();
    cpu_state.status = CpuStatus::from_bits(value);
    cpu_state.status.remove(CpuStatus::BRK);
    cpu_state.status.insert(CpuStatus::ALWAYS);
}


// ---------------------------------------------------------------------------
// Read-modify-write and store instructions, which go through the bus.
// ---------------------------------------------------------------------------

/// Whether `op` is a read-modify-write instruction.
pub open spec fn is_rmw(op: Opcode) -> bool {
    op == Opcode::ASL || op == Opcode::LSR || op == Opcode::ROL || op == Opcode::ROR
        || op == Opcode::INC || op == Opcode::DEC
}

/// The value a read-modify-write instruction stores back for operand `v`.
pub open spec fn rmw_value(c: CpuModel, op: Opcode, v: u8) -> u8 {
    match op {
        Opcode::ASL => (asl_value(v) % 256) as u8,
        Opcode::LSR => v / 2,
        Opcode::ROL => (rol_value(c, v) % 256) as u8,
        Opcode::ROR => ror_value(c, v),
        Opcode::INC => v.wrapping_add(1),
        _ => v.wrapping_sub(1),
    }
}

/// The carry a read-modify-write instruction leaves, if it sets one.
pub open spec fn rmw_carry(c: CpuModel, op: Opcode, v: u8) -> Option<bool> {
    match op {
        Opcode::ASL => Some(asl_value(v) > 0xFF),
        Opcode::LSR => Some(v % 2 == 1),
        Opcode::ROL => Some(rol_value(c, v) > 0xFF),
        Opcode::ROR => Some(v % 2 == 1),
        _ => None,
    }
}

/// A read-modify-write instruction on the byte at `addr`: read, store the new value,
/// then set N, Z (and C where the instruction sets it).
pub open spec fn rmw_spec(m: BusModel, rom: ROM, addr: u16, op: Opcode) -> (BusModel, Result<(), NesError>) {
    let (m1, r1) = read_spec(m, rom, addr);
    match r1 {
        Err(e) => (m1, Err(e)),
        Ok(v) => {
            let r = rmw_value(m.cpu, op, v);
            let (m2, r2) = write_spec(m1, rom, addr, r);
            match r2 {
                Err(e) => (m2, Err(e)),
                Ok(_) => {
                    let c1 = nz_spec(m2.cpu, r);
                    let c2 = match rmw_carry(m.cpu, op, v) {
                        Some(c) => with_carry(c1, c),
                        None => c1,
                    };
                    (BusModel { cpu: c2, ..m2 }, Ok(()))
                },
            }
        },
    }
}

fn read_modify_write(cpu_bus: &mut CpuBus, address: u16, op: Opcode) -> (r: Result<(), NesError>)
    requires
        old(cpu_bus).wf(),
        is_rmw(op),
    ensures
        final(cpu_bus).wf(),
        final(cpu_bus).rom == old(cpu_bus).rom,
        (final(cpu_bus)@, r) == rmw_spec(old(cpu_bus)@, old(cpu_bus).rom, address, op),
{
    let carry = cpu_bus.cpu_state.status.contains(CpuStatus::CARRY);
    let v = cpu_bus.read_byte(address)?;
    let (result, carry_out): (u8, Option<bool>) = match op {
        Opcode::ASL => (((v as u16 * 2) % 256) as u8, Some(v as u16 * 2 > 0xFF)),
        Opcode::LSR => (v / 2, Some(v % 2 == 1)),
        Opcode::ROL => {
            let wide: u16 = v as u16 * 2 + if carry { 1 } else { 0 };
            ((wide % 256) as u8, Some(wide > 0xFF))
        },
        Opcode::ROR => (v / 2 + if carry { 0x80 } else { 0 }, Some(v % 2 == 1)),
        Opcode::INC => (v.wrapping_add(1), None),
        _ => (v.wrapping_sub(1), None),
    };
    cpu_bus.write_byte(address, result)?;
    cpu_bus.cpu_state.set_nz(result);
    if let Some(c) = carry_out {
        cpu_bus.cpu_state.status.set(CpuStatus::CARRY, c);
    }
    Ok(())
}

/// ASL: shift the byte at `address` left.
pub fn asl(cpu_bus: &mut CpuBus, address: u16) -> (r: Result<(), NesError>)
    requires
        old(cpu_bus).wf(),
    ensures
        final(cpu_bus).wf(),
        final(cpu_bus).rom == old(cpu_bus).rom,
        (final(cpu_bus)@, r) == rmw_spec(old(cpu_bus)@, old(cpu_bus).rom, address, Opcode::ASL),
{
    read_modify_write(cpu_bus, address, Opcode::ASL)
}

/// LSR: shift the byte at `address` right.
pub fn lsr(cpu_bus: &mut CpuBus, address: u16) -> (r: Result<(), NesError>)
    requires
        old(cpu_bus).wf(),
    ensures
        final(cpu_bus).wf(),
        final(cpu_bus).rom == old(cpu_bus).rom,
        (final(cpu_bus)@, r) == rmw_spec(old(cpu_bus)@, old(cpu_bus).rom, address, Opcode::LSR),
{
    read_modify_write(cpu_bus, address, Opcode::LSR)
}

/// ROL: rotate the byte at `address` left through the carry.
pub fn rol(cpu_bus: &mut CpuBus, address: u16) -> (r: Result<(), NesError>)
    requires
        old(cpu_bus).wf(),
    ensures
        final(cpu_bus).wf(),
        final(cpu_bus).rom == old(cpu_bus).rom,
        (final(cpu_bus)@, r) == rmw_spec(old(cpu_bus)@, old(cpu_bus).rom, address, Opcode::ROL),
{
    read_modify_write(cpu_bus, address, Opcode::ROL)
}

/// ROR: rotate the byte at `address` right through the carry.
pub fn ror(cpu_bus: &mut CpuBus, address: u16) -> (r: Result<(), NesError>)
    requires
        old(cpu_bus).wf(),
    ensures
        final(cpu_bus).wf(),
        final(cpu_bus).rom == old(cpu_bus).rom,
        (final(cpu_bus)@, r) == rmw_spec(old(cpu_bus)@, old(cpu_bus).rom, address, Opcode::ROR),
{
    read_modify_write(cpu_bus, address, Opcode::ROR)
}

/// INC: increment the byte at `address`.
pub fn inc(cpu_bus: &mut CpuBus, address: u16) -> (r: Result<(), NesError>)
    requires
        old(cpu_bus).wf(),
    ensures
        final(cpu_bus).wf(),
        final(cpu_bus).rom == old(cpu_bus).rom,
        (final(cpu_bus)@, r) == rmw_spec(old(cpu_bus)@, old(cpu_bus).rom, address, Opcode::INC),
{
    read_modify_write(cpu_bus, address, Opcode::INC)
}

/// DEC: decrement the byte at `address`.
pub fn dec(cpu_bus: &mut CpuBus, address: u16) -> (r: Result<(), NesError>)
    requires
        old(cpu_bus).wf(),
    ensures
        final(cpu_bus).wf(),
        final(cpu_bus).rom == old(cpu_bus).rom,
        (final(cpu_bus)@, r) == rmw_spec(old(cpu_bus)@, old(cpu_bus).rom, address, Opcode::DEC),
{
    read_modify_write(cpu_bus, address, Opcode::DEC)
}

/// STA: store A at `address`; no flags change.
pub fn sta(cpu_bus: &mut CpuBus, address: u16) -> (r: Result<(), NesError>)
    requires
        old(cpu_bus).wf(),
    ensures
        final(cpu_bus).wf(),
        final(cpu_bus).rom == old(cpu_bus).rom,
        (final(cpu_bus)@, r) == write_spec(old(cpu_bus)@, old(cpu_bus).rom, address, old(cpu_bus)@.cpu.a),
{
    let value = cpu_bus.cpu_state.reg_a;
    cpu_bus.write_byte(address, value)
}

/// STX: store X at `address`; no flags change.
pub fn stx(cpu_bus: &mut CpuBus, address: u16) -> (r: Result<(), NesError>)
    requires
        old(cpu_bus).wf(),
    ensures
        final(cpu_bus).wf(),
        final(cpu_bus).rom == old(cpu_bus).rom,
        (final(cpu_bus)@, r) == write_spec(old(cpu_bus)@, old(cpu_bus).rom, address, old(cpu_bus)@.cpu.x),
{
    let value = cpu_bus.cpu_state.reg_x;
    cpu_bus.write_byte(address, value)
}

/// STY: store Y at `address`; no flags change.
pub fn sty(cpu_bus: &mut CpuBus, address: u16) -> (r: Result<(), NesError>)
    requires
        old(cpu_bus).wf(),
    ensures
        final(cpu_bus).wf(),
        final(cpu_bus).rom == old(cpu_bus).rom,
        (final(cpu_bus)@, r) == write_spec(old(cpu_bus)@, old(cpu_bus).rom, address, old(cpu_bus)@.cpu.y),
{
    let value = cpu_bus.cpu_state.reg_y;
    cpu_bus.write_byte(address, value)
}


// ---------------------------------------------------------------------------
// Interrupt sequences: BRK and the hardware interrupts share them.
// ---------------------------------------------------------------------------

/// Pushing the return address `ret` (high byte first) and the status byte `pushed`,
/// switching interrupt-disable on or off per `set_i`, and continuing at the word stored at
/// `vector`.
pub open spec fn service_spec(m: BusModel, rom: ROM, ret: u16, pushed: u8, set_i: bool, vector: u16) -> (BusModel, Result<(), NesError>) {
    let c1 = push_spec(push_spec(push_spec(m.cpu, hi(ret)), lo(ret)), pushed);
    let c2 = CpuModel { p: set_bit(c1.p, CpuStatus::INT_DISABLE, set_i), ..c1 };
    let (m2, r) = read_word_spec(BusModel { cpu: c2, ..m }, rom, vector, vector.wrapping_add(1));
    match r {
        Err(e) => (m2, Err(e)),
        Ok(w) => (with_pc(m2, w), Ok(())),
    }
}

/// BRK (the opcode already fetched, so the program counter is the BRK's address plus 1):
/// push the BRK's address plus 2 and the status with break set, set interrupt-disable, and
/// continue at the word stored at `0xFFFE`.
pub open spec fn brk_spec(m: BusModel, rom: ROM) -> (BusModel, Result<(), NesError>) {
    service_spec(m, rom, m.cpu.pc.wrapping_add(1), set_bit(m.cpu.p, CpuStatus::BRK, true), true, 0xFFFE)
}

/// Runs an interrupt sequence as `service_spec` states it.
pub fn service_interrupt(cpu_bus: &mut CpuBus, ret: u16, pushed: u8, set_i: bool, vector: u16) -> (r: Result<(), NesError>)
    requires
        old(cpu_bus).wf(),
    ensures
        final(cpu_bus).wf(),
        final(cpu_bus).rom == old(cpu_bus).rom,
        (final(cpu_bus)@, r) == service_spec(old(cpu_bus)@, old(cpu_bus).rom, ret, pushed, set_i, vector),
{
    cpu_bus.cpu_state.push_to_stack((ret / 256) as u8);
    cpu_bus.cpu_state.push_to_stack((ret % 256) as u8);
    cpu_bus.cpu_state.push_to_stack(pushed);
    cpu_bus.cpu_state.status.set(CpuStatus::INT_DISABLE, set_i);
    let target = cpu_bus.read_two_bytes(vector)?;
    cpu_bus.cpu_state.program_counter = target;
    Ok(())
}

/// BRK: push the return address and the status with break set, set interrupt-disable and
/// jump through the vector at `0xFFFE`.
pub fn brk(cpu_bus: &mut CpuBus) -> (r: Result<(), NesError>)
    requires
        old(cpu_bus).wf(),
    ensures
        final(cpu_bus).wf(),
        final(cpu_bus).rom == old(cpu_bus).rom,
        (final(cpu_bus)@, r) == brk_spec(old(cpu_bus)@, old(cpu_bus).rom),
{
    let ret = cpu_bus.cpu_state.program_counter.wrapping_add(1);
    let pushed = cpu_bus.cpu_state.status.bits | CpuStatus::BRK;
    service_interrupt(cpu_bus, ret, pushed, true, 0xFFFE)
}

// ---------------------------------------------------------------------------
// Dispatch of a decoded instruction.
// ---------------------------------------------------------------------------

/// Whether `op` takes a byte operand (an immediate value, the accumulator or a branch offset).
pub open spec fn is_value_op(op: Opcode) -> bool {
    op == Opcode::ADC
        || op == Opcode::AND
        || op == Opcode::ASL
        || op == Opcode::BIT
        || op == Opcode::BPL
        || op == Opcode::BMI
        || op == Opcode::BVC
        || op == Opcode::BVS
        || op == Opcode::BCC
        || op == Opcode::BCS
        || op == Opcode::BNE
        || op == Opcode::BEQ
        || op == Opcode::CMP
        || op == Opcode::CPX
        || op == Opcode::CPY
        || op == Opcode::EOR
        || op == Opcode::LDA
        || op == Opcode::LDX
        || op == Opcode::LDY
        || op == Opcode::LSR
        || op == Opcode::ORA
        || op == Opcode::ROL
        || op == Opcode::ROR
        || op == Opcode::SBC
}

/// Whether `op` reads its operand from memory when given an address.
pub open spec fn is_read_op(op: Opcode) -> bool {
    op == Opcode::ADC
        || op == Opcode::AND
        || op == Opcode::BIT
        || op == Opcode::CMP
        || op == Opcode::CPX
        || op == Opcode::CPY
        || op == Opcode::EOR
        || op == Opcode::LDA
        || op == Opcode::LDX
        || op == Opcode::LDY
        || op == Opcode::ORA
        || op == Opcode::SBC
}

/// Whether `op` takes no operand.
pub open spec fn is_implied_op(op: Opcode) -> bool {
    op == Opcode::CLC
        || op == Opcode::SEC
        || op == Opcode::CLI
        || op == Opcode::SEI
        || op == Opcode::CLV
        || op == Opcode::CLD
        || op == Opcode::SED
        || op == Opcode::NOP
        || op == Opcode::TAX
        || op == Opcode::TXA
        || op == Opcode::DEX
        || op == Opcode::INX
        || op == Opcode::TAY
        || op == Opcode::TYA
        || op == Opcode::DEY
        || op == Opcode::INY
        || op == Opcode::RTI
        || op == Opcode::RTS
        || op == Opcode::TXS
        || op == Opcode::TSX
        || op == Opcode::PHA
        || op == Opcode::PLA
        || op == Opcode::PHP
        || op == Opcode::PLP
}

/// The effect of a byte-operand instruction with operand `v`.
pub open spec fn value_op_spec(c: CpuModel, op: Opcode, v: u8) -> CpuModel {
    match op {
        Opcode::ADC => adc_spec(c, v),
        Opcode::AND => load_a_spec(c, c.a & v),
        Opcode::ASL => asl_acc_spec(c, v),
        Opcode::BIT => bit_spec(c, v),
        Opcode::BPL => branch_spec(c, v, !flag(c, CpuStatus::NEGATIVE)),
        Opcode::BMI => branch_spec(c, v, flag(c, CpuStatus::NEGATIVE)),
        Opcode::BVC => branch_spec(c, v, !flag(c, CpuStatus::OVERFLOW)),
        Opcode::BVS => branch_spec(c, v, flag(c, CpuStatus::OVERFLOW)),
        Opcode::BCC => branch_spec(c, v, !flag(c, CpuStatus::CARRY)),
        Opcode::BCS => branch_spec(c, v, flag(c, CpuStatus::CARRY)),
        Opcode::BNE => branch_spec(c, v, !flag(c, CpuStatus::ZERO)),
        Opcode::BEQ => branch_spec(c, v, flag(c, CpuStatus::ZERO)),
        Opcode::CMP => compare_spec(c, c.a, v),
        Opcode::CPX => compare_spec(c, c.x, v),
        Opcode::CPY => compare_spec(c, c.y, v),
        Opcode::EOR => load_a_spec(c, c.a ^ v),
        Opcode::LDA => load_a_spec(c, v),
        Opcode::LDX => load_x_spec(c, v),
        Opcode::LDY => load_y_spec(c, v),
        Opcode::LSR => lsr_acc_spec(c, v),
        Opcode::ORA => load_a_spec(c, c.a | v),
        Opcode::ROL => rol_acc_spec(c, v),
        Opcode::ROR => ror_acc_spec(c, v),
        Opcode::SBC => sbc_spec(c, v),
        _ => c,
    }
}

/// The effect of an instruction without operand.
pub open spec fn implied_op_spec(c: CpuModel, op: Opcode) -> CpuModel {
    match op {
        Opcode::CLC => flag_spec(c, CpuStatus::CARRY, false),
        Opcode::SEC => flag_spec(c, CpuStatus::CARRY, true),
        Opcode::CLI => flag_spec(c, CpuStatus::INT_DISABLE, false),
        Opcode::SEI => flag_spec(c, CpuStatus::INT_DISABLE, true),
        Opcode::CLV => flag_spec(c, CpuStatus::OVERFLOW, false),
        Opcode::CLD => flag_spec(c, CpuStatus::DECIMAL, false),
        Opcode::SED => flag_spec(c, CpuStatus::DECIMAL, true),
        Opcode::NOP => c,
        Opcode::TAX => load_x_spec(c, c.a),
        Opcode::TXA => load_a_spec(c, c.x),
        Opcode::DEX => load_x_spec(c, c.x.wrapping_sub(1)),
        Opcode::INX => load_x_spec(c, c.x.wrapping_add(1)),
        Opcode::TAY => load_y_spec(c, c.a),
        Opcode::TYA => load_a_spec(c, c.y),
        Opcode::DEY => load_y_spec(c, c.y.wrapping_sub(1)),
        Opcode::INY => load_y_spec(c, c.y.wrapping_add(1)),
        Opcode::RTI => rti_spec(c),
        Opcode::RTS => rts_spec(c),
        Opcode::TXS => CpuModel { s: c.x, ..c },
        Opcode::TSX => load_x_spec(c, c.s),
        Opcode::PHA => push_spec(c, c.a),
        Opcode::PLA => pla_spec(c),
        Opcode::PHP => php_spec(c),
        Opcode::PLP => plp_spec(c),
        _ => c,
    }
}

/// Executing `ins` on the bus: the bus afterwards and success or the error. Mnemonic
/// and operand shapes that do not go together fail with `IllegalOpcode`.
pub open spec fn execute_spec(m: BusModel, rom: ROM, ins: Instruction) -> (BusModel, Result<(), NesError>) {
    let op = ins.opcode;
    match ins.param {
        Param::Value(v) => if is_value_op(op) {
            (BusModel { cpu: value_op_spec(m.cpu, op, v), ..m }, Ok(()))
        } else {
            (m, Err(NesError::IllegalOpcode(ins.meta.raw_opcode)))
        },
        Param::Address(a) => if is_read_op(op) {
            let (m1, r1) = read_spec(m, rom, a);
            match r1 {
                Err(e) => (m1, Err(e)),
                Ok(v) => (BusModel { cpu: value_op_spec(m1.cpu, op, v), ..m1 }, Ok(())),
            }
        } else if is_rmw(op) {
            rmw_spec(m, rom, a, op)
        } else if op == Opcode::STA {
            write_spec(m, rom, a, m.cpu.a)
        } else if op == Opcode::STX {
            write_spec(m, rom, a, m.cpu.x)
        } else if op == Opcode::STY {
            write_spec(m, rom, a, m.cpu.y)
        } else if op == Opcode::JMP {
            (BusModel { cpu: CpuModel { pc: a, ..m.cpu }, ..m }, Ok(()))
        } else if op == Opcode::JSR {
            (BusModel { cpu: jsr_spec(m.cpu, a), ..m }, Ok(()))
        } else {
            (m, Err(NesError::IllegalOpcode(ins.meta.raw_opcode)))
        },
        Param::Implied => if op == Opcode::BRK {
            brk_spec(m, rom)
        } else if is_implied_op(op) {
            (BusModel { cpu: implied_op_spec(m.cpu, op), ..m }, Ok(()))
        } else {
            (m, Err(NesError::IllegalOpcode(ins.meta.raw_opcode)))
        },
    }
}

fn apply_value_op(cpu_state: &mut CpuState, op: Opcode, v: u8)
    requires
        old(cpu_state).wf(),
        is_value_op(op),
    ensures
        final(cpu_state).wf(),
        final(cpu_state)@ == value_op_spec(old(cpu_state)@, op, v),
{
    match op {
        Opcode::ADC => adc(cpu_state, v),
        Opcode::AND => and(cpu_state, v),
        Opcode::ASL => asl_acc(cpu_state, v),
        Opcode::BIT => bit(cpu_state, v),
        Opcode::BPL => bpl(cpu_state, v),
        Opcode::BMI => bmi(cpu_state, v),
        Opcode::BVC => bvc(cpu_state, v),
        Opcode::BVS => bvs(cpu_state, v),
        Opcode::BCC => bcc(cpu_state, v),
        Opcode::BCS => bcs(cpu_state, v),
        Opcode::BNE => bne(cpu_state, v),
        Opcode::BEQ => beq(cpu_state, v),
        Opcode::CMP => cmp(cpu_state, v),
        Opcode::CPX => cpx(cpu_state, v),
        Opcode::CPY => cpy(cpu_state, v),
        Opcode::EOR => eor(cpu_state, v),
        Opcode::LDA => lda(cpu_state, v),
        Opcode::LDX => ldx(cpu_state, v),
        Opcode::LDY => ldy(cpu_state, v),
        Opcode::LSR => lsr_acc(cpu_state, v),
        Opcode::ORA => ora(cpu_state, v),
        Opcode::ROL => rol_acc(cpu_state, v),
        Opcode::ROR => ror_acc(cpu_state, v),
        Opcode::SBC => sbc(cpu_state, v),
        _ => {},
    }
}

fn apply_implied_op(cpu_state: &mut CpuState, op: Opcode)
    requires
        old(cpu_state).wf(),
        is_implied_op(op),
    ensures
        final(cpu_state).wf(),
        final(cpu_state)@ == implied_op_spec(old(cpu_state)@, op),
{
    match op {
        Opcode::CLC => clc(cpu_state),
        Opcode::SEC => sec(cpu_state),
        Opcode::CLI => cli(cpu_state),
        Opcode::SEI => sei(cpu_state),
        Opcode::CLV => clv(cpu_state),
        Opcode::CLD => cld(cpu_state),
        Opcode::SED => sed(cpu_state),
        Opcode::NOP => {},
        Opcode::TAX => tax(cpu_state),
        Opcode::TXA => txa(cpu_state),
        Opcode::DEX => dex(cpu_state),
        Opcode::INX => inx(cpu_state),
        Opcode::TAY => tay(cpu_state),
        Opcode::TYA => tya(cpu_state),
        Opcode::DEY => dey(cpu_state),
        Opcode::INY => iny(cpu_state),
        Opcode::RTI => rti(cpu_state),
        Opcode::RTS => rts(cpu_state),
        Opcode::TXS => txs(cpu_state),
        Opcode::TSX => tsx(cpu_state),
        Opcode::PHA => pha(cpu_state),
        Opcode::PLA => pla(cpu_state),
        Opcode::PHP => php(cpu_state),
        Opcode::PLP => plp(cpu_state),
        _ => {},
    }
}

/// Executes a decoded instruction: the operation's memory accesses, register and flag
/// changes. Cycle accounting is left to the caller.
pub fn execute_instruction(cpu_bus: &mut CpuBus, instruction: &Instruction) -> (r: Result<(), NesError>)
    requires
        old(cpu_bus).wf(),
    ensures
        final(cpu_bus).wf(),
        final(cpu_bus).rom == old(cpu_bus).rom,
        (final(cpu_bus)@, r) == execute_spec(old(cpu_bus)@, old(cpu_bus).rom, *instruction),
{
    let op = instruction.opcode;
    let illegal = NesError::IllegalOpcode(instruction.meta.raw_opcode);
    match instruction.param {
        Param::Value(v) => {
            if op == Opcode::ADC || op == Opcode::AND || op == Opcode::ASL || op == Opcode::BIT || op == Opcode::BPL || op == Opcode::BMI || op == Opcode::BVC || op == Opcode::BVS || op == Opcode::BCC || op == Opcode::BCS || op == Opcode::BNE || op == Opcode::BEQ || op == Opcode::CMP || op == Opcode::CPX || op == Opcode::CPY || op == Opcode::EOR || op == Opcode::LDA || op == Opcode::LDX || op == Opcode::LDY || op == Opcode::LSR || op == Opcode::ORA || op == Opcode::ROL || op == Opcode::ROR || op == Opcode::SBC {
                apply_value_op(&mut cpu_bus.cpu_state, op, v);
                Ok(())
            } else {
                Err(illegal)
            }
        },
        Param::Address(a) => {
            if op == Opcode::ADC || op == Opcode::AND || op == Opcode::BIT || op == Opcode::CMP || op == Opcode::CPX || op == Opcode::CPY || op == Opcode::EOR || op == Opcode::LDA || op == Opcode::LDX || op == Opcode::LDY || op == Opcode::ORA || op == Opcode::SBC {
                let v = cpu_bus.read_byte(a)?;
                apply_value_op(&mut cpu_bus.cpu_state, op, v);
                Ok(())
            } else if op == Opcode::ASL || op == Opcode::LSR || op == Opcode::ROL || op == Opcode::ROR
                || op == Opcode::INC || op == Opcode::DEC {
                read_modify_write(cpu_bus, a, op)
            } else if op == Opcode::STA {
                sta(cpu_bus, a)
            } else if op == Opcode::STX {
                stx(cpu_bus, a)
            } else if op == Opcode::STY {
                sty(cpu_bus, a)
            } else if op == Opcode::JMP {
                jmp(&mut cpu_bus.cpu_state, a);
                Ok(())
            } else if op == Opcode::JSR {
                jsr(&mut cpu_bus.cpu_state, a);
                Ok(())
            } else {
                Err(illegal)
            }
        },
        Param::Implied => {
            if op == Opcode::BRK {
                brk(cpu_bus)
            } else if op == Opcode::CLC || op == Opcode::SEC || op == Opcode::CLI || op == Opcode::SEI || op == Opcode::CLV || op == Opcode::CLD || op == Opcode::SED || op == Opcode::NOP || op == Opcode::TAX || op == Opcode::TXA || op == Opcode::DEX || op == Opcode::INX || op == Opcode::TAY || op == Opcode::TYA || op == Opcode::DEY || op == Opcode::INY || op == Opcode::RTI || op == Opcode::RTS || op == Opcode::TXS || op == Opcode::TSX || op == Opcode::PHA || op == Opcode::PLA || op == Opcode::PHP || op == Opcode::PLP {
                apply_implied_op(&mut cpu_bus.cpu_state, op);
                Ok(())
            } else {
                Err(illegal)
            }
        },
    }
}


/// SBC of the complement of `v` is ADC of `v`: same accumulator, carry, overflow and
/// every other part of the state, for every accumulator, operand and carry.
pub proof fn lemma_adc_sbc_equivalence(m: CpuModel, v: u8)
    ensures
        sbc_spec(m, v ^ 0xFF) == adc_spec(m, v),
{
    assert((v ^ 0xFFu8) ^ 0xFFu8 == v) by (bit_vector);
}

/// A taken branch moves the program counter by the signed offset (modulo 2^16) and
/// records a page cross exactly when the target lies in another page.
pub proof fn lemma_branch_offset(m: CpuModel, v: u8)
    ensures
        branch_spec(m, v, true).pc as int == (m.pc as int + signed_offset(v) + 0x10000) % 0x10000,
        branch_spec(m, v, true).branch,
        branch_spec(m, v, true).page_cross == (page_of(branch_spec(m, v, true).pc) != page_of(m.pc)),
{
}

} // verus!
