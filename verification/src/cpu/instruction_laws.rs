use vstd::prelude::*;

use crate::cpu::cp0::reg_config::word_bit;
use crate::cpu::instruction::{
    funct_field, imm_field, lemma_fields_recompose, opcode_field, rd_field, rs_field, rt_field,
    sa_field,
};
use crate::cpu::opcode::{Opcode, SpecialOpcode};
use crate::cpu::instruction::{sign_extend_16, sign_extend_32};
use crate::cpu::laws::branch_taken;
use crate::cpu::{
    load_word_spec, with_pc, reg_value, signed_value, step_spec, store_word_spec, wrap_add, CpuView, Step,
};
use crate::error::N64Error;

verus! {

/// Bit `i` of a 64-bit value (bit 0 is the least significant).
pub open spec fn bit64(x: u64, i: u64) -> bool {
    (x >> i) & 1 == 1
}

/// A 16-bit field read as a two's complement signed number.
pub open spec fn signed16(v: u32) -> int {
    if v < 0x8000 {
        v as int
    } else {
        v - 0x1_0000
    }
}

/// A 32-bit word read as a two's complement signed number.
pub open spec fn signed32(v: u32) -> int {
    if v < 0x8000_0000 {
        v as int
    } else {
        v - 0x1_0000_0000
    }
}

/// The instruction completes, the program counter stays, and every register
/// but `d` keeps its value.
pub open spec fn only_register_changes(s: CpuView, w: u32, d: int) -> bool {
    &&& step_spec(s, w).1 == Ok::<Step, N64Error>(Step::Completed)
    &&& step_spec(s, w).0.pc == s.pc
    &&& step_spec(s, w).0.cp0 == s.cp0
    &&& step_spec(s, w).0.mem == s.mem
    &&& step_spec(s, w).0.gpr.len() == s.gpr.len()
    &&& forall|j: int|
        0 <= j < 32 && j != d ==> #[trigger] reg_value(step_spec(s, w).0, j) == reg_value(s, j)
}

/// The value register `rt` (or `rd`) holds after the instruction.
pub open spec fn result_reg(s: CpuView, w: u32, d: int) -> u64 {
    reg_value(step_spec(s, w).0, d)
}

/// ORI sets in `rt` exactly the bits that are set in `rs` or in the
/// zero-extended immediate; nothing else changes.
pub proof fn lemma_ori_is_bitwise_or(s: CpuView, w: u32, i: u64)
    requires
        s.gpr.len() == 32,
        Opcode::spec_from_u32(opcode_field(w)) == Some(Opcode::Ori),
        rt_field(w) != 0,
        i < 64,
    ensures
        only_register_changes(s, w, rt_field(w) as int),
        bit64(result_reg(s, w, rt_field(w) as int), i) == (bit64(
            reg_value(s, rs_field(w) as int),
            i,
        ) || (i < 16 && word_bit(imm_field(w), i as u32))),
{
    lemma_fields_recompose(w);
    let a = reg_value(s, rs_field(w) as int);
    let imm = imm_field(w);
    let v = imm as u64;
    assert(result_reg(s, w, rt_field(w) as int) == a | v);
    assert((((a | v) >> i) & 1 == 1) == (((a >> i) & 1 == 1) || (i < 16 && ((imm >> (i as u32))
        & 1 == 1)))) by (bit_vector)
        requires
            v == imm as u64,
            imm < 0x10000,
            i < 64,
    ;
}

/// ANDI keeps in `rt` exactly the bits that are set both in `rs` and in the
/// zero-extended immediate: the upper 48 bits always come out clear.
pub proof fn lemma_andi_is_bitwise_and(s: CpuView, w: u32, i: u64)
    requires
        s.gpr.len() == 32,
        Opcode::spec_from_u32(opcode_field(w)) == Some(Opcode::Andi),
        rt_field(w) != 0,
        i < 64,
    ensures
        only_register_changes(s, w, rt_field(w) as int),
        bit64(result_reg(s, w, rt_field(w) as int), i) == (bit64(
            reg_value(s, rs_field(w) as int),
            i,
        ) && i < 16 && word_bit(imm_field(w), i as u32)),
        result_reg(s, w, rt_field(w) as int) <= 0xffff,
{
    lemma_fields_recompose(w);
    let a = reg_value(s, rs_field(w) as int);
    let imm = imm_field(w);
    let v = imm as u64;
    assert(result_reg(s, w, rt_field(w) as int) == a & v);
    assert((((a & v) >> i) & 1 == 1) == (((a >> i) & 1 == 1) && i < 16 && ((imm >> (i as u32))
        & 1 == 1))) by (bit_vector)
        requires
            v == imm as u64,
            imm < 0x10000,
            i < 64,
    ;
    assert(a & v <= 0xffff) by (bit_vector)
        requires
            v <= 0xffff,
    ;
}

/// OR sets in `rd` exactly the bits that are set in `rs` or in `rt`.
pub proof fn lemma_or_is_bitwise_or(s: CpuView, w: u32, i: u64)
    requires
        s.gpr.len() == 32,
        Opcode::spec_from_u32(opcode_field(w)) == Some(Opcode::Special),
        SpecialOpcode::spec_from_u32(funct_field(w)) == Some(SpecialOpcode::Or),
        rd_field(w) != 0,
        i < 64,
    ensures
        only_register_changes(s, w, rd_field(w) as int),
        bit64(result_reg(s, w, rd_field(w) as int), i) == (bit64(
            reg_value(s, rs_field(w) as int),
            i,
        ) || bit64(reg_value(s, rt_field(w) as int), i)),
{
    lemma_fields_recompose(w);
    let a = reg_value(s, rs_field(w) as int);
    let b = reg_value(s, rt_field(w) as int);
    assert(result_reg(s, w, rd_field(w) as int) == a | b);
    assert((((a | b) >> i) & 1 == 1) == (((a >> i) & 1 == 1) || ((b >> i) & 1 == 1)))
        by (bit_vector);
}

/// `base` plus the signed 16-bit offset `imm`, modulo 2^64: the address a
/// load or store with that base and offset reaches.
pub open spec fn offset_address(base: u64, imm: u32) -> u64 {
    ((base + signed16(imm)) % 0x1_0000_0000_0000_0000) as u64
}

/// Adding the sign-extended immediate modulo 2^64 is adding it as a signed
/// number.
proof fn lemma_add_sign_extended(a: u64, imm: u32)
    requires
        imm < 0x10000,
    ensures
        wrap_add(a, sign_extend_16(imm)) == offset_address(a, imm),
{
}

/// LW loads into `rt` the word at `rs` plus the signed offset, sign-extended:
/// as a signed number the register equals the word read as a signed 32-bit
/// number. When that word cannot be read the instruction faults with the
/// reading's fault and changes nothing.
pub proof fn lemma_lw_loads_at_base_plus_offset(s: CpuView, w: u32)
    requires
        s.gpr.len() == 32,
        Opcode::spec_from_u32(opcode_field(w)) == Some(Opcode::Lw),
        rt_field(w) != 0,
    ensures
        ({
            let addr = offset_address(reg_value(s, rs_field(w) as int), imm_field(w));
            match load_word_spec(s, addr) {
                Ok(m) => only_register_changes(s, w, rt_field(w) as int) && signed_value(
                    result_reg(s, w, rt_field(w) as int),
                ) == signed32(m),
                Err(e) => step_spec(s, w).0 == s && step_spec(s, w).1 == Err::<Step, N64Error>(
                    e,
                ),
            }
        }),
{
    lemma_fields_recompose(w);
    lemma_add_sign_extended(reg_value(s, rs_field(w) as int), imm_field(w));
}

/// SW stores at `rs` plus the signed offset: the store faults with what
/// storing at that address raises, and changes nothing.
pub proof fn lemma_sw_stores_at_base_plus_offset(s: CpuView, w: u32)
    requires
        Opcode::spec_from_u32(opcode_field(w)) == Some(Opcode::Sw),
    ensures
        step_spec(s, w).0 == s,
        step_spec(s, w).1 == (match store_word_spec(
            s,
            offset_address(reg_value(s, rs_field(w) as int), imm_field(w)),
        ) {
            Ok(_) => Ok::<Step, N64Error>(Step::Completed),
            Err(e) => Err(e),
        }),
{
    lemma_fields_recompose(w);
    lemma_add_sign_extended(reg_value(s, rs_field(w) as int), imm_field(w));
}

/// LUI puts the immediate into bits 31:16 of `rt` and sign-extends: as a
/// signed number the register equals the signed immediate times 2^16.
pub proof fn lemma_lui_loads_upper_half(s: CpuView, w: u32)
    requires
        s.gpr.len() == 32,
        Opcode::spec_from_u32(opcode_field(w)) == Some(Opcode::Lui),
        rt_field(w) != 0,
    ensures
        only_register_changes(s, w, rt_field(w) as int),
        signed_value(result_reg(s, w, rt_field(w) as int)) == signed16(imm_field(w)) * 0x1_0000,
{
    lemma_fields_recompose(w);
}

/// ADDIU adds the signed immediate to `rs` modulo 2^64.
pub proof fn lemma_addiu_adds_signed_immediate(s: CpuView, w: u32)
    requires
        s.gpr.len() == 32,
        Opcode::spec_from_u32(opcode_field(w)) == Some(Opcode::Addiu),
        rt_field(w) != 0,
    ensures
        only_register_changes(s, w, rt_field(w) as int),
        result_reg(s, w, rt_field(w) as int) == offset_address(
            reg_value(s, rs_field(w) as int),
            imm_field(w),
        ),
{
    lemma_fields_recompose(w);
    lemma_add_sign_extended(reg_value(s, rs_field(w) as int), imm_field(w));
}

/// ADDI adds the signed immediate to `rs` as signed 64-bit numbers: when the
/// sum fits, `rt` holds it; otherwise the instruction faults with
/// `AdditionOverflow` and changes nothing.
pub proof fn lemma_addi_signed_sum(s: CpuView, w: u32)
    requires
        s.gpr.len() == 32,
        Opcode::spec_from_u32(opcode_field(w)) == Some(Opcode::Addi),
        rt_field(w) != 0,
    ensures
        ({
            let sum = signed_value(reg_value(s, rs_field(w) as int)) + signed16(imm_field(w));
            if -0x8000_0000_0000_0000 <= sum <= 0x7fff_ffff_ffff_ffff {
                only_register_changes(s, w, rt_field(w) as int) && signed_value(
                    result_reg(s, w, rt_field(w) as int),
                ) == sum
            } else {
                step_spec(s, w).0 == s && step_spec(s, w).1 == Err::<Step, N64Error>(
                    N64Error::AdditionOverflow,
                )
            }
        }),
{
    lemma_fields_recompose(w);
}

/// SRL shifts `rt` right by the shift amount and sign-extends the low 32 bits
/// of that: bit `i` of `rd` for `i < 32` is bit `i + sa` of `rt` (zero past
/// bit 63), and bits 63:32 all copy bit 31.
pub proof fn lemma_srl_shifts_then_sign_extends(s: CpuView, w: u32, i: u64)
    requires
        s.gpr.len() == 32,
        Opcode::spec_from_u32(opcode_field(w)) == Some(Opcode::Special),
        SpecialOpcode::spec_from_u32(funct_field(w)) == Some(SpecialOpcode::Srl),
        rd_field(w) != 0,
        i < 64,
    ensures
        only_register_changes(s, w, rd_field(w) as int),
        i < 32 ==> bit64(result_reg(s, w, rd_field(w) as int), i) == (i + sa_field(w) < 64
            && bit64(reg_value(s, rt_field(w) as int), (i + sa_field(w)) as u64)),
        i >= 32 ==> bit64(result_reg(s, w, rd_field(w) as int), i) == bit64(
            result_reg(s, w, rd_field(w) as int),
            31,
        ),
{
    lemma_fields_recompose(w);
    let a = reg_value(s, rt_field(w) as int);
    let sa = sa_field(w) as u64;
    let low = ((a >> sa) as u32);
    let r = sign_extend_32(low);
    assert(result_reg(s, w, rd_field(w) as int) == r);
    if low < 0x8000_0000 {
        assert(r == low as u64);
        assert(i < 32 ==> ((((low as u64) >> i) & 1 == 1) == (i + sa < 64 && ((a >> (i + sa))
            & 1 == 1)))) by (bit_vector)
            requires
                low == (a >> sa) as u32,
                sa < 32,
                i < 64,
        ;
        assert(i >= 32 ==> ((((low as u64) >> i) & 1 == 1) == ((((low as u64) >> 31) & 1) == 1)))
            by (bit_vector)
            requires
                low < 0x8000_0000,
                i < 64,
        ;
    } else {
        let r2: u64 = ((low as u64) + 0xffff_ffff_0000_0000u64) as u64;
        assert(r == r2);
        assert(i < 32 ==> (((r2 >> i) & 1 == 1) == (i + sa < 64 && ((a >> (i + sa)) & 1 == 1))))
            by (bit_vector)
            requires
                low == (a >> sa) as u32,
                r2 == (low as u64) + 0xffff_ffff_0000_0000u64,
                sa < 32,
                i < 64,
        ;
        assert(i >= 32 ==> (((r2 >> i) & 1 == 1) == (((r2 >> 31) & 1) == 1))) by (bit_vector)
            requires
                low >= 0x8000_0000,
                r2 == (low as u64) + 0xffff_ffff_0000_0000u64,
                i < 64,
        ;
    }
}

/// MTC0 hands `rt` to coprocessor 0 register `rd`: the coprocessor becomes
/// what that write gives and nothing else changes, or the write's fault is the
/// instruction's fault and nothing changes at all.
pub proof fn lemma_mtc0_writes_rt_to_cp0(s: CpuView, w: u32)
    requires
        Opcode::spec_from_u32(opcode_field(w)) == Some(Opcode::Mtc0),
    ensures
        match s.cp0.spec_write_reg(rd_field(w), reg_value(s, rt_field(w) as int)) {
            Ok(c) => step_spec(s, w).0 == (CpuView { cp0: c, ..s }) && step_spec(s, w).1 == Ok::<
                Step,
                N64Error,
            >(Step::Completed),
            Err(e) => step_spec(s, w).0 == s && step_spec(s, w).1 == Err::<Step, N64Error>(e),
        },
{
}

/// A conditional branch whose condition holds moves the program counter (which
/// already points at the delay slot) by four times the signed offset, modulo
/// 2^64, and leaves the delay slot to run; one whose condition fails changes
/// nothing, except that a branch-likely then skips its delay slot.
pub proof fn lemma_branch_moves_pc_by_offset(s: CpuView, w: u32)
    requires
        Opcode::spec_from_u32(opcode_field(w)) == Some(Opcode::Beq) || Opcode::spec_from_u32(
            opcode_field(w),
        ) == Some(Opcode::Bne) || Opcode::spec_from_u32(opcode_field(w)) == Some(Opcode::Beql)
            || Opcode::spec_from_u32(opcode_field(w)) == Some(Opcode::Bnel),
    ensures
        ({
            let likely = Opcode::spec_from_u32(opcode_field(w)) == Some(Opcode::Beql)
                || Opcode::spec_from_u32(opcode_field(w)) == Some(Opcode::Bnel);
            let target = ((s.pc + 4 * signed16(imm_field(w))) % 0x1_0000_0000_0000_0000) as u64;
            &&& branch_taken(s, w) ==> step_spec(s, w).0 == with_pc(s, target) && step_spec(
                s,
                w,
            ).1 == Ok::<Step, N64Error>(Step::DelaySlot(s.pc))
            &&& (!branch_taken(s, w) && likely) ==> step_spec(s, w).0 == with_pc(
                s,
                ((s.pc + 4) % 0x1_0000_0000_0000_0000) as u64,
            ) && step_spec(s, w).1 == Ok::<Step, N64Error>(Step::Completed)
            &&& (!branch_taken(s, w) && !likely) ==> step_spec(s, w).0 == s && step_spec(s, w).1
                == Ok::<Step, N64Error>(Step::Completed)
        }),
{
    lemma_fields_recompose(w);
}

/// JR moves the program counter to the address held in `rs` and leaves the
/// delay slot, at the old program counter, to run.
pub proof fn lemma_jr_jumps_to_rs(s: CpuView, w: u32)
    requires
        Opcode::spec_from_u32(opcode_field(w)) == Some(Opcode::Special),
        SpecialOpcode::spec_from_u32(funct_field(w)) == Some(SpecialOpcode::Jr),
    ensures
        step_spec(s, w).0 == with_pc(s, reg_value(s, rs_field(w) as int)),
        step_spec(s, w).1 == Ok::<Step, N64Error>(Step::DelaySlot(s.pc)),
{
}

} // verus!
