use vstd::prelude::*;

use crate::cpu::instruction::{
    funct_field, imm_field, opcode_field, rs_field, rt_field, sign_extend_32,
};
use crate::cpu::opcode::{Opcode, SpecialOpcode};
use crate::cpu::{
    branch_offset, execute_spec, load_word_spec, reg_value, run_instruction_spec, step_spec,
    virt_to_phys_spec, with_pc, with_reg, wrap_add, CpuView, Step, DELAY_SLOT_CHAIN_LIMIT,
    KSEG1_BASE, RESET_PC,
};
use crate::interconnect::{be_word, read_word_spec};
use crate::mem_map::PIF_ROM_START;

verus! {

/// Whether the word is a branch or a jump: the only instructions that move the
/// program counter and have a delay slot.
pub open spec fn is_control_transfer(w: u32) -> bool {
    match Opcode::spec_from_u32(opcode_field(w)) {
        Some(Opcode::Beq) | Some(Opcode::Bne) | Some(Opcode::Beql) | Some(Opcode::Bnel) => true,
        Some(Opcode::Special) => SpecialOpcode::spec_from_u32(funct_field(w)) == Some(
            SpecialOpcode::Jr,
        ),
        _ => false,
    }
}

/// Register r0 always reads as zero and a write to it is discarded; a write
/// to another register is read back, and every other register keeps its value.
pub proof fn lemma_register_read_after_write(s: CpuView, i: int, j: int, v: u64)
    requires
        0 <= i < 32,
        0 <= j < 32,
        s.gpr.len() == 32,
    ensures
        reg_value(s, 0) == 0,
        with_reg(s, 0, v) == s,
        reg_value(with_reg(s, i, v), j) == if j == 0 {
            0
        } else if j == i {
            v
        } else {
            reg_value(s, j)
        },
        with_reg(s, i, v).gpr.len() == 32,
{
}

/// The register file keeps its size and r0 keeps holding zero through every
/// instruction, together with the delay slots it runs.
pub proof fn lemma_zero_register_stays_zero(s: CpuView, w: u32, fuel: nat)
    requires
        s.gpr.len() == 32,
        s.gpr[0] == 0,
    ensures
        step_spec(s, w).0.gpr.len() == 32,
        step_spec(s, w).0.gpr[0] == 0,
        execute_spec(s, w, fuel).0.gpr.len() == 32,
        execute_spec(s, w, fuel).0.gpr[0] == 0,
    decreases fuel,
{
    crate::cpu::instruction::lemma_fields_recompose(w);
    let (s1, r) = step_spec(s, w);
    if let Ok(Step::DelaySlot(pc)) = r {
        if fuel > 0 {
            if let Ok(w2) = load_word_spec(s1, pc) {
                lemma_zero_register_stays_zero(s1, w2, (fuel - 1) as nat);
            }
        }
    }
}

/// The register file keeps its size and r0 keeps holding zero through every
/// fetch-execute cycle.
pub proof fn lemma_cycle_keeps_zero_register(s: CpuView)
    requires
        s.gpr.len() == 32,
        s.gpr[0] == 0,
    ensures
        run_instruction_spec(s).0.gpr.len() == 32,
        run_instruction_spec(s).0.gpr[0] == 0,
{
    if let Ok(w0) = load_word_spec(s, s.pc) {
        lemma_zero_register_stays_zero(
            with_pc(s, (s.pc + 4) as u64),
            w0,
            DELAY_SLOT_CHAIN_LIMIT as nat,
        );
    }
}

/// An instruction that faults leaves the machine exactly as it was.
pub proof fn lemma_fault_changes_nothing(s: CpuView, w: u32)
    ensures
        step_spec(s, w).1 is Err ==> step_spec(s, w).0 == s,
{
}

/// Only branches and jumps move the program counter or call for a delay slot;
/// every other instruction leaves the program counter where it was.
pub proof fn lemma_only_control_transfers_move_pc(s: CpuView, w: u32)
    requires
        !is_control_transfer(w),
    ensures
        step_spec(s, w).0.pc == s.pc,
        !(step_spec(s, w).1 matches Ok(Step::DelaySlot(_))),
{
}

/// No instruction changes memory: the PIF ROM is read-only and no other
/// device accepts writes.
pub proof fn lemma_execution_preserves_memory(s: CpuView, w: u32, fuel: nat)
    ensures
        step_spec(s, w).0.mem == s.mem,
        execute_spec(s, w, fuel).0.mem == s.mem,
    decreases fuel,
{
    let (s1, r) = step_spec(s, w);
    match r {
        Ok(Step::DelaySlot(pc)) => {
            if fuel > 0 {
                if let Ok(w2) = load_word_spec(s1, pc) {
                    lemma_execution_preserves_memory(s1, w2, (fuel - 1) as nat);
                }
            }
        },
        _ => {},
    }
}

/// A fetch-execute cycle never changes memory.
pub proof fn lemma_cycle_preserves_memory(s: CpuView)
    ensures
        run_instruction_spec(s).0.mem == s.mem,
{
    if let Ok(w0) = load_word_spec(s, s.pc) {
        if s.pc <= u64::MAX - 4 {
            lemma_execution_preserves_memory(
                with_pc(s, (s.pc + 4) as u64),
                w0,
                DELAY_SLOT_CHAIN_LIMIT as nat,
            );
        }
    }
}

/// kseg1 is the window `[KSEG1_BASE, KSEG1_BASE + 512 MiB)`: exactly its
/// addresses map to physical ones, each to its offset in the window.
pub proof fn lemma_kseg1_window(vaddr: u64)
    ensures
        virt_to_phys_spec(vaddr) is Ok <==> KSEG1_BASE <= vaddr < KSEG1_BASE + 0x2000_0000,
        virt_to_phys_spec(vaddr) is Ok ==> virt_to_phys_spec(vaddr) == Ok::<u64, crate::error::N64Error>(
            (vaddr - KSEG1_BASE) as u64,
        ) && vaddr - KSEG1_BASE < 0x2000_0000,
{
    assert(((vaddr >> 29) & 0b111 == 0b101 && vaddr >= 0xffff_ffff_a000_0000u64) <==> (
    0xffff_ffff_a000_0000u64 <= vaddr && vaddr < 0xffff_ffff_c000_0000u64)) by (bit_vector);
}

/// The reset vector lies at the start of the PIF ROM, so the first word
/// fetched after reset is the first big-endian word of the ROM image.
pub proof fn lemma_reset_fetches_first_rom_word(s: CpuView)
    requires
        s.pc == RESET_PC,
        s.mem.pif_rom.len() >= 4,
    ensures
        virt_to_phys_spec(RESET_PC) == Ok::<u64, crate::error::N64Error>(PIF_ROM_START as u64),
        load_word_spec(s, s.pc) == Ok::<u32, crate::error::N64Error>(
            be_word(s.mem.pif_rom[0], s.mem.pif_rom[1], s.mem.pif_rom[2], s.mem.pif_rom[3]),
        ),
{
    lemma_kseg1_window(RESET_PC);
    assert(read_word_spec(s.mem, PIF_ROM_START) == Ok::<u32, crate::error::N64Error>(
        be_word(s.mem.pif_rom[0], s.mem.pif_rom[1], s.mem.pif_rom[2], s.mem.pif_rom[3]),
    ));
}

/// A word can only be fetched from kseg1, so the program counter then lies
/// well below the top of the address space.
pub proof fn lemma_fetch_leaves_room(s: CpuView)
    requires
        load_word_spec(s, s.pc) is Ok,
    ensures
        s.pc < KSEG1_BASE + 0x2000_0000,
{
    lemma_kseg1_window(s.pc);
}

/// Whether the conditional branch `w` is taken in state `s`.
pub open spec fn branch_taken(s: CpuView, w: u32) -> bool {
    let rs = rs_field(w) as int;
    let rt = rt_field(w) as int;
    match Opcode::spec_from_u32(opcode_field(w)) {
        Some(Opcode::Beq) | Some(Opcode::Beql) => reg_value(s, rs) == reg_value(s, rt),
        Some(Opcode::Bne) | Some(Opcode::Bnel) => reg_value(s, rs) != reg_value(s, rt),
        _ => false,
    }
}

/// A branch-likely that is not taken skips its delay slot: the cycle ends with
/// the program counter eight bytes on and nothing else changed.
pub proof fn lemma_branch_likely_not_taken_skips_delay_slot(s: CpuView, w: u32)
    requires
        load_word_spec(s, s.pc) == Ok::<u32, crate::error::N64Error>(w),
        Opcode::spec_from_u32(opcode_field(w)) == Some(Opcode::Beql) || Opcode::spec_from_u32(
            opcode_field(w),
        ) == Some(Opcode::Bnel),
        !branch_taken(s, w),
    ensures
        run_instruction_spec(s).0 == with_pc(s, (s.pc + 8) as u64),
        run_instruction_spec(s).1 is Ok,
{
    lemma_fetch_leaves_room(s);
    let s4 = with_pc(s, (s.pc + 4) as u64);
    assert(reg_value(s4, rs_field(w) as int) == reg_value(s, rs_field(w) as int));
    assert(reg_value(s4, rt_field(w) as int) == reg_value(s, rt_field(w) as int));
}

/// A conditional branch that is not taken (and is not a branch-likely) goes on
/// to its delay slot as the next instruction, changing nothing else.
pub proof fn lemma_branch_not_taken_falls_through(s: CpuView, w: u32)
    requires
        load_word_spec(s, s.pc) == Ok::<u32, crate::error::N64Error>(w),
        Opcode::spec_from_u32(opcode_field(w)) == Some(Opcode::Beq) || Opcode::spec_from_u32(
            opcode_field(w),
        ) == Some(Opcode::Bne),
        !branch_taken(s, w),
    ensures
        run_instruction_spec(s).0 == with_pc(s, (s.pc + 4) as u64),
        run_instruction_spec(s).1 is Ok,
{
    lemma_fetch_leaves_room(s);
    let s4 = with_pc(s, (s.pc + 4) as u64);
    assert(reg_value(s4, rs_field(w) as int) == reg_value(s, rs_field(w) as int));
    assert(reg_value(s4, rt_field(w) as int) == reg_value(s, rt_field(w) as int));
}

/// A taken branch runs the instruction in its delay slot with the program
/// counter already at the target; when that instruction is an ordinary one,
/// the cycle ends at the target with the delay slot's effect done.
pub proof fn lemma_taken_branch_runs_delay_slot(s: CpuView, w: u32, delay: u32)
    requires
        load_word_spec(s, s.pc) == Ok::<u32, crate::error::N64Error>(w),
        branch_taken(s, w),
        load_word_spec(
            with_pc(s, wrap_add((s.pc + 4) as u64, branch_offset(imm_field(w)))),
            (s.pc + 4) as u64,
        ) == Ok::<u32, crate::error::N64Error>(delay),
        !is_control_transfer(delay),
    ensures
        ({
            let target = wrap_add((s.pc + 4) as u64, branch_offset(imm_field(w)));
            &&& run_instruction_spec(s).0 == step_spec(with_pc(s, target), delay).0
            &&& run_instruction_spec(s).1 == (match step_spec(with_pc(s, target), delay).1 {
                Ok(_) => Ok::<(), crate::error::N64Error>(()),
                Err(e) => Err(e),
            })
            &&& step_spec(with_pc(s, target), delay).1 is Ok ==> run_instruction_spec(s).0.pc
                == target
        }),
{
    lemma_fetch_leaves_room(s);
    let s4 = with_pc(s, (s.pc + 4) as u64);
    let target = wrap_add((s.pc + 4) as u64, branch_offset(imm_field(w)));
    assert(reg_value(s4, rs_field(w) as int) == reg_value(s, rs_field(w) as int));
    assert(reg_value(s4, rt_field(w) as int) == reg_value(s, rt_field(w) as int));
    assert(step_spec(s4, w).0 == with_pc(s, target));
    assert(step_spec(s4, w).1 == Ok::<Step, crate::error::N64Error>(
        Step::DelaySlot((s.pc + 4) as u64),
    ));
    lemma_only_control_transfers_move_pc(with_pc(s, target), delay);
    reveal_with_fuel(execute_spec, 2);
}

/// JR runs its delay slot with the program counter already at the address in
/// `rs`; when the delay slot is an ordinary instruction that completes, the
/// cycle ends there.
pub proof fn lemma_jump_register_lands_on_rs(s: CpuView, w: u32, delay: u32)
    requires
        load_word_spec(s, s.pc) == Ok::<u32, crate::error::N64Error>(w),
        Opcode::spec_from_u32(opcode_field(w)) == Some(Opcode::Special),
        SpecialOpcode::spec_from_u32(funct_field(w)) == Some(SpecialOpcode::Jr),
        load_word_spec(with_pc(s, reg_value(s, rs_field(w) as int)), (s.pc + 4) as u64) == Ok::<
            u32,
            crate::error::N64Error,
        >(delay),
        !is_control_transfer(delay),
        step_spec(with_pc(s, reg_value(s, rs_field(w) as int)), delay).1 is Ok,
    ensures
        run_instruction_spec(s).1 is Ok,
        run_instruction_spec(s).0.pc == reg_value(s, rs_field(w) as int),
{
    lemma_fetch_leaves_room(s);
    let s4 = with_pc(s, (s.pc + 4) as u64);
    assert(reg_value(s4, rs_field(w) as int) == reg_value(s, rs_field(w) as int));
    lemma_only_control_transfers_move_pc(with_pc(s, reg_value(s, rs_field(w) as int)), delay);
    reveal_with_fuel(execute_spec, 2);
}

/// LUI followed by ORI on the same register loads the 32-bit constant whose
/// halves are their immediates, sign-extended to 64 bits.
pub proof fn lemma_lui_ori_loads_constant(s: CpuView, lui: u32, ori: u32)
    requires
        s.gpr.len() == 32,
        Opcode::spec_from_u32(opcode_field(lui)) == Some(Opcode::Lui),
        Opcode::spec_from_u32(opcode_field(ori)) == Some(Opcode::Ori),
        rt_field(ori) == rt_field(lui),
        rs_field(ori) == rt_field(lui),
        rt_field(lui) != 0,
    ensures
        step_spec(s, lui).1 is Ok,
        step_spec(step_spec(s, lui).0, ori).1 is Ok,
        reg_value(step_spec(step_spec(s, lui).0, ori).0, rt_field(lui) as int) == sign_extend_32(
            (imm_field(lui) * 0x1_0000 + imm_field(ori)) as u32,
        ),
{
    let hi = imm_field(lui);
    let lo = imm_field(ori);
    assert(hi < 0x10000 && lo < 0x10000) by (bit_vector)
        requires
            hi == lui & 0xffff,
            lo == ori & 0xffff,
    ;
    let r = rt_field(lui) as int;
    assert(rt_field(lui) < 32) by (bit_vector);
    let upper = (hi * 0x1_0000) as u32;
    assert(upper == hi * 0x1_0000);
    let word = (hi * 0x1_0000 + lo) as u32;
    assert(word == hi * 0x1_0000 + lo);
    let s1 = step_spec(s, lui).0;
    assert(s1 == with_reg(s, r, sign_extend_32(upper)));
    assert(reg_value(s1, r) == sign_extend_32(upper));
    let hi64: u64 = hi as u64;
    let lo64: u64 = lo as u64;
    if hi < 0x8000 {
        assert(((hi64 * 0x1_0000) as u64) | lo64 == hi64 * 0x1_0000 + lo64) by (bit_vector)
            requires
                hi64 < 0x8000,
                lo64 < 0x10000,
        ;
    } else {
        assert(((hi64 * 0x1_0000 + 0xffff_ffff_0000_0000u64) as u64) | lo64 == hi64 * 0x1_0000 + lo64
            + 0xffff_ffff_0000_0000u64) by (bit_vector)
            requires
                0x8000 <= hi64 < 0x10000,
                lo64 < 0x10000,
        ;
    }
}

/// The delay-slot limit only cuts chains off: a run that ends without hitting
/// it ends the same way under any larger limit.
pub proof fn lemma_delay_slot_limit_only_cuts_off(s: CpuView, w: u32, f: nat, g: nat)
    requires
        f <= g,
        execute_spec(s, w, f).1 != Err::<(), crate::error::N64Error>(
            crate::error::N64Error::DelaySlotChainTooLong,
        ),
    ensures
        execute_spec(s, w, g) == execute_spec(s, w, f),
    decreases f,
{
    let (s1, r) = step_spec(s, w);
    if let Ok(Step::DelaySlot(pc)) = r {
        if f > 0 {
            if let Ok(w2) = load_word_spec(s1, pc) {
                lemma_delay_slot_limit_only_cuts_off(s1, w2, (f - 1) as nat, (g - 1) as nat);
            }
        }
    }
}

} // verus!
