pub mod cp0;
pub mod instruction;
pub mod instruction_laws;
pub mod laws;
pub mod opcode;

use vstd::prelude::*;

use crate::cpu::cp0::Cp0;
use crate::cpu::instruction::{
    funct_field, imm_field, opcode_field, rd_field, rs_field, rt_field, sa_field, sign_extend_16,
    sign_extend_32, sign_extend_word, Instruction,
};
use crate::cpu::opcode::{Opcode, SpecialOpcode};
use crate::error::N64Error;
use crate::interconnect::{read_word_spec, write_word_spec, Interconnect, InterconnectView};

verus! {

/// Number of general purpose (and of floating point) registers.
pub const NUM_GPR: usize = 32;

/// The program counter after reset: the first word of the PIF ROM, seen through kseg1.
pub const RESET_PC: u64 = 0xffff_ffff_bfc0_0000;

/// First virtual address of kseg1 (unmapped, uncached): it maps to physical address 0.
pub const KSEG1_BASE: u64 = 0xffff_ffff_a000_0000;

/// How many delay slots one instruction may run in a row before the chain is
/// cut off as a fault. A delay slot that itself transfers control runs its own
/// delay slot in turn; real programs never chain more than a few.
pub const DELAY_SLOT_CHAIN_LIMIT: u64 = 1_000_000;

/// The architectural state of the CPU, together with the memory it sees.
#[verifier::ext_equal]
pub struct CpuView {
    /// General purpose registers r0..r31.
    pub gpr: Seq<u64>,
    /// Floating point registers, as raw 64-bit patterns.
    pub fpr: Seq<u64>,
    pub pc: u64,
    pub hi: u64,
    pub lo: u64,
    pub llbit: bool,
    pub fcr0: u32,
    pub fcr31: u32,
    pub cp0: Cp0,
    pub mem: InterconnectView,
}

/// What an instruction leaves to do once its own effect is done.
#[derive(Debug, Clone, Copy, PartialEq, Eq, Structural)]
pub enum Step {
    /// Nothing: execution goes on at the program counter.
    Completed,
    /// The instruction at this address (the delay slot) runs next, before the
    /// transfer of control takes effect.
    DelaySlot(u64),
}

/// The state of a CPU that has just been attached to memory `mem`: every
/// register zero, the program counter at the reset vector, coprocessor 0 in its
/// reset state.
pub open spec fn initial_state(mem: InterconnectView) -> CpuView {
    CpuView {
        gpr: Seq::new(NUM_GPR as nat, |i: int| 0u64),
        fpr: Seq::new(NUM_GPR as nat, |i: int| 0u64),
        pc: RESET_PC,
        hi: 0,
        lo: 0,
        llbit: false,
        fcr0: 0,
        fcr31: 0,
        cp0: Cp0::spec_default(),
        mem,
    }
}

/// Register `i` as instructions read it: r0 always reads as zero.
pub open spec fn reg_value(s: CpuView, i: int) -> u64 {
    if i == 0 {
        0
    } else {
        s.gpr[i]
    }
}

/// The state after writing `v` to register `i`: writes to r0 are discarded.
pub open spec fn with_reg(s: CpuView, i: int, v: u64) -> CpuView {
    if i == 0 {
        s
    } else {
        CpuView { gpr: s.gpr.update(i, v), ..s }
    }
}

/// The state with the program counter set to `pc`.
pub open spec fn with_pc(s: CpuView, pc: u64) -> CpuView {
    CpuView { pc, ..s }
}

/// `x + y` modulo 2^64.
pub open spec fn wrap_add(x: u64, y: u64) -> u64 {
    vstd::wrapping::u64_specs::wrapping_add(x, y)
}

/// A 64-bit register value read as a two's complement signed number.
pub open spec fn signed_value(x: u64) -> int {
    if x < 0x8000_0000_0000_0000 {
        x as int
    } else {
        x - 0x1_0000_0000_0000_0000
    }
}

/// Whether the signed sum of `x` and `y` lies outside the range of a signed
/// 64-bit number (two's complement overflow).
pub open spec fn signed_add_overflows(x: u64, y: u64) -> bool {
    let sum = signed_value(x) + signed_value(y);
    sum < -0x8000_0000_0000_0000 || sum > 0x7fff_ffff_ffff_ffff
}

/// Adds two register values, reporting whether the signed sum overflows.
pub fn add_with_overflow(x: u64, y: u64) -> (r: (u64, bool))
    ensures
        r.0 == wrap_add(x, y),
        r.1 == signed_add_overflows(x, y),
{
    let sum = x.wrapping_add(y);
    let x_negative = x >= 0x8000_0000_0000_0000;
    let y_negative = y >= 0x8000_0000_0000_0000;
    let sum_negative = sum >= 0x8000_0000_0000_0000;
    (sum, x_negative == y_negative && sum_negative != x_negative)
}

/// The physical address of a virtual address. Only kseg1 (virtual
/// `0xffff_ffff_a000_0000` to `0xffff_ffff_bfff_ffff`, selected by bits 31:29
/// being `101`) is mapped; it maps directly onto physical addresses from 0.
pub open spec fn virt_to_phys_spec(vaddr: u64) -> Result<u64, N64Error> {
    if (vaddr >> 29) & 0b111 == 0b101 && vaddr >= KSEG1_BASE {
        Ok((vaddr - KSEG1_BASE) as u64)
    } else {
        Err(N64Error::UnrecognizedVirtualAddress(vaddr))
    }
}

/// The word at virtual address `vaddr`.
pub open spec fn load_word_spec(s: CpuView, vaddr: u64) -> Result<u32, N64Error> {
    match virt_to_phys_spec(vaddr) {
        Ok(p) => read_word_spec(s.mem, p as u32),
        Err(e) => Err(e),
    }
}

/// The outcome of storing a word at virtual address `vaddr`.
pub open spec fn store_word_spec(s: CpuView, vaddr: u64) -> Result<(), N64Error> {
    match virt_to_phys_spec(vaddr) {
        Ok(p) => write_word_spec(s.mem, p as u32),
        Err(e) => Err(e),
    }
}

/// A branch offset: the 16-bit offset sign-extended and shifted left by two,
/// modulo 2^64.
pub open spec fn branch_offset(offset: u32) -> u64
    recommends
        offset <= 0xffff,
{
    if offset < 0x8000 {
        (offset * 4) as u64
    } else {
        (offset * 4 + 0xffff_ffff_fffc_0000u64) as u64
    }
}

/// The state after a conditional branch whose condition evaluated to `taken`.
///
/// A taken branch moves the program counter (which already points at the delay
/// slot) by the offset and leaves the delay slot to run. A branch not taken
/// changes nothing, except that a branch-likely skips its delay slot.
pub open spec fn branch_spec(s: CpuView, w: u32, taken: bool, likely: bool) -> (
    CpuView,
    Result<Step, N64Error>,
) {
    if taken {
        (with_pc(s, wrap_add(s.pc, branch_offset(imm_field(w)))), Ok(Step::DelaySlot(s.pc)))
    } else if likely {
        (with_pc(s, wrap_add(s.pc, 4)), Ok(Step::Completed))
    } else {
        (s, Ok(Step::Completed))
    }
}

/// Running the delay slot at `delay_slot_pc`: the instruction there is fetched
/// and executed with its own delay slots; the result is `Ok(true)` when that
/// succeeds.
pub open spec fn delay_slot_spec(s: CpuView, delay_slot_pc: u64) -> (CpuView, Result<bool, N64Error>) {
    match load_word_spec(s, delay_slot_pc) {
        Err(e) => (s, Err(e)),
        Ok(d) => {
            let (s2, r2) = execute_spec(s, d, DELAY_SLOT_CHAIN_LIMIT as nat);
            match r2 {
                Ok(_) => (s2, Ok(true)),
                Err(e) => (s2, Err(e)),
            }
        },
    }
}

/// A whole conditional branch whose condition evaluated to `taken`: the
/// transfer of control (`branch_spec`), then, when taken, the delay slot.
/// The result says whether the branch was taken.
pub open spec fn branch_run_spec(s: CpuView, w: u32, taken: bool, likely: bool) -> (
    CpuView,
    Result<bool, N64Error>,
) {
    let (s1, r) = branch_spec(s, w, taken, likely);
    match r {
        Ok(Step::DelaySlot(p)) => delay_slot_spec(s1, p),
        _ => (s1, Ok(false)),
    }
}

/// The effect of the instruction word `w` on state `s`, without running a
/// delay slot. A faulting instruction leaves the state unchanged.
///
/// ADDI writes R[rs] + SignExtImm modulo 2^64, as ADDIU does, and faults with
/// `AdditionOverflow` (writing nothing) exactly when the sum overflows as a
/// signed 64-bit number.
pub open spec fn step_spec(s: CpuView, w: u32) -> (CpuView, Result<Step, N64Error>) {
    let rs = rs_field(w) as int;
    let rt = rt_field(w) as int;
    let rd = rd_field(w) as int;
    let imm = imm_field(w);
    match Opcode::spec_from_u32(opcode_field(w)) {
        None => (s, Err(N64Error::UnrecognizedInstruction(w))),
        Some(Opcode::Special) => match SpecialOpcode::spec_from_u32(funct_field(w)) {
            None => (s, Err(N64Error::UnrecognizedInstruction(w))),
            Some(SpecialOpcode::Srl) => (
                with_reg(s, rd, sign_extend_32((reg_value(s, rt) >> sa_field(w)) as u32)),
                Ok(Step::Completed),
            ),
            Some(SpecialOpcode::Jr) => (with_pc(s, reg_value(s, rs)), Ok(Step::DelaySlot(s.pc))),
            Some(SpecialOpcode::Or) => (
                with_reg(s, rd, reg_value(s, rs) | reg_value(s, rt)),
                Ok(Step::Completed),
            ),
        },
        Some(Opcode::Addi) => if signed_add_overflows(reg_value(s, rs), sign_extend_16(imm)) {
            (s, Err(N64Error::AdditionOverflow))
        } else {
            (with_reg(s, rt, wrap_add(reg_value(s, rs), sign_extend_16(imm))), Ok(Step::Completed))
        },
        Some(Opcode::Addiu) => (
            with_reg(s, rt, wrap_add(reg_value(s, rs), sign_extend_16(imm))),
            Ok(Step::Completed),
        ),
        Some(Opcode::Andi) => (with_reg(s, rt, reg_value(s, rs) & (imm as u64)), Ok(Step::Completed)),
        Some(Opcode::Ori) => (with_reg(s, rt, reg_value(s, rs) | (imm as u64)), Ok(Step::Completed)),
        Some(Opcode::Lui) => (
            with_reg(s, rt, sign_extend_32((imm * 0x1_0000) as u32)),
            Ok(Step::Completed),
        ),
        Some(Opcode::Mtc0) => match s.cp0.spec_write_reg(rd_field(w), reg_value(s, rt)) {
            Ok(c) => (CpuView { cp0: c, ..s }, Ok(Step::Completed)),
            Err(e) => (s, Err(e)),
        },
        Some(Opcode::Beq) => branch_spec(s, w, reg_value(s, rs) == reg_value(s, rt), false),
        Some(Opcode::Bne) => branch_spec(s, w, reg_value(s, rs) != reg_value(s, rt), false),
        Some(Opcode::Beql) => branch_spec(s, w, reg_value(s, rs) == reg_value(s, rt), true),
        Some(Opcode::Bnel) => branch_spec(s, w, reg_value(s, rs) != reg_value(s, rt), true),
        Some(Opcode::Lw) => match load_word_spec(s, wrap_add(reg_value(s, rs), sign_extend_16(imm))) {
            Ok(m) => (with_reg(s, rt, sign_extend_32(m)), Ok(Step::Completed)),
            Err(e) => (s, Err(e)),
        },
        Some(Opcode::Sw) => match store_word_spec(
            s,
            wrap_add(reg_value(s, rs), sign_extend_16(imm)),
        ) {
            Ok(_) => (s, Ok(Step::Completed)),
            Err(e) => (s, Err(e)),
        },
    }
}

/// The effect of executing the instruction word `w` on state `s`, running the
/// delay slots it leads to, at most `fuel` of them in a row.
pub open spec fn execute_spec(s: CpuView, w: u32, fuel: nat) -> (CpuView, Result<(), N64Error>)
    decreases fuel,
{
    let (s1, r) = step_spec(s, w);
    match r {
        Err(e) => (s1, Err(e)),
        Ok(Step::Completed) => (s1, Ok(())),
        Ok(Step::DelaySlot(delay_slot_pc)) => if fuel == 0 {
            (s1, Err(N64Error::DelaySlotChainTooLong))
        } else {
            match load_word_spec(s1, delay_slot_pc) {
                Err(e) => (s1, Err(e)),
                Ok(w2) => execute_spec(s1, w2, (fuel - 1) as nat),
            }
        },
    }
}

/// The effect of one fetch-execute cycle on state `s`: fetch the word at the
/// program counter, advance the program counter by four, execute the word.
pub open spec fn run_instruction_spec(s: CpuView) -> (CpuView, Result<(), N64Error>) {
    match load_word_spec(s, s.pc) {
        Err(e) => (s, Err(e)),
        Ok(w) => execute_spec(with_pc(s, (s.pc + 4) as u64), w, DELAY_SLOT_CHAIN_LIMIT as nat),
    }
}

/// The VR4300 CPU with its coprocessor 0, attached to the interconnect.
pub struct Cpu {
    reg_gpr: [u64; NUM_GPR],
    reg_fpr: [u64; NUM_GPR],
    reg_pc: u64,
    reg_hi: u64,
    reg_lo: u64,
    reg_llbit: bool,
    reg_fcr0: u32,
    reg_fcr31: u32,
    cp0: Cp0,
    interconnect: Interconnect,
}

impl View for Cpu {
    type V = CpuView;

    closed spec fn view(&self) -> CpuView {
        CpuView {
            gpr: self.reg_gpr@,
            fpr: self.reg_fpr@,
            pc: self.reg_pc,
            hi: self.reg_hi,
            lo: self.reg_lo,
            llbit: self.reg_llbit,
            fcr0: self.reg_fcr0,
            fcr31: self.reg_fcr31,
            cp0: self.cp0,
            mem: self.interconnect@,
        }
    }
}

impl Cpu {
    /// A CPU in its reset state attached to `interconnect`: all registers zero,
    /// the program counter at the reset vector.
    pub fn new(interconnect: Interconnect) -> (r: Cpu)
        ensures
            r@ == initial_state(interconnect@),
    {
        let r = Cpu {
            reg_gpr: [0u64; NUM_GPR],
            reg_fpr: [0u64; NUM_GPR],
            reg_pc: RESET_PC,
            reg_hi: 0,
            reg_lo: 0,
            reg_llbit: false,
            reg_fcr0: 0,
            reg_fcr31: 0,
            cp0: Cp0::default(),
            interconnect,
        };
        assert(r@.gpr =~= Seq::new(NUM_GPR as nat, |i: int| 0u64));
        assert(r@.fpr =~= Seq::new(NUM_GPR as nat, |i: int| 0u64));
        r
    }

    /// A CPU has `NUM_GPR` general purpose and `NUM_GPR` floating point registers.
    pub proof fn lemma_register_file_size(&self)
        ensures
            self@.gpr.len() == NUM_GPR,
            self@.fpr.len() == NUM_GPR,
    {
    }

    /// Cold reset: coprocessor 0 takes its reset values and execution restarts
    /// at the reset vector. The other registers keep their values.
    pub fn power_on_reset(&mut self)
        ensures
            final(self)@ == (CpuView {
                pc: RESET_PC,
                cp0: Cp0 {
                    reg_config: old(self)@.cp0.reg_config.spec_power_on_reset(),
                    ..old(self)@.cp0
                },
                ..old(self)@
            }),
    {
        self.cp0.power_on_reset();
        self.reg_pc = RESET_PC;
    }

    /// The program counter.
    pub fn reg_pc(&self) -> (r: u64)
        ensures
            r == self@.pc,
    {
        self.reg_pc
    }

    /// The HI register.
    pub fn reg_hi(&self) -> (r: u64)
        ensures
            r == self@.hi,
    {
        self.reg_hi
    }

    /// The LO register.
    pub fn reg_lo(&self) -> (r: u64)
        ensures
            r == self@.lo,
    {
        self.reg_lo
    }

    /// The load-link bit.
    pub fn reg_llbit(&self) -> (r: bool)
        ensures
            r == self@.llbit,
    {
        self.reg_llbit
    }

    /// The floating point implementation/revision register.
    pub fn reg_fcr0(&self) -> (r: u32)
        ensures
            r == self@.fcr0,
    {
        self.reg_fcr0
    }

    /// The floating point control/status register.
    pub fn reg_fcr31(&self) -> (r: u32)
        ensures
            r == self@.fcr31,
    {
        self.reg_fcr31
    }

    /// Floating point register `index`, as its raw 64-bit pattern.
    pub fn read_reg_fpr(&self, index: usize) -> (r: u64)
        requires
            index < NUM_GPR,
        ensures
            r == self@.fpr[index as int],
    {
        self.reg_fpr[index]
    }

    /// Coprocessor 0.
    pub fn cp0(&self) -> (r: &Cp0)
        ensures
            *r == self@.cp0,
    {
        &self.cp0
    }

    /// The interconnect.
    pub fn interconnect(&self) -> (r: &Interconnect)
        ensures
            r@ == self@.mem,
    {
        &self.interconnect
    }

    /// Reads general purpose register `index`; r0 always reads as zero.
    pub fn read_reg_gpr(&self, index: usize) -> (r: u64)
        requires
            index < NUM_GPR,
        ensures
            r == reg_value(self@, index as int),
    {
        match index {
            0 => 0,
            _ => self.reg_gpr[index],
        }
    }

    /// Writes general purpose register `index`; writes to r0 are discarded.
    pub fn write_reg_gpr(&mut self, index: usize, value: u64)
        requires
            index < NUM_GPR,
        ensures
            final(self)@ == with_reg(old(self)@, index as int, value),
    {
        if index != 0 {
            self.reg_gpr[index] = value;
        }
    }

    /// The physical address of a virtual address (only kseg1 is mapped).
    pub fn virt_addr_to_phys_addr(&self, virt_addr: u64) -> (r: Result<u64, N64Error>)
        ensures
            r == virt_to_phys_spec(virt_addr),
    {
        let addr_bit_values = (virt_addr >> 29) & 0b111;
        if addr_bit_values == 0b101 && virt_addr >= KSEG1_BASE {
            Ok(virt_addr - KSEG1_BASE)
        } else {
            Err(N64Error::UnrecognizedVirtualAddress(virt_addr))
        }
    }

    /// Reads the word at a virtual address.
    pub fn read_word(&self, virt_addr: u64) -> (r: Result<u32, N64Error>)
        ensures
            r == load_word_spec(self@, virt_addr),
    {
        match self.virt_addr_to_phys_addr(virt_addr) {
            Ok(phys_addr) => self.interconnect.read_word(phys_addr as u32),
            Err(e) => Err(e),
        }
    }

    /// Writes a word at a virtual address.
    pub fn write_word(&mut self, virt_addr: u64, value: u32) -> (r: Result<(), N64Error>)
        ensures
            r == store_word_spec(old(self)@, virt_addr),
            final(self)@ == old(self)@,
    {
        match self.virt_addr_to_phys_addr(virt_addr) {
            Ok(phys_addr) => self.interconnect.write_word(phys_addr as u32, value),
            Err(e) => Err(e),
        }
    }

    /// Fetches the instruction at a virtual address.
    pub fn read_instruction(&self, addr: u64) -> (r: Result<Instruction, N64Error>)
        ensures
            match load_word_spec(self@, addr) {
                Ok(w) => r == Ok::<Instruction, N64Error>(Instruction(w)),
                Err(e) => r == Err::<Instruction, N64Error>(e),
            },
    {
        match self.read_word(addr) {
            Ok(w) => Ok(Instruction(w)),
            Err(e) => Err(e),
        }
    }

    /// The branch offset of a branch instruction: its offset sign-extended and
    /// shifted left by two.
    fn branch_offset(instr: Instruction) -> (r: u64)
        ensures
            r == branch_offset(imm_field(instr.0)),
    {
        let imm = instr.imm();
        let se = instr.offset_sign_extended();
        if imm < 0x8000 {
            assert(se << 2 == se * 4) by (bit_vector)
                requires
                    se < 0x8000,
            ;
        } else {
            assert(se << 2 == (imm * 4 + 0xffff_ffff_fffc_0000u64) as u64) by (bit_vector)
                requires
                    0x8000 <= imm < 0x10000,
                    se == imm + 0xffff_ffff_ffff_0000u64,
            ;
        }
        se << 2
    }

    /// The transfer of control of a conditional branch (BEQ, BNE) whose
    /// condition evaluated to `is_taken`, leaving the delay slot to the caller.
    fn take_branch(&mut self, instr: Instruction, is_taken: bool) -> (r: Step)
        ensures
            final(self)@ == branch_spec(old(self)@, instr.0, is_taken, false).0,
            Ok::<Step, N64Error>(r) == branch_spec(old(self)@, instr.0, is_taken, false).1,
    {
        if is_taken {
            let delay_slot_pc = self.reg_pc;
            let sign_extended_offset = Self::branch_offset(instr);
            // Update PC before executing delay slot instruction
            self.reg_pc = self.reg_pc.wrapping_add(sign_extended_offset);
            Step::DelaySlot(delay_slot_pc)
        } else {
            Step::Completed
        }
    }

    /// The transfer of control of a branch-likely (BEQL, BNEL) whose condition
    /// evaluated to `is_taken`, leaving the delay slot to the caller: when not
    /// taken, the delay slot is skipped.
    fn take_branch_likely(&mut self, instr: Instruction, is_taken: bool) -> (r: Step)
        ensures
            final(self)@ == branch_spec(old(self)@, instr.0, is_taken, true).0,
            Ok::<Step, N64Error>(r) == branch_spec(old(self)@, instr.0, is_taken, true).1,
    {
        let r = self.take_branch(instr, is_taken);
        if !is_taken {
            // Skip over delay slot instruction when not branching
            self.reg_pc = self.reg_pc.wrapping_add(4);
        }
        r
    }

    /// The virtual address of a load or store: base register plus the
    /// sign-extended offset, modulo 2^64.
    fn effective_address(&self, instr: Instruction) -> (r: u64)
        ensures
            r == wrap_add(
                reg_value(self@, rs_field(instr.0) as int),
                sign_extend_16(imm_field(instr.0)),
            ),
    {
        let base = instr.rs();
        let sign_extended_offset = instr.offset_sign_extended();
        self.read_reg_gpr(base).wrapping_add(sign_extended_offset)
    }

    /// Carries out a SPECIAL instruction (function in bits 5:0).
    fn execute_special(&mut self, instr: Instruction) -> (r: Result<Step, N64Error>)
        requires
            opcode_field(instr.0) == 0,
        ensures
            final(self)@ == step_spec(old(self)@, instr.0).0,
            r == step_spec(old(self)@, instr.0).1,
    {
        let special = match instr.special_op() {
            Ok(op) => op,
            Err(e) => {
                return Err(e);
            },
        };
        match special {
            SpecialOpcode::Srl => {
                let value = self.read_reg_gpr(instr.rt()) >> instr.sa();
                let sign_extended_value = sign_extend_word(value as u32);
                self.write_reg_gpr(instr.rd() as usize, sign_extended_value);
                Ok(Step::Completed)
            },
            SpecialOpcode::Jr => {
                let delay_slot_pc = self.reg_pc;
                // Update PC before executing delay slot instruction
                self.reg_pc = self.read_reg_gpr(instr.rs());
                Ok(Step::DelaySlot(delay_slot_pc))
            },
            SpecialOpcode::Or => {
                let value = self.read_reg_gpr(instr.rs()) | self.read_reg_gpr(instr.rt());
                self.write_reg_gpr(instr.rd() as usize, value);
                Ok(Step::Completed)
            },
        }
    }

    /// Carries out the effect of one instruction, leaving any delay slot it
    /// calls for to the caller.
    pub fn execute_step(&mut self, instr: Instruction) -> (r: Result<Step, N64Error>)
        ensures
            final(self)@ == step_spec(old(self)@, instr.0).0,
            r == step_spec(old(self)@, instr.0).1,
    {
        let opcode = match instr.opcode() {
            Ok(op) => op,
            Err(e) => {
                return Err(e);
            },
        };
        match opcode {
            Opcode::Special => self.execute_special(instr),
            // R[rt] = R[rs] + SignExtImm, faulting on two's complement overflow
            Opcode::Addi => {
                let (res, overflow) = add_with_overflow(
                    self.read_reg_gpr(instr.rs()),
                    instr.imm_sign_extended(),
                );
                if overflow {
                    Err(N64Error::AdditionOverflow)
                } else {
                    self.write_reg_gpr(instr.rt(), res);
                    Ok(Step::Completed)
                }
            },
            // R[rt] = R[rs] + SignExtImm, modulo 2^64
            Opcode::Addiu => {
                let res = self.read_reg_gpr(instr.rs()).wrapping_add(instr.imm_sign_extended());
                self.write_reg_gpr(instr.rt(), res);
                Ok(Step::Completed)
            },
            // R[rt] = R[rs] & ZeroExtImm
            Opcode::Andi => {
                let res = self.read_reg_gpr(instr.rs()) & (instr.imm() as u64);
                self.write_reg_gpr(instr.rt(), res);
                Ok(Step::Completed)
            },
            // R[rt] = R[rs] | ZeroExtImm
            Opcode::Ori => {
                let res = self.read_reg_gpr(instr.rs()) | (instr.imm() as u64);
                self.write_reg_gpr(instr.rt(), res);
                Ok(Step::Completed)
            },
            // R[rt] = {imm, 16'b0}, sign-extended
            Opcode::Lui => {
                let imm = instr.imm();
                assert(imm << 16 == (imm * 0x1_0000) as u32) by (bit_vector)
                    requires
                        imm < 0x10000,
                ;
                let value = sign_extend_word(imm << 16);
                self.write_reg_gpr(instr.rt(), value);
                Ok(Step::Completed)
            },
            // CP0[rd] = R[rt]
            Opcode::Mtc0 => {
                let data = self.read_reg_gpr(instr.rt());
                match self.cp0.write_reg(instr.rd(), data) {
                    Ok(()) => Ok(Step::Completed),
                    Err(e) => Err(e),
                }
            },
            Opcode::Beq => {
                let is_taken = self.read_reg_gpr(instr.rs()) == self.read_reg_gpr(instr.rt());
                Ok(self.take_branch(instr, is_taken))
            },
            Opcode::Bne => {
                let is_taken = self.read_reg_gpr(instr.rs()) != self.read_reg_gpr(instr.rt());
                Ok(self.take_branch(instr, is_taken))
            },
            Opcode::Beql => {
                let is_taken = self.read_reg_gpr(instr.rs()) == self.read_reg_gpr(instr.rt());
                Ok(self.take_branch_likely(instr, is_taken))
            },
            Opcode::Bnel => {
                let is_taken = self.read_reg_gpr(instr.rs()) != self.read_reg_gpr(instr.rt());
                Ok(self.take_branch_likely(instr, is_taken))
            },
            // R[rt] = M[R[rs] + SignExtImm], sign-extended
            Opcode::Lw => {
                let virt_addr = self.effective_address(instr);
                match self.read_word(virt_addr) {
                    Ok(mem) => {
                        self.write_reg_gpr(instr.rt(), sign_extend_word(mem));
                        Ok(Step::Completed)
                    },
                    Err(e) => Err(e),
                }
            },
            // M[R[rs] + SignExtImm] = R[rt]
            Opcode::Sw => {
                let virt_addr = self.effective_address(instr);
                let mem = self.read_reg_gpr(instr.rt()) as u32;
                match self.write_word(virt_addr, mem) {
                    Ok(()) => Ok(Step::Completed),
                    Err(e) => Err(e),
                }
            },
        }
    }

    /// Executes an instruction, then the delay slots it leads to.
    ///
    /// A branch or jump that is taken runs the instruction in its delay slot
    /// after the program counter has been moved to the target; the delay slot
    /// may transfer control in turn. At most `DELAY_SLOT_CHAIN_LIMIT` delay
    /// slots run in a row; one more is reported as `DelaySlotChainTooLong`.
    pub fn execute_instruction(&mut self, instr: Instruction) -> (r: Result<(), N64Error>)
        ensures
            final(self)@ == execute_spec(old(self)@, instr.0, DELAY_SLOT_CHAIN_LIMIT as nat).0,
            r == execute_spec(old(self)@, instr.0, DELAY_SLOT_CHAIN_LIMIT as nat).1,
    {
        let ghost goal = execute_spec(self@, instr.0, DELAY_SLOT_CHAIN_LIMIT as nat);
        let mut current = instr;
        let mut budget: u64 = DELAY_SLOT_CHAIN_LIMIT;
        loop
            invariant
                execute_spec(self@, current.0, budget as nat) == goal,
                goal == execute_spec(old(self)@, instr.0, DELAY_SLOT_CHAIN_LIMIT as nat),
            decreases budget,
        {
            let step = self.execute_step(current);
            match step {
                Err(e) => {
                    return Err(e);
                },
                Ok(Step::Completed) => {
                    return Ok(());
                },
                Ok(Step::DelaySlot(delay_slot_pc)) => {
                    if budget == 0 {
                        return Err(N64Error::DelaySlotChainTooLong);
                    }
                    match self.read_instruction(delay_slot_pc) {
                        Ok(delay_slot_instr) => {
                            current = delay_slot_instr;
                            budget = budget - 1;
                        },
                        Err(e) => {
                            return Err(e);
                        },
                    }
                },
            }
        }
    }

    /// One fetch-execute cycle: fetches the instruction at the program counter,
    /// advances the program counter past it, and executes it.
    pub fn run_instruction(&mut self) -> (r: Result<(), N64Error>)
        ensures
            final(self)@ == run_instruction_spec(old(self)@).0,
            r == run_instruction_spec(old(self)@).1,
    {
        let instr = match self.read_instruction(self.reg_pc) {
            Ok(instr) => instr,
            Err(e) => {
                return Err(e);
            },
        };
        // The fetch succeeded, so the program counter lies in kseg1, far below
        // the top of the address space.
        proof {
            crate::cpu::laws::lemma_kseg1_window(self.reg_pc);
        }
        self.reg_pc = self.reg_pc + 4;
        self.execute_instruction(instr)
    }

    /// A conditional branch (BEQ, BNE) whose condition evaluated to `is_taken`.
    ///
    /// When taken, the program counter (which already points at the delay
    /// slot) moves by the branch offset, and then the instruction in the delay
    /// slot is fetched and executed. Returns whether the branch was taken.
    pub fn branch(&mut self, instr: Instruction, is_taken: bool) -> (r: Result<bool, N64Error>)
        ensures
            final(self)@ == branch_run_spec(old(self)@, instr.0, is_taken, false).0,
            r == branch_run_spec(old(self)@, instr.0, is_taken, false).1,
    {
        match self.take_branch(instr, is_taken) {
            Step::DelaySlot(delay_slot_pc) => self.run_delay_slot(delay_slot_pc),
            Step::Completed => Ok(false),
        }
    }

    /// A branch-likely (BEQL, BNEL) whose condition evaluated to `is_taken`:
    /// when taken it acts as `branch`; when not taken the delay slot is
    /// skipped and nothing else changes.
    pub fn branch_likely(&mut self, instr: Instruction, is_taken: bool) -> (r: Result<(), N64Error>)
        ensures
            final(self)@ == branch_run_spec(old(self)@, instr.0, is_taken, true).0,
            match branch_run_spec(old(self)@, instr.0, is_taken, true).1 {
                Ok(_) => r is Ok,
                Err(e) => r == Err::<(), N64Error>(e),
            },
    {
        let r = match self.take_branch_likely(instr, is_taken) {
            Step::DelaySlot(delay_slot_pc) => self.run_delay_slot(delay_slot_pc),
            Step::Completed => Ok(false),
        };
        match r {
            Ok(_) => Ok(()),
            Err(e) => Err(e),
        }
    }

    /// Fetches and executes the instruction in the delay slot at `delay_slot_pc`.
    fn run_delay_slot(&mut self, delay_slot_pc: u64) -> (r: Result<bool, N64Error>)
        ensures
            final(self)@ == delay_slot_spec(old(self)@, delay_slot_pc).0,
            r == delay_slot_spec(old(self)@, delay_slot_pc).1,
    {
        match self.read_instruction(delay_slot_pc) {
            Ok(delay_slot_instr) => match self.execute_instruction(delay_slot_instr) {
                Ok(()) => Ok(true),
                Err(e) => Err(e),
            },
            Err(e) => Err(e),
        }
    }
}

} // verus!
