use vstd::prelude::*;

use crate::cpu::cp0::Cp0;
use crate::cpu::{initial_state, run_instruction_spec, Cpu, CpuView, RESET_PC};
use crate::error::N64Error;
use crate::interconnect::{Interconnect, RAM_SIZE};

verus! {

/// The effect of up to `n` fetch-execute cycles on state `s`; the first fault
/// stops the run and is the result.
pub open spec fn run_instructions_spec(s: CpuView, n: nat) -> (CpuView, Result<(), N64Error>)
    decreases n,
{
    if n == 0 {
        (s, Ok(()))
    } else {
        let (s1, r) = run_instruction_spec(s);
        match r {
            Err(e) => (s1, Err(e)),
            Ok(_) => run_instructions_spec(s1, (n - 1) as nat),
        }
    }
}

/// The console: a CPU wired to its interconnect.
pub struct N64 {
    cpu: Cpu,
}

impl View for N64 {
    type V = CpuView;

    closed spec fn view(&self) -> CpuView {
        self.cpu@
    }
}

impl N64 {
    /// A console booting from the given PIF ROM image.
    pub fn new(pif_rom: Vec<u8>) -> (r: N64)
        ensures
            r@ == initial_state(r@.mem),
            r@.mem.pif_rom == pif_rom@,
            r@.mem.ram.len() == RAM_SIZE,
            forall|i: int| 0 <= i < RAM_SIZE ==> #[trigger] r@.mem.ram[i] == 0,
    {
        let interconnect = Interconnect::new(pif_rom);
        let cpu = Cpu::new(interconnect);
        N64 { cpu }
    }

    /// The CPU.
    pub fn cpu(&self) -> (r: &Cpu)
        ensures
            r@ == self@,
    {
        &self.cpu
    }

    /// Cold reset of the console.
    pub fn power_on_reset(&mut self)
        ensures
            final(self)@ == (CpuView {
                pc: RESET_PC,
                cp0: Cp0 {
                    reg_config: old(self)@.cp0.reg_config.spec_power_on_reset(),
                    ..old(self)@.cp0
                },
                ..old(self)@
            }),
    {
        self.cpu.power_on_reset();
    }

    /// Runs one instruction.
    pub fn run_instruction(&mut self) -> (r: Result<(), N64Error>)
        ensures
            final(self)@ == run_instruction_spec(old(self)@).0,
            r == run_instruction_spec(old(self)@).1,
    {
        self.cpu.run_instruction()
    }

    /// Runs one instruction (single-stepping from the debugger).
    pub fn step(&mut self) -> (r: Result<(), N64Error>)
        ensures
            final(self)@ == run_instruction_spec(old(self)@).0,
            r == run_instruction_spec(old(self)@).1,
    {
        self.run_instruction()
    }

    /// Runs `count` instructions, stopping at the first fault.
    pub fn run_instructions(&mut self, count: usize) -> (r: Result<(), N64Error>)
        ensures
            final(self)@ == run_instructions_spec(old(self)@, count as nat).0,
            r == run_instructions_spec(old(self)@, count as nat).1,
    {
        let ghost goal = run_instructions_spec(self@, count as nat);
        let mut remaining = count;
        while remaining > 0
            invariant
                run_instructions_spec(self@, remaining as nat) == goal,
                goal == run_instructions_spec(old(self)@, count as nat),
            decreases remaining,
        {
            let r = self.run_instruction();
            match r {
                Ok(()) => {
                    remaining = remaining - 1;
                },
                Err(e) => {
                    return Err(e);
                },
            }
        }
        Ok(())
    }
}

/// Running `a` instructions and then `b` more is running `a + b`: the second
/// run starts where the first ended, unless the first one faulted.
pub proof fn lemma_run_instructions_compose(s: CpuView, a: nat, b: nat)
    ensures
        run_instructions_spec(s, a + b) == (match run_instructions_spec(s, a) {
            (s1, Ok(_)) => run_instructions_spec(s1, b),
            (s1, Err(e)) => (s1, Err(e)),
        }),
    decreases a,
{
    if a > 0 {
        let (s1, r) = run_instruction_spec(s);
        if r is Ok {
            lemma_run_instructions_compose(s1, (a - 1) as nat, b);
            assert((a + b - 1) as nat == ((a - 1) as nat + b));
        }
    }
}

/// Every run keeps the register file's size and r0 at zero; in particular a
/// freshly built console never holds anything but zero in r0.
pub proof fn lemma_runs_keep_zero_register(s: CpuView, n: nat)
    requires
        s.gpr.len() == 32,
        s.gpr[0] == 0,
    ensures
        run_instructions_spec(s, n).0.gpr.len() == 32,
        run_instructions_spec(s, n).0.gpr[0] == 0,
    decreases n,
{
    if n > 0 {
        crate::cpu::laws::lemma_cycle_keeps_zero_register(s);
        let (s1, r) = run_instruction_spec(s);
        if r is Ok {
            lemma_runs_keep_zero_register(s1, (n - 1) as nat);
        }
    }
}

} // verus!
