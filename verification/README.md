# n64

The core of a Nintendo 64 emulator, written in Verus and verified against
contracts.

- `src/cpu.rs`: the VR4300 CPU interpreter. `step_spec`, `execute_spec` and
  `run_instruction_spec` state what each instruction, each instruction with its
  delay slots, and each fetch-execute cycle does; `Cpu` is proved to follow them.
- `src/cpu/instruction.rs`, `src/cpu/opcode.rs`: instruction fields and opcodes.
- `src/cpu/cp0.rs` and `src/cpu/cp0/`: coprocessor 0 and its Status and Config
  registers, decoded field by field.
- `src/cpu/laws.rs`: properties of the CPU as a whole (register r0, delay slots,
  branch-likely, address mapping, memory).
- `src/interconnect.rs`, `src/mem_map.rs`, `src/rsp.rs`: the physical address space.
- `src/n64.rs`: the console; `src/debugger.rs` and `src/debugger/command.rs`:
  the debugger's command language and decisions.
- `app/main.rs`: the command-line program (file reading, printing, the run loops).
