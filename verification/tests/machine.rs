use n64::cpu::cp0::reg_config::{DataTransferPattern, Endianness};
use n64::cpu::instruction::Instruction;
use n64::cpu::opcode::{Opcode, SpecialOpcode};
use n64::cpu::{Step, DELAY_SLOT_CHAIN_LIMIT, KSEG1_BASE, RESET_PC};
use n64::debugger::command::Command;
use n64::debugger::DebuggerAction;
use n64::interconnect::RAM_SIZE;
use n64::mem_map::{PIF_ROM_START, SP_STATUS_REG};
use n64::{Cpu, Debugger, Interconnect, N64Error, N64};

const T0: u32 = 8;
const T1: u32 = 9;

fn i_type(op: u32, rs: u32, rt: u32, imm: u32) -> u32 {
    (op << 26) | (rs << 21) | (rt << 16) | (imm & 0xffff)
}

fn r_type(rs: u32, rt: u32, rd: u32, sa: u32, funct: u32) -> u32 {
    (rs << 21) | (rt << 16) | (rd << 11) | (sa << 6) | funct
}

fn lui(rt: u32, imm: u32) -> u32 {
    i_type(0b001111, 0, rt, imm)
}

fn ori(rt: u32, rs: u32, imm: u32) -> u32 {
    i_type(0b001101, rs, rt, imm)
}

fn addiu(rt: u32, rs: u32, imm: u32) -> u32 {
    i_type(0b001001, rs, rt, imm)
}

fn addi(rt: u32, rs: u32, imm: u32) -> u32 {
    i_type(0b001000, rs, rt, imm)
}

fn andi(rt: u32, rs: u32, imm: u32) -> u32 {
    i_type(0b001100, rs, rt, imm)
}

fn mtc0(rt: u32, rd: u32) -> u32 {
    (0b010000 << 26) | (rt << 16) | (rd << 11)
}

fn rom(words: &[u32]) -> Vec<u8> {
    let mut bytes = Vec::new();
    for w in words {
        bytes.extend_from_slice(&w.to_be_bytes());
    }
    bytes
}

fn machine(words: &[u32]) -> N64 {
    let mut n64 = N64::new(rom(words));
    n64.power_on_reset();
    n64
}

fn gpr(n64: &N64, i: u32) -> u64 {
    n64.cpu().read_reg_gpr(i as usize)
}

#[test]
fn instruction_fields() {
    let i = Instruction(0b000100_00001_00010_1111111111111110);
    assert_eq!(i.opcode(), Ok(Opcode::Beq));
    assert_eq!(i.rs(), 1);
    assert_eq!(i.rt(), 2);
    assert_eq!(i.imm(), 0xfffe);
    assert_eq!(i.imm_sign_extended(), 0xffff_ffff_ffff_fffe);
    assert_eq!(i.offset(), 0xfffe);
    assert_eq!(i.offset_sign_extended(), (-2i64) as u64);
    let j = Instruction(r_type(3, 4, 5, 6, 0b100101));
    assert_eq!(j.opcode(), Ok(Opcode::Special));
    assert_eq!(j.special_op(), Ok(SpecialOpcode::Or));
    assert_eq!(j.rd(), 5);
    assert_eq!(j.sa(), 6);
    assert_eq!(Instruction(0xffff_ffff).opcode(), Err(N64Error::UnrecognizedInstruction(0xffff_ffff)));
    assert_eq!(Instruction(0x3f).special_op(), Err(N64Error::UnrecognizedInstruction(0x3f)));
    assert_eq!(Opcode::from_u32(0b101011), Some(Opcode::Sw));
    assert_eq!(Opcode::Lw.to_u32(), 0b100011);
    assert_eq!(SpecialOpcode::from_u32(0b001000), Some(SpecialOpcode::Jr));
    assert_eq!(SpecialOpcode::Srl.to_u32(), 0b000010);
}

#[test]
fn interconnect_reads_pif_rom_big_endian() {
    let ic = Interconnect::new(vec![0x12, 0x34, 0x56, 0x78, 0x9a, 0xbc, 0xde, 0xf0, 0x01]);
    assert_eq!(ic.read_word(PIF_ROM_START), Ok(0x1234_5678));
    assert_eq!(ic.read_word(PIF_ROM_START + 4), Ok(0x9abc_def0));
    assert_eq!(ic.read_word(PIF_ROM_START + 1), Ok(0x3456_789a));
    assert_eq!(ic.read_word(PIF_ROM_START + 6), Err(N64Error::PifRomTooShort(PIF_ROM_START + 6)));
    assert_eq!(ic.read_word(SP_STATUS_REG), Ok(0));
    assert_eq!(ic.read_word(0), Err(N64Error::UnrecognizedPhysicalAddress(0)));
    assert_eq!(ic.read_word(PIF_ROM_START + 0x7c0), Err(N64Error::UnrecognizedPhysicalAddress(PIF_ROM_START + 0x7c0)));
    assert_eq!(ic.ram_len(), RAM_SIZE);
    assert_eq!(ic.pif_rom().len(), 9);
}

#[test]
fn interconnect_rejects_writes() {
    let mut ic = Interconnect::new(vec![1, 2, 3, 4]);
    assert_eq!(ic.write_word(PIF_ROM_START, 5), Err(N64Error::UnrecognizedPhysicalAddress(PIF_ROM_START)));
    assert_eq!(ic.read_word(PIF_ROM_START), Ok(0x0102_0304));
}

#[test]
fn cpu_reset_state() {
    let cpu = Cpu::new(Interconnect::new(vec![]));
    assert_eq!(cpu.reg_pc(), RESET_PC);
    for i in 0..32 {
        assert_eq!(cpu.read_reg_gpr(i), 0);
        assert_eq!(cpu.read_reg_fpr(i), 0);
    }
    assert_eq!(cpu.reg_hi(), 0);
    assert_eq!(cpu.reg_lo(), 0);
    assert!(!cpu.reg_llbit());
    assert_eq!(cpu.reg_fcr0(), 0);
    assert_eq!(cpu.reg_fcr31(), 0);
    assert_eq!(cpu.cp0().reg_config.endianness, Endianness::Big);
}

#[test]
fn register_zero_is_hard_wired() {
    let mut cpu = Cpu::new(Interconnect::new(vec![]));
    cpu.write_reg_gpr(0, 42);
    assert_eq!(cpu.read_reg_gpr(0), 0);
    cpu.write_reg_gpr(31, 42);
    assert_eq!(cpu.read_reg_gpr(31), 42);
    assert_eq!(cpu.read_reg_gpr(30), 0);
}

#[test]
fn kseg1_mapping() {
    let cpu = Cpu::new(Interconnect::new(vec![]));
    assert_eq!(cpu.virt_addr_to_phys_addr(RESET_PC), Ok(PIF_ROM_START as u64));
    assert_eq!(cpu.virt_addr_to_phys_addr(KSEG1_BASE), Ok(0));
    assert_eq!(cpu.virt_addr_to_phys_addr(0xffff_ffff_bfff_ffff), Ok(0x1fff_ffff));
    assert_eq!(cpu.virt_addr_to_phys_addr(0xffff_ffff_c000_0000), Err(N64Error::UnrecognizedVirtualAddress(0xffff_ffff_c000_0000)));
    assert_eq!(cpu.virt_addr_to_phys_addr(0xa000_0000), Err(N64Error::UnrecognizedVirtualAddress(0xa000_0000)));
    assert_eq!(cpu.virt_addr_to_phys_addr(0xffff_ffff_8000_0000), Err(N64Error::UnrecognizedVirtualAddress(0xffff_ffff_8000_0000)));
}

#[test]
fn first_fetch_after_reset_reads_rom_start() {
    let n64 = machine(&[0xdead_beef]);
    assert_eq!(n64.cpu().read_instruction(RESET_PC), Ok(Instruction(0xdead_beef)));
    assert_eq!(n64.cpu().read_word(RESET_PC), Ok(0xdead_beef));
}

#[test]
fn lui_ori_loads_a_constant() {
    let mut n64 = machine(&[lui(T0, 0xbfc0), ori(T0, T0, 0x0010), lui(T1, 0x1234), ori(T1, T1, 0x5678)]);
    assert_eq!(n64.run_instructions(4), Ok(()));
    assert_eq!(gpr(&n64, T0), 0xffff_ffff_bfc0_0010);
    assert_eq!(gpr(&n64, T1), 0x1234_5678);
    assert_eq!(n64.cpu().reg_pc(), RESET_PC + 16);
}

#[test]
fn load_word_sign_extends() {
    let mut n64 = machine(&[lui(T0, 0xbfc0), i_type(0b100011, T0, T1, 0x10), 0, 0, 0x8000_0001]);
    assert_eq!(n64.cpu().read_word(RESET_PC + 0x10), Ok(0x8000_0001));
    assert_eq!(n64.run_instructions(2), Ok(()));
    assert_eq!(gpr(&n64, T1), 0xffff_ffff_8000_0001);
}

#[test]
fn load_word_from_unmapped_address_faults() {
    let mut n64 = machine(&[i_type(0b100011, 0, T1, 0x10)]);
    assert_eq!(n64.run_instruction(), Err(N64Error::UnrecognizedVirtualAddress(0x10)));
    assert_eq!(n64.cpu().reg_pc(), RESET_PC + 4);
}

#[test]
fn store_word_faults() {
    let mut n64 = machine(&[lui(T0, 0xa000), i_type(0b101011, T0, T1, 0)]);
    assert_eq!(n64.run_instruction(), Ok(()));
    assert_eq!(n64.run_instruction(), Err(N64Error::UnrecognizedPhysicalAddress(0)));
}

#[test]
fn addiu_wraps() {
    let mut n64 = machine(&[addiu(T0, 0, 0xffff), addiu(T1, T0, 1)]);
    assert_eq!(n64.run_instructions(2), Ok(()));
    assert_eq!(gpr(&n64, T0), u64::MAX);
    assert_eq!(gpr(&n64, T1), 0);
}

#[test]
fn addi_adds_negative_immediate() {
    let mut n64 = machine(&[addiu(1, 0, 5), addi(1, 1, 0xffff)]);
    assert_eq!(n64.run_instructions(2), Ok(()));
    assert_eq!(gpr(&n64, 1), 4);
    let mut n64 = machine(&[addiu(T0, 0, 0xffff), addi(T1, T0, 1)]);
    assert_eq!(n64.run_instructions(2), Ok(()));
    assert_eq!(gpr(&n64, T1), 0);
}

#[test]
fn addi_faults_on_signed_overflow() {
    let mut cpu = Cpu::new(Interconnect::new(vec![]));
    cpu.write_reg_gpr(T0 as usize, 0x7fff_ffff_ffff_ffff);
    assert_eq!(cpu.execute_step(Instruction(addi(T1, T0, 1))), Err(N64Error::AdditionOverflow));
    assert_eq!(cpu.read_reg_gpr(T1 as usize), 0);
    cpu.write_reg_gpr(T0 as usize, 0x8000_0000_0000_0000);
    assert_eq!(cpu.execute_step(Instruction(addi(T1, T0, 0xffff))), Err(N64Error::AdditionOverflow));
    assert_eq!(cpu.execute_step(Instruction(addi(T1, T0, 1))), Ok(Step::Completed));
    assert_eq!(cpu.read_reg_gpr(T1 as usize), 0x8000_0000_0000_0001);
}

#[test]
fn addi_five_minus_one_is_four() {
    let mut cpu = Cpu::new(Interconnect::new(vec![]));
    assert_eq!(cpu.execute_instruction(Instruction(0x2401_0005)), Ok(()));
    assert_eq!(cpu.execute_instruction(Instruction(0x2021_ffff)), Ok(()));
    assert_eq!(cpu.read_reg_gpr(1), 4);
}

#[test]
fn branch_runs_delay_slot() {
    let mut cpu = Cpu::new(Interconnect::new(rom(&[lui(T1, 0x1234)])));
    let beq = Instruction(i_type(0b000100, 0, 0, 2));
    assert_eq!(cpu.branch(beq, true), Ok(true));
    assert_eq!(cpu.reg_pc(), RESET_PC + 8);
    assert_eq!(cpu.read_reg_gpr(T1 as usize), 0x1234_0000);
    assert_eq!(cpu.branch(beq, false), Ok(false));
    assert_eq!(cpu.reg_pc(), RESET_PC + 8);
}

#[test]
fn branch_delay_slot_fault_is_reported() {
    let mut cpu = Cpu::new(Interconnect::new(vec![]));
    let beq = Instruction(i_type(0b000100, 0, 0, 2));
    assert_eq!(cpu.branch(beq, true), Err(N64Error::PifRomTooShort(PIF_ROM_START)));
    assert_eq!(cpu.reg_pc(), RESET_PC + 8);
}

#[test]
fn branch_likely_method() {
    let mut cpu = Cpu::new(Interconnect::new(rom(&[ori(T0, 0, 3)])));
    let beql = Instruction(i_type(0b010100, 0, 0, 3));
    assert_eq!(cpu.branch_likely(beql, false), Ok(()));
    assert_eq!(cpu.reg_pc(), RESET_PC + 4);
    assert_eq!(cpu.read_reg_gpr(T0 as usize), 0);
    let mut cpu = Cpu::new(Interconnect::new(rom(&[ori(T0, 0, 3)])));
    assert_eq!(cpu.branch_likely(beql, true), Ok(()));
    assert_eq!(cpu.reg_pc(), RESET_PC + 12);
    assert_eq!(cpu.read_reg_gpr(T0 as usize), 3);
}

#[test]
fn andi_or_srl() {
    let mut n64 = machine(&[
        addiu(T0, 0, 0xffff),
        andi(T1, T0, 0x0ff0),
        r_type(T0, 0, 10, 0, 0b100101),
        r_type(0, T0, 11, 4, 0b000010),
        ori(12, 0, 0x8000),
        r_type(0, 12, 13, 1, 0b000010),
    ]);
    assert_eq!(n64.run_instructions(6), Ok(()));
    assert_eq!(gpr(&n64, T1), 0x0ff0);
    assert_eq!(gpr(&n64, 10), u64::MAX);
    assert_eq!(gpr(&n64, 11), u64::MAX);
    assert_eq!(gpr(&n64, 13), 0x4000);
}

#[test]
fn mtc0_writes_config() {
    let mut n64 = machine(&[lui(T0, 0x0600), ori(T0, T0, 0x0002), mtc0(T0, 16)]);
    assert_eq!(n64.run_instructions(3), Ok(()));
    let cfg = n64.cpu().cp0().reg_config;
    assert_eq!(cfg.data_transfer_pattern, DataTransferPattern::DxxDxx);
    assert_eq!(cfg.endianness, Endianness::Little);
    assert!(!cfg.kseg0_cache_enabled());
}

#[test]
fn mtc0_faults() {
    let mut n64 = machine(&[ori(T0, 0, 1), mtc0(T0, 5)]);
    assert_eq!(n64.run_instructions(2), Err(N64Error::UnrecognizedCp0Register(5)));
    let mut n64 = machine(&[lui(T0, 0x0100), mtc0(T0, 16)]);
    assert_eq!(n64.run_instructions(2), Err(N64Error::InvalidDataTransferPattern(0x0100_0000)));
    let mut n64 = machine(&[ori(T0, 0, 0x18), mtc0(T0, 12)]);
    assert_eq!(n64.run_instructions(2), Err(N64Error::InvalidKsuBits(0x18)));
}

#[test]
fn taken_branch_runs_delay_slot_then_jumps() {
    let mut n64 = machine(&[i_type(0b000100, 0, 0, 3), ori(T0, 0, 1), ori(T1, 0, 2)]);
    assert_eq!(n64.run_instruction(), Ok(()));
    assert_eq!(gpr(&n64, T0), 1);
    assert_eq!(gpr(&n64, T1), 0);
    assert_eq!(n64.cpu().reg_pc(), RESET_PC + 16);
}

#[test]
fn branch_with_negative_offset() {
    let nop = ori(0, 0, 0);
    let mut n64 = machine(&[nop, ori(T0, 0, 1), i_type(0b000101, T0, 0, 0xfffd), nop]);
    assert_eq!(n64.run_instructions(3), Ok(()));
    assert_eq!(n64.cpu().reg_pc(), RESET_PC);
}

#[test]
fn untaken_branch_falls_through_to_delay_slot() {
    let mut n64 = machine(&[i_type(0b000101, 0, 0, 5), ori(T0, 0, 1)]);
    assert_eq!(n64.run_instruction(), Ok(()));
    assert_eq!(n64.cpu().reg_pc(), RESET_PC + 4);
    assert_eq!(gpr(&n64, T0), 0);
    assert_eq!(n64.run_instruction(), Ok(()));
    assert_eq!(gpr(&n64, T0), 1);
}

#[test]
fn untaken_branch_likely_skips_delay_slot() {
    let mut n64 = machine(&[ori(T0, 0, 1), i_type(0b010100, T0, 0, 5), ori(T1, 0, 9), ori(T1, 0, 3)]);
    assert_eq!(n64.run_instructions(2), Ok(()));
    assert_eq!(n64.cpu().reg_pc(), RESET_PC + 12);
    assert_eq!(n64.run_instruction(), Ok(()));
    assert_eq!(gpr(&n64, T1), 3);
    let mut n64 = machine(&[i_type(0b010101, 0, 0, 5), ori(T1, 0, 9)]);
    assert_eq!(n64.run_instruction(), Ok(()));
    assert_eq!(n64.cpu().reg_pc(), RESET_PC + 8);
    assert_eq!(gpr(&n64, T1), 0);
}

#[test]
fn taken_branch_likely_runs_delay_slot() {
    let mut n64 = machine(&[ori(T0, 0, 1), i_type(0b010101, T0, 0, 2), ori(T1, 0, 9)]);
    assert_eq!(n64.run_instructions(2), Ok(()));
    assert_eq!(gpr(&n64, T1), 9);
    assert_eq!(n64.cpu().reg_pc(), RESET_PC + 16);
}

#[test]
fn jump_register() {
    let mut n64 = machine(&[lui(T0, 0xbfc0), ori(T0, T0, 0x20), r_type(T0, 0, 0, 0, 0b001000), ori(T1, 0, 7)]);
    assert_eq!(n64.run_instructions(3), Ok(()));
    assert_eq!(n64.cpu().reg_pc(), 0xffff_ffff_bfc0_0020);
    assert_eq!(gpr(&n64, T1), 7);
}

#[test]
fn unrecognized_instructions_fault() {
    let mut n64 = machine(&[0xffff_ffff]);
    assert_eq!(n64.run_instruction(), Err(N64Error::UnrecognizedInstruction(0xffff_ffff)));
    let mut n64 = machine(&[r_type(0, 0, 0, 0, 0b111111)]);
    assert_eq!(n64.run_instruction(), Err(N64Error::UnrecognizedInstruction(0b111111)));
}

#[test]
fn fetch_past_rom_image_faults() {
    let mut n64 = machine(&[]);
    assert_eq!(n64.run_instruction(), Err(N64Error::PifRomTooShort(PIF_ROM_START)));
    assert_eq!(n64.cpu().reg_pc(), RESET_PC);
}

#[test]
fn endless_delay_slot_chain_is_cut_off() {
    assert_eq!(DELAY_SLOT_CHAIN_LIMIT, 1_000_000);
    let mut n64 = machine(&[i_type(0b000100, 0, 0, 0xffff), i_type(0b000100, 0, 0, 1)]);
    assert_eq!(n64.run_instruction(), Err(N64Error::DelaySlotChainTooLong));
}

#[test]
fn execute_step_reports_delay_slot() {
    let mut cpu = Cpu::new(Interconnect::new(vec![]));
    assert_eq!(cpu.execute_step(Instruction(i_type(0b000100, 0, 0, 2))), Ok(Step::DelaySlot(RESET_PC)));
    assert_eq!(cpu.reg_pc(), RESET_PC + 8);
    assert_eq!(cpu.execute_step(Instruction(ori(T0, 0, 1))), Ok(Step::Completed));
}

#[test]
fn power_on_reset_restores_pc_and_config() {
    let mut n64 = machine(&[lui(T0, 0x0600), mtc0(T0, 16), ori(T1, 0, 5)]);
    assert_eq!(n64.run_instructions(3), Ok(()));
    n64.power_on_reset();
    assert_eq!(n64.cpu().reg_pc(), RESET_PC);
    assert_eq!(n64.cpu().cp0().reg_config.data_transfer_pattern, DataTransferPattern::Normal);
    assert_eq!(n64.cpu().cp0().reg_config.endianness, Endianness::Big);
    assert_eq!(gpr(&n64, T1), 5);
}

#[test]
fn run_instructions_stops_at_first_fault() {
    let mut n64 = machine(&[ori(T0, 0, 1), 0xffff_ffff, ori(T1, 0, 1)]);
    assert_eq!(n64.run_instructions(3), Err(N64Error::UnrecognizedInstruction(0xffff_ffff)));
    assert_eq!(gpr(&n64, T0), 1);
    assert_eq!(gpr(&n64, T1), 0);
    assert_eq!(n64.cpu().reg_pc(), RESET_PC + 8);
}

#[test]
fn debugger_actions() {
    let mut dbg = Debugger::new(machine(&[ori(T0, 0, 1), ori(T0, T0, 2)]));
    assert_eq!(dbg.last_command(), None);
    assert_eq!(dbg.command_action(""), DebuggerAction::Idle);
    assert_eq!(dbg.command_action("bogus"), DebuggerAction::Invalid);
    assert_eq!(dbg.command_action("step 2"), DebuggerAction::Step(2));
    assert_eq!(dbg.last_command(), Some(Command::Step(2)));
    assert_eq!(dbg.command_action("nope"), DebuggerAction::Invalid);
    assert_eq!(dbg.last_command(), Some(Command::Step(2)));
    assert_eq!(dbg.command_action(""), DebuggerAction::Step(2));
    assert_eq!(dbg.step(), Ok(()));
    assert_eq!(dbg.n64().cpu().reg_pc(), RESET_PC + 4);
    assert_eq!(dbg.step(), Ok(()));
    assert_eq!(dbg.n64().cpu().read_reg_gpr(T0 as usize), 3);
    assert_eq!(dbg.command_action("q"), DebuggerAction::Exit);
    assert_eq!(dbg.command_action(""), DebuggerAction::Exit);
}

#[test]
fn runs_compose() {
    let program = [ori(T0, 0, 1), addiu(T0, T0, 2), i_type(0b000100, 0, 0, 1), ori(T1, 0, 4), ori(T1, 0, 8), andi(T0, T0, 1)];
    let mut a = machine(&program);
    let mut b = machine(&program);
    assert_eq!(a.run_instructions(2), Ok(()));
    assert_eq!(a.run_instructions(3), Ok(()));
    assert_eq!(b.run_instructions(5), Ok(()));
    assert_eq!(a.cpu().reg_pc(), b.cpu().reg_pc());
    for i in 0..32 {
        assert_eq!(a.cpu().read_reg_gpr(i), b.cpu().read_reg_gpr(i));
    }
    assert_eq!(gpr(&a, T0), 1);
    assert_eq!(gpr(&a, T1), 8);
}

#[test]
fn fields_recompose() {
    let w: u32 = 0x8d28_0010;
    let i = Instruction(w);
    let op = i.opcode().unwrap().to_u32();
    assert_eq!((op << 26) | ((i.rs() as u32) << 21) | ((i.rt() as u32) << 16) | i.imm(), w);
    assert_eq!((i.rd() << 11) | (i.sa() << 6) | (w & 0x3f), i.imm());
}

#[test]
fn instructions_never_change_r0() {
    let mut n64 = machine(&[ori(0, 0, 5), addiu(0, 0, 7), lui(0, 0x1234), ori(T0, 0, 1)]);
    assert_eq!(n64.run_instructions(4), Ok(()));
    assert_eq!(gpr(&n64, 0), 0);
    assert_eq!(gpr(&n64, T0), 1);
}
