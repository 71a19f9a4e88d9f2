use vstd::prelude::*;

use crate::cpu::cp0::reg_config::{test_bit, word_bit};
use crate::error::N64Error;

verus! {

/// The KSU field (bits 4:3) of a Status register value.
pub open spec fn ksu_field(value: u32) -> u32 {
    (value >> 3) & 0b11
}

/// KSU: the privilege mode of the processor.
#[derive(Debug, Clone, Copy, PartialEq, Eq, Structural)]
pub enum Mode {
    Kernel,
    Supervisor,
    User,
}

impl Mode {
    /// The mode a KSU field encodes; the value 3 is reserved.
    pub open spec fn spec_from_word(value: u32) -> Option<Mode> {
        if ksu_field(value) == 0 {
            Some(Mode::Kernel)
        } else if ksu_field(value) == 1 {
            Some(Mode::Supervisor)
        } else if ksu_field(value) == 2 {
            Some(Mode::User)
        } else {
            None
        }
    }

    /// Decodes the KSU field of a Status register value.
    pub fn from_word(value: u32) -> (r: Result<Mode, N64Error>)
        ensures
            match Mode::spec_from_word(value) {
                Some(m) => r == Ok::<Mode, N64Error>(m),
                None => r == Err::<Mode, N64Error>(N64Error::InvalidKsuBits(value)),
            },
    {
        let ksu = (value >> 3) & 0b11;
        if ksu == 0 {
            Ok(Mode::Kernel)
        } else if ksu == 1 {
            Ok(Mode::Supervisor)
        } else if ksu == 2 {
            Ok(Mode::User)
        } else {
            Err(N64Error::InvalidKsuBits(value))
        }
    }
}

/// BEV: where the TLB miss and general exception vectors lie.
#[derive(Debug, Clone, Copy, PartialEq, Eq, Structural)]
pub enum TlbGeneralExceptionVectorLocation {
    Normal,
    Bootstrap,
}

/// The DS field (bits 24:16) of the Status register.
#[derive(Debug, Clone, Copy)]
pub struct DiagnosticStatus {
    /// ITS (bit 24)
    pub instruction_trace_support: bool,
    /// BEV (bit 22)
    pub tlb_general_exception_vector_location: TlbGeneralExceptionVectorLocation,
    /// TS (bit 21)
    pub tlb_shutdown: bool,
    /// SR (bit 20)
    pub soft_reset_or_nmi_occurred: bool,
    /// CH (bit 18)
    pub condition_bit: bool,
}

impl DiagnosticStatus {
    pub open spec fn spec_from_word(value: u32) -> DiagnosticStatus {
        DiagnosticStatus {
            instruction_trace_support: word_bit(value, 24),
            tlb_general_exception_vector_location: if word_bit(value, 22) {
                TlbGeneralExceptionVectorLocation::Bootstrap
            } else {
                TlbGeneralExceptionVectorLocation::Normal
            },
            tlb_shutdown: word_bit(value, 21),
            soft_reset_or_nmi_occurred: word_bit(value, 20),
            condition_bit: word_bit(value, 18),
        }
    }

    /// Decodes the DS field of a Status register value.
    pub fn from_word(value: u32) -> (r: DiagnosticStatus)
        ensures
            r == DiagnosticStatus::spec_from_word(value),
    {
        DiagnosticStatus {
            instruction_trace_support: test_bit(value, 24),
            tlb_general_exception_vector_location: if test_bit(value, 22) {
                TlbGeneralExceptionVectorLocation::Bootstrap
            } else {
                TlbGeneralExceptionVectorLocation::Normal
            },
            tlb_shutdown: test_bit(value, 21),
            soft_reset_or_nmi_occurred: test_bit(value, 20),
            condition_bit: test_bit(value, 18),
        }
    }
}

/// The IM field (bits 15:8) of the Status register.
#[derive(Debug, Clone, Copy)]
pub struct InterruptMask {
    /// IM7 (bit 15)
    pub timer_interrupt: bool,
    /// IM6..IM2 (bits 14:10), lowest first.
    pub external_interrupt_write_req: [bool; 5],
    /// IM1..IM0 (bits 9:8), lowest first.
    pub software_interrupt_cause_reg: [bool; 2],
}

impl Default for DiagnosticStatus {
    /// All diagnostic bits clear.
    fn default() -> (r: DiagnosticStatus)
        ensures
            r == DiagnosticStatus::spec_from_word(0),
    {
        proof {
            lemma_no_bit_of_zero();
        }
        DiagnosticStatus {
            instruction_trace_support: false,
            tlb_general_exception_vector_location: TlbGeneralExceptionVectorLocation::Normal,
            tlb_shutdown: false,
            soft_reset_or_nmi_occurred: false,
            condition_bit: false,
        }
    }
}

impl InterruptMask {
    pub open spec fn spec_from_word(value: u32) -> InterruptMask {
        InterruptMask {
            timer_interrupt: word_bit(value, 15),
            external_interrupt_write_req: [
                word_bit(value, 10),
                word_bit(value, 11),
                word_bit(value, 12),
                word_bit(value, 13),
                word_bit(value, 14),
            ],
            software_interrupt_cause_reg: [word_bit(value, 8), word_bit(value, 9)],
        }
    }

    /// Decodes the IM field of a Status register value.
    pub fn from_word(value: u32) -> (r: InterruptMask)
        ensures
            r == InterruptMask::spec_from_word(value),
    {
        let e0 = test_bit(value, 10);
        let e1 = test_bit(value, 11);
        let e2 = test_bit(value, 12);
        let e3 = test_bit(value, 13);
        let e4 = test_bit(value, 14);
        let s0 = test_bit(value, 8);
        let s1 = test_bit(value, 9);
        let r = InterruptMask {
            timer_interrupt: test_bit(value, 15),
            external_interrupt_write_req: [e0, e1, e2, e3, e4],
            software_interrupt_cause_reg: [s0, s1],
        };
        let ghost g = InterruptMask::spec_from_word(value);
        assert(r.external_interrupt_write_req@ =~= g.external_interrupt_write_req@);
        assert(r.software_interrupt_cause_reg@ =~= g.software_interrupt_cause_reg@);
        r
    }
}

/// The Status register (CP0 register 12): operating mode, interrupt enables
/// and diagnostic states.
#[derive(Debug, Clone, Copy)]
pub struct RegStatus {
    /// CU3..CU0 (bits 31:28), CU0 first.
    pub coprocessor_usability: [bool; 4],
    /// RP (bit 27)
    pub low_power: bool,
    /// FR (bit 26)
    pub additional_fp_regs: bool,
    /// RE (bit 25)
    pub reverse_endian: bool,
    /// DS (bits 24:16)
    pub diagnostic_status: DiagnosticStatus,
    /// IM (bits 15:8)
    pub interrupt_mask: InterruptMask,
    /// KX (bit 7)
    pub kernel_mode_64bit_addressing: bool,
    /// SX (bit 6)
    pub supervisor_mode_64bit_addressing: bool,
    /// UX (bit 5)
    pub user_mode_64bit_addressing: bool,
    /// KSU (bits 4:3)
    pub mode: Mode,
    /// ERL (bit 2)
    pub error_level: bool,
    /// EXL (bit 1)
    pub exception_level: bool,
    /// IE (bit 0)
    pub interrupts_enabled: bool,
}

impl Default for InterruptMask {
    /// All interrupts masked.
    fn default() -> (r: InterruptMask)
        ensures
            r == InterruptMask::spec_from_word(0),
    {
        proof {
            lemma_no_bit_of_zero();
        }
        let r = InterruptMask {
            timer_interrupt: false,
            external_interrupt_write_req: [false, false, false, false, false],
            software_interrupt_cause_reg: [false, false],
        };
        let ghost g = InterruptMask::spec_from_word(0);
        assert(r.external_interrupt_write_req@ =~= g.external_interrupt_write_req@);
        assert(r.software_interrupt_cause_reg@ =~= g.software_interrupt_cause_reg@);
        r
    }
}

impl RegStatus {
    /// The register a Status value decodes to, when its KSU field is not reserved.
    pub open spec fn spec_from_word(value: u32) -> Option<RegStatus> {
        match Mode::spec_from_word(value) {
            Some(mode) => Some(
                RegStatus {
                    coprocessor_usability: [
                        word_bit(value, 28),
                        word_bit(value, 29),
                        word_bit(value, 30),
                        word_bit(value, 31),
                    ],
                    low_power: word_bit(value, 27),
                    additional_fp_regs: word_bit(value, 26),
                    reverse_endian: word_bit(value, 25),
                    diagnostic_status: DiagnosticStatus::spec_from_word(value),
                    interrupt_mask: InterruptMask::spec_from_word(value),
                    kernel_mode_64bit_addressing: word_bit(value, 7),
                    supervisor_mode_64bit_addressing: word_bit(value, 6),
                    user_mode_64bit_addressing: word_bit(value, 5),
                    mode,
                    error_level: word_bit(value, 2),
                    exception_level: word_bit(value, 1),
                    interrupts_enabled: word_bit(value, 0),
                },
            ),
            None => None,
        }
    }

    /// Decodes a value written to the Status register.
    ///
    /// Fails exactly when the KSU field holds the reserved value 3.
    pub fn from_word(value: u32) -> (r: Result<RegStatus, N64Error>)
        ensures
            match RegStatus::spec_from_word(value) {
                Some(s) => r matches Ok(rs) && rs == s,
                None => r == Err::<RegStatus, N64Error>(N64Error::InvalidKsuBits(value)),
            },
    {
        let mode = match Mode::from_word(value) {
            Ok(m) => m,
            Err(e) => {
                return Err(e);
            },
        };
        let c0 = test_bit(value, 28);
        let c1 = test_bit(value, 29);
        let c2 = test_bit(value, 30);
        let c3 = test_bit(value, 31);
        let r = RegStatus {
            coprocessor_usability: [c0, c1, c2, c3],
            low_power: test_bit(value, 27),
            additional_fp_regs: test_bit(value, 26),
            reverse_endian: test_bit(value, 25),
            diagnostic_status: DiagnosticStatus::from_word(value),
            interrupt_mask: InterruptMask::from_word(value),
            kernel_mode_64bit_addressing: test_bit(value, 7),
            supervisor_mode_64bit_addressing: test_bit(value, 6),
            user_mode_64bit_addressing: test_bit(value, 5),
            mode,
            error_level: test_bit(value, 2),
            exception_level: test_bit(value, 1),
            interrupts_enabled: test_bit(value, 0),
        };
        let ghost g = RegStatus::spec_from_word(value)->Some_0;
        assert(r.coprocessor_usability@ =~= g.coprocessor_usability@);
        Ok(r)
    }
}

/// No bit of zero is set.
pub proof fn lemma_no_bit_of_zero()
    ensures
        forall|n: u32| !#[trigger] word_bit(0, n),
{
    assert forall|n: u32| !#[trigger] word_bit(0, n) by {
        assert(((0u32 >> n) & 1 == 1) == false) by (bit_vector);
    }
}

impl Default for RegStatus {
    /// The register with every field clear: kernel mode, interrupts disabled.
    fn default() -> (r: RegStatus)
        ensures
            RegStatus::spec_from_word(0) == Some(r),
    {
        proof {
            lemma_no_bit_of_zero();
            assert(ksu_field(0) == 0) by (bit_vector);
        }
        let r = RegStatus {
            coprocessor_usability: [false, false, false, false],
            low_power: false,
            additional_fp_regs: false,
            reverse_endian: false,
            diagnostic_status: DiagnosticStatus::default(),
            interrupt_mask: InterruptMask::default(),
            kernel_mode_64bit_addressing: false,
            supervisor_mode_64bit_addressing: false,
            user_mode_64bit_addressing: false,
            mode: Mode::Kernel,
            error_level: false,
            exception_level: false,
            interrupts_enabled: false,
        };
        let ghost g = RegStatus::spec_from_word(0)->Some_0;
        assert(r.coprocessor_usability@ =~= g.coprocessor_usability@);
        r
    }
}

/// What a Status value sets, read off the value with bit masks: the write is
/// accepted exactly when bits 4:3 are not both set; KSU 00, 01, 10 select
/// kernel, supervisor and user mode; and each flag is its bit of the value.
pub proof fn lemma_status_fields_by_mask(value: u32)
    ensures
        RegStatus::spec_from_word(value) is Some <==> value & 0x18 != 0x18,
        RegStatus::spec_from_word(value) matches Some(st) ==> {
            &&& (st.mode == Mode::Kernel) == (value & 0x18 == 0x00)
            &&& (st.mode == Mode::Supervisor) == (value & 0x18 == 0x08)
            &&& (st.mode == Mode::User) == (value & 0x18 == 0x10)
            &&& st.interrupts_enabled == (value & 0x1 != 0)
            &&& st.exception_level == (value & 0x2 != 0)
            &&& st.error_level == (value & 0x4 != 0)
            &&& st.user_mode_64bit_addressing == (value & 0x20 != 0)
            &&& st.supervisor_mode_64bit_addressing == (value & 0x40 != 0)
            &&& st.kernel_mode_64bit_addressing == (value & 0x80 != 0)
            &&& st.interrupt_mask.software_interrupt_cause_reg@[0] == (value & 0x100 != 0)
            &&& st.interrupt_mask.software_interrupt_cause_reg@[1] == (value & 0x200 != 0)
            &&& st.interrupt_mask.external_interrupt_write_req@[0] == (value & 0x400 != 0)
            &&& st.interrupt_mask.external_interrupt_write_req@[1] == (value & 0x800 != 0)
            &&& st.interrupt_mask.external_interrupt_write_req@[2] == (value & 0x1000 != 0)
            &&& st.interrupt_mask.external_interrupt_write_req@[3] == (value & 0x2000 != 0)
            &&& st.interrupt_mask.external_interrupt_write_req@[4] == (value & 0x4000 != 0)
            &&& st.interrupt_mask.timer_interrupt == (value & 0x8000 != 0)
            &&& st.diagnostic_status.condition_bit == (value & 0x4_0000 != 0)
            &&& st.diagnostic_status.soft_reset_or_nmi_occurred == (value & 0x10_0000 != 0)
            &&& st.diagnostic_status.tlb_shutdown == (value & 0x20_0000 != 0)
            &&& (st.diagnostic_status.tlb_general_exception_vector_location
                == TlbGeneralExceptionVectorLocation::Bootstrap) == (value & 0x40_0000 != 0)
            &&& st.diagnostic_status.instruction_trace_support == (value & 0x100_0000 != 0)
            &&& st.reverse_endian == (value & 0x200_0000 != 0)
            &&& st.additional_fp_regs == (value & 0x400_0000 != 0)
            &&& st.low_power == (value & 0x800_0000 != 0)
            &&& st.coprocessor_usability@[0] == (value & 0x1000_0000 != 0)
            &&& st.coprocessor_usability@[1] == (value & 0x2000_0000 != 0)
            &&& st.coprocessor_usability@[2] == (value & 0x4000_0000 != 0)
            &&& st.coprocessor_usability@[3] == (value & 0x8000_0000 != 0)
        },
{
    assert({
        &&& (((value >> 3) & 0b11 == 0) == (value & 0x18 == 0x00))
        &&& (((value >> 3) & 0b11 == 1) == (value & 0x18 == 0x08))
        &&& (((value >> 3) & 0b11 == 2) == (value & 0x18 == 0x10))
        &&& (((value >> 3) & 0b11 == 3) == (value & 0x18 == 0x18))
        &&& ((value >> 3) & 0b11) < 4
        &&& (((value >> 0) & 1 == 1) == (value & 0x1 != 0))
        &&& (((value >> 1) & 1 == 1) == (value & 0x2 != 0))
        &&& (((value >> 2) & 1 == 1) == (value & 0x4 != 0))
        &&& (((value >> 5) & 1 == 1) == (value & 0x20 != 0))
        &&& (((value >> 6) & 1 == 1) == (value & 0x40 != 0))
        &&& (((value >> 7) & 1 == 1) == (value & 0x80 != 0))
        &&& (((value >> 8) & 1 == 1) == (value & 0x100 != 0))
        &&& (((value >> 9) & 1 == 1) == (value & 0x200 != 0))
        &&& (((value >> 10) & 1 == 1) == (value & 0x400 != 0))
        &&& (((value >> 11) & 1 == 1) == (value & 0x800 != 0))
        &&& (((value >> 12) & 1 == 1) == (value & 0x1000 != 0))
        &&& (((value >> 13) & 1 == 1) == (value & 0x2000 != 0))
        &&& (((value >> 14) & 1 == 1) == (value & 0x4000 != 0))
        &&& (((value >> 15) & 1 == 1) == (value & 0x8000 != 0))
        &&& (((value >> 18) & 1 == 1) == (value & 0x4_0000 != 0))
        &&& (((value >> 20) & 1 == 1) == (value & 0x10_0000 != 0))
        &&& (((value >> 21) & 1 == 1) == (value & 0x20_0000 != 0))
        &&& (((value >> 22) & 1 == 1) == (value & 0x40_0000 != 0))
        &&& (((value >> 24) & 1 == 1) == (value & 0x100_0000 != 0))
        &&& (((value >> 25) & 1 == 1) == (value & 0x200_0000 != 0))
        &&& (((value >> 26) & 1 == 1) == (value & 0x400_0000 != 0))
        &&& (((value >> 27) & 1 == 1) == (value & 0x800_0000 != 0))
        &&& (((value >> 28) & 1 == 1) == (value & 0x1000_0000 != 0))
        &&& (((value >> 29) & 1 == 1) == (value & 0x2000_0000 != 0))
        &&& (((value >> 30) & 1 == 1) == (value & 0x4000_0000 != 0))
        &&& (((value >> 31) & 1 == 1) == (value & 0x8000_0000 != 0))
    }) by (bit_vector);
}

} // verus!
