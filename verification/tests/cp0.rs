use n64::cpu::cp0::reg_config::{DataTransferPattern, Endianness, RegConfig};
use n64::cpu::cp0::reg_status::{Mode, RegStatus, TlbGeneralExceptionVectorLocation};
use n64::cpu::cp0::Cp0;
use n64::N64Error;

#[test]
fn config_fields_decode() {
    let c = RegConfig::from_word(0x0600_8008 | 0b011).unwrap();
    assert_eq!(c.data_transfer_pattern, DataTransferPattern::DxxDxx);
    assert_eq!(c.endianness, Endianness::Big);
    assert!(c.cu);
    assert_eq!(c.kseg0_cache_enable_bits, [true, true, false]);
    assert!(c.kseg0_cache_enabled());

    let c = RegConfig::from_word(0).unwrap();
    assert_eq!(c.data_transfer_pattern, DataTransferPattern::Normal);
    assert_eq!(c.endianness, Endianness::Little);
    assert!(!c.cu);
}

#[test]
fn kseg0_uncached_only_for_k0_two() {
    for k0 in 0u32..8 {
        let c = RegConfig::from_word(k0).unwrap();
        assert_eq!(c.kseg0_cache_enabled(), k0 != 2, "k0 = {}", k0);
    }
}

#[test]
fn invalid_ep_is_rejected() {
    assert_eq!(
        RegConfig::from_word(0x0100_0000).unwrap_err(),
        N64Error::InvalidDataTransferPattern(0x0100_0000)
    );
    assert!(DataTransferPattern::from_word(0x0f00_0000).is_err());
    assert_eq!(DataTransferPattern::from_word(0x0600_0000), Ok(DataTransferPattern::DxxDxx));
}

#[test]
fn config_reset() {
    let mut c = RegConfig::from_word(0x0600_0007).unwrap();
    c.power_on_reset();
    assert_eq!(c.data_transfer_pattern, DataTransferPattern::Normal);
    assert_eq!(c.endianness, Endianness::Big);
    assert_eq!(c.kseg0_cache_enable_bits, [true, true, true]);
    let d = RegConfig::default();
    assert_eq!(d.endianness, Endianness::Big);
    assert_eq!(d.data_transfer_pattern, DataTransferPattern::Normal);
}

#[test]
fn status_fields_decode() {
    let s = RegStatus::from_word(0x5440_0000 | 0x0000_8000 | 0x0000_0010 | 0b101).unwrap();
    assert_eq!(s.coprocessor_usability, [true, false, true, false]);
    assert!(!s.low_power);
    assert!(s.additional_fp_regs);
    assert!(!s.reverse_endian);
    assert_eq!(
        s.diagnostic_status.tlb_general_exception_vector_location,
        TlbGeneralExceptionVectorLocation::Bootstrap
    );
    assert!(s.interrupt_mask.timer_interrupt);
    assert_eq!(s.mode, Mode::User);
    assert!(s.error_level);
    assert!(!s.exception_level);
    assert!(s.interrupts_enabled);
}

#[test]
fn reserved_ksu_is_rejected() {
    assert_eq!(RegStatus::from_word(0x18).unwrap_err(), N64Error::InvalidKsuBits(0x18));
    assert_eq!(Mode::from_word(0x08), Ok(Mode::Supervisor));
    assert_eq!(Mode::from_word(0x00), Ok(Mode::Kernel));
}

#[test]
fn cp0_write_status_and_config() {
    let mut cp0 = Cp0::default();
    assert_eq!(cp0.reg_config.endianness, Endianness::Big);
    assert_eq!(cp0.reg_status.mode, Mode::Kernel);
    assert_eq!(cp0.write_reg(12, 0x1_0000_0001), Ok(()));
    assert!(cp0.reg_status.interrupts_enabled);
    assert_eq!(cp0.write_reg(16, 0x0600_0002), Ok(()));
    assert_eq!(cp0.reg_config.data_transfer_pattern, DataTransferPattern::DxxDxx);
    assert_eq!(cp0.reg_config.endianness, Endianness::Little);
    assert!(!cp0.reg_config.kseg0_cache_enabled());
    cp0.power_on_reset();
    assert_eq!(cp0.reg_config.endianness, Endianness::Big);
    assert_eq!(cp0.reg_config.data_transfer_pattern, DataTransferPattern::Normal);
    assert!(cp0.reg_status.interrupts_enabled);
}

#[test]
fn cp0_faulting_writes_change_nothing() {
    let mut cp0 = Cp0::default();
    assert_eq!(cp0.write_reg(5, 1), Err(N64Error::UnrecognizedCp0Register(5)));
    assert_eq!(cp0.write_reg(16, 0x0300_0000), Err(N64Error::InvalidDataTransferPattern(0x0300_0000)));
    assert_eq!(cp0.write_reg(12, 0x18), Err(N64Error::InvalidKsuBits(0x18)));
    assert_eq!(cp0.reg_config.endianness, Endianness::Big);
    assert_eq!(cp0.reg_status.mode, Mode::Kernel);
}
