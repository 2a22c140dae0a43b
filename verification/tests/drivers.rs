use app_core::drv2605::{self, Actuator, Calibration, SequenceStep};
use app_core::pmu::{self, InterruptConfig, InterruptSource, InterruptStatus, Pmu};
use app_core::rtc::{self, DateTime};
use app_core::touch::{mode_echoed, Cst9217, PowerMode, TouchEvent, FT3168, REG_MODE_LATCH, REG_NORMAL};
use app_core::xl9555::{self, Xl9555};

#[test]
fn pmu_chip_id_and_voltage_conversion() {
    assert!(Pmu::check_chip_id::<()>(0x4A).is_ok());
    assert!(matches!(Pmu::check_chip_id::<()>(0x0A), Err(pmu::Error::DeviceNotFound)));
    assert_eq!(Pmu::mv_to_register::<()>(3300).ok(), Some(28));
    assert_eq!(Pmu::mv_to_register::<()>(500).ok(), Some(0));
    assert_eq!(Pmu::mv_to_register::<()>(3500).ok(), Some(30));
    assert!(matches!(Pmu::mv_to_register::<()>(499), Err(pmu::Error::InvalidValue)));
    assert!(matches!(Pmu::mv_to_register::<()>(3501), Err(pmu::Error::InvalidValue)));
    assert_eq!(Pmu::enable_all_rails_mask(), 0x3F);
    assert_eq!(pmu::boot_rails().len(), 6);
}

#[test]
fn pmu_interrupt_bytes_round_trip() {
    let s = InterruptStatus::new(0x12, 0x80, 0x01);
    assert_eq!((s.reg48_byte(), s.reg49_byte(), s.reg4a_byte()), (0x12, 0x80, 0x01));
    assert!(s.is_active(InterruptSource::GaugeNewSoc));
    assert!(s.is_active(InterruptSource::VbusInsert));
    assert!(s.is_active(InterruptSource::BatteryOverVoltage));
    assert!(!s.is_active(InterruptSource::VbusRemove));
    assert!(!s.is_empty());
    assert!(InterruptStatus::new(0, 0, 0).is_empty());
    let c = InterruptConfig::none().enable(InterruptSource::PowerOnShortPress).enable(InterruptSource::VbusInsert);
    assert_eq!((c.reg40_byte(), c.reg41_byte(), c.reg42_byte()), (0, 0x88, 0));
    let c = c.disable(InterruptSource::VbusInsert);
    assert_eq!(c.reg41_byte(), 0x08);
    assert_eq!(InterruptSource::WatchdogExpire.mask(), 1 << 23);
}

#[test]
fn rtc_bcd_and_datetime_round_trip() {
    assert_eq!(rtc::bcd2bin(0x59), 59);
    assert_eq!(rtc::bin2bcd(59), 0x59);
    let dt = DateTime::new(2026, 4, 22, 3, 19, 3, 14);
    assert!(dt.is_valid());
    let buf = rtc::encode_datetime(&dt);
    assert_eq!(buf, [0x14, 0x03, 0x19, 0x22, 0x03, 0x04, 0x26]);
    assert_eq!(rtc::decode_datetime(buf), dt);
    assert!(!DateTime::new(2023, 4, 22, 3, 19, 3, 14).is_valid());
}

#[test]
fn drv2605_device_id_and_sequence() {
    assert_eq!(drv2605::device_id::<()>(0x60).ok(), Some(3));
    assert_eq!(drv2605::device_id::<()>(0xE0).ok(), Some(7));
    assert!(matches!(drv2605::device_id::<()>(0xA0), Err(drv2605::Error::DeviceNotFound)));
    let w = drv2605::sequence_writes(&[SequenceStep::Effect(1), SequenceStep::WaitMs10(10), SequenceStep::Effect(0x81)]);
    assert_eq!(w, vec![(0x04, 1), (0x05, 0x8A), (0x06, 0x01), (0x07, 0)]);
    let nine = [SequenceStep::Effect(5); 9];
    let w = drv2605::sequence_writes(&nine);
    assert_eq!(w.len(), 8);
    assert_eq!(w[7], (0x0B, 5));
    assert_eq!(drv2605::init_writes()[3], (0x05, 0));
}

#[test]
fn drv2605_register_fields() {
    assert_eq!(drv2605::rtp_amplitude(200), 0x7F);
    assert_eq!(drv2605::rtp_amplitude(10), 10);
    assert_eq!(drv2605::actuator_bits(Actuator::ErmOpenLoop, 0xFF, 0x00), (0x7F, 0x20));
    assert_eq!(drv2605::actuator_bits(Actuator::Lra, 0x00, 0xFF), (0x80, 0xFE));
    assert_eq!(drv2605::library_bits(0x17, 0x01), 0x11);
    assert_eq!(drv2605::field_bits(0xFF, 4, 0x07, 0x02), 0xAF);
    assert_eq!(drv2605::flag_bits(0x00, 0x10, true), 0x10);
    assert_eq!(drv2605::flag_bits(0xFF, 0x10, false), 0xEF);
    assert_eq!(drv2605::offset_byte(-1), 0xFF);
    assert_eq!(drv2605::autocal_feedback(0xFF), 0xAB);
    assert_eq!(drv2605::autocal_control4(0x05), 0x35);
    assert_eq!(drv2605::vbat_mv(255), 5600);
    assert_eq!(drv2605::vbat_mv(128), 2810);
    assert_eq!(drv2605::lra_resonance_hz(0), 0);
    assert_eq!(drv2605::lra_resonance_hz(50), 203);
    assert!(drv2605::is_playing(0x01));
    assert!(!drv2605::reset_done(0x80));
    assert_eq!(drv2605::calibration_result(0x08, 1, 2, 3), None);
    let cal = drv2605::calibration_result(0x00, 0x0C, 0x6B, 0xB6).unwrap();
    assert_eq!(cal, Calibration { compensation: 0x0C, back_emf: 0x6B, bemf_gain: 2 });
    assert_eq!(drv2605::restore_feedback(0xB4, &cal), 0xB6);
}

#[test]
fn ft3168_reports_press_then_single_release() {
    let mut t = FT3168::new(());
    assert!(!t.is_pressed());
    assert_eq!(t.read_from(Some(1), Some([0x01, 0x23, 0x0F, 0x45])), TouchEvent::Pressed { x: 0x123, y: 0xF45 });
    assert!(t.is_pressed());
    // A failed read changes nothing.
    assert_eq!(t.read_from(None, None), TouchEvent::Nothing);
    assert!(t.is_pressed());
    assert_eq!(t.read_from(Some(0xF0), None), TouchEvent::Released);
    assert_eq!(t.read_from(Some(0), None), TouchEvent::Nothing);
    assert!(FT3168::<()>::has_points(0x12));
    assert_eq!(PowerMode::Hibernate.bits(), 3);
}

fn report(event: u8, count: u8, x: u16, y: u16) -> [u8; 15] {
    let mut b = [0u8; 15];
    b[0] = 0x10 | event;
    b[1] = (x >> 4) as u8;
    b[2] = (y >> 4) as u8;
    b[3] = (((x & 0x0F) << 4) | (y & 0x0F)) as u8;
    b[5] = count;
    b[6] = 0xAB;
    b
}

#[test]
fn cst9217_decodes_contact_and_lift_off() {
    let mut t = Cst9217::new();
    assert_eq!(t.read_from(Some(report(0x06, 1, 205, 251))), TouchEvent::Pressed { x: 205, y: 251 });
    assert!(t.is_pressed());
    assert_eq!(t.read_from(Some(report(0x00, 1, 205, 251))), TouchEvent::Released);
    assert!(!t.is_pressed());
    assert_eq!(t.read_from(Some(report(0x00, 1, 205, 251))), TouchEvent::Nothing);
}

#[test]
fn cst9217_synthesizes_release_after_many_empty_windows() {
    let mut t = Cst9217::default();
    t.read_from(Some(report(0x06, 1, 10, 20)));
    let empty = [0u8; 15];
    for _ in 0..24 {
        assert_eq!(t.read_from(Some(empty)), TouchEvent::Nothing);
        assert!(t.is_pressed());
    }
    assert_eq!(t.read_from(Some(empty)), TouchEvent::Released);
    assert!(!t.is_pressed());
}

#[test]
fn cst9217_identity_checks() {
    let code = [0x00, 0x00, 0xCA, 0xCA];
    let res = [0x9A, 0x01, 0xF6, 0x01];
    let chip = [0x34, 0x12, 0x17, 0x92];
    let fw = [1, 0, 0, 0, 0, 0, 0, 0];
    let info = app_core::touch::identify(code, res, chip, fw).unwrap();
    assert_eq!((info.chip_id, info.project_id, info.res_x, info.res_y, info.fw_version), (0x9217, 0x1234, 410, 502, 1));
    assert!(app_core::touch::identify([0, 0, 0xCA, 0xCB], res, chip, fw).is_err());
    assert!(app_core::touch::identify(code, res, [0, 0, 0x00, 0x93], fw).is_err());
    assert!(app_core::touch::identify(code, res, chip, [0xA5, 0xA5, 0xA5, 0xA5, 0, 0, 0, 0]).is_err());
    assert_eq!(app_core::touch::report_ack(), [0xD0, 0x00, 0xAB]);
}

#[test]
fn xl9555_pins_and_pairs() {
    assert_eq!(Xl9555::pin_regs::<()>(3).ok(), Some((0x02, 0x06, 0x08)));
    assert_eq!(Xl9555::pin_regs::<()>(12).ok(), Some((0x03, 0x07, 0x10)));
    assert!(matches!(Xl9555::pin_regs::<()>(16), Err(xl9555::Error::InvalidPin)));
    assert_eq!(xl9555::update_bits(0x0F, 0x10, true), (0x1F, true));
    assert_eq!(xl9555::update_bits(0x0F, 0x01, true), (0x0F, false));
    assert_eq!(xl9555::update_bits(0x0F, 0x01, false), (0x0E, true));
    assert_eq!(xl9555::pair_from_bytes(0x34, 0x12), 0x1234);
    assert_eq!(xl9555::pair_to_bytes(0x1234), (0x34, 0x12));
    assert_eq!(xl9555::input_register(0x03), 0x01);
    assert_eq!(xl9555::polarity_register(0x02), 0x04);
    assert_eq!(Xl9555::new(xl9555::Config::default()).address(), 0x20);
}

#[test]
fn cst9217_mode_echo() {
    assert!(mode_echoed(0x1E, REG_MODE_LATCH));
    assert!(mode_echoed(0x09, REG_NORMAL));
    assert!(!mode_echoed(0x09, REG_MODE_LATCH));
    assert!(!mode_echoed(0xD1, REG_NORMAL));
}

#[test]
fn drv2605_wait_step_clamps_to_127() {
    let w = drv2605::sequence_writes(&[SequenceStep::WaitMs10(200)]);
    assert_eq!(w, vec![(0x04, 0xFF), (0x05, 0)]);
    assert_eq!(SequenceStep::WaitMs10(127).encode(), 0xFF);
    assert_eq!(SequenceStep::WaitMs10(126).encode(), 0xFE);
}

#[test]
fn rtc_timer_value_and_offset_mode_checks() {
    assert!(matches!(rtc::timer_value::<()>(0), Err(rtc::Error::InvalidValue)));
    assert_eq!(rtc::timer_value::<()>(5).ok(), Some(5));
    assert_eq!(rtc::timer_value::<()>(255).ok(), Some(255));
    assert!(matches!(rtc::offset_mode_allowed::<()>(rtc::OffsetMode::Coarse, 0x20), Err(rtc::Error::InvalidMode)));
    assert!(matches!(rtc::offset_mode_allowed::<()>(rtc::OffsetMode::Coarse, 0x10), Err(rtc::Error::InvalidMode)));
    assert!(rtc::offset_mode_allowed::<()>(rtc::OffsetMode::Coarse, 0x8F).is_ok());
    assert!(rtc::offset_mode_allowed::<()>(rtc::OffsetMode::Normal, 0x30).is_ok());
}
