use app_core::imu::{cal_bytes, decode_sample, delta_offset, gyro_bias, le_i16, ImuData, Qmi8658, ADDR};

#[test]
fn imu_sample_decodes_little_endian_with_bias() {
    assert_eq!(le_i16(0x34, 0x12), 0x1234);
    assert_eq!(le_i16(0xFF, 0xFF), -1);
    assert_eq!(le_i16(0x00, 0x80), -32768);
    let buf = [0x10, 0x00, 0x01, 0x00, 0xFF, 0xFF, 0x00, 0x10, 0x64, 0x00, 0x00, 0x80, 0xFF, 0x7F];
    let d = decode_sample(buf, (10, 5, -5));
    assert_eq!(
        d,
        ImuData { temp_raw: 16, accel_x: 1, accel_y: -1, accel_z: 4096, gyro_x: 90, gyro_y: -32768, gyro_z: 32767 }
    );
}

#[test]
fn imu_gyro_bias_is_mean_toward_zero() {
    // X: 100 and 101 -> 100; Y: -3 and -4 -> -3; Z: 7 twice -> 7.
    let s = [[100, 0, 0xFD, 0xFF, 7, 0], [101, 0, 0xFC, 0xFF, 7, 0]];
    assert_eq!(gyro_bias(&s), (100, -3, 7));
}

#[test]
fn imu_delta_offset_fixed_point() {
    // 369 raw at 128 LSB/dps: 369 * 32 / 128 = 92.
    assert_eq!(delta_offset(369, 128), 92);
    assert_eq!(delta_offset(-369, 128), -92);
    assert_eq!(cal_bytes(92, -92, 0x1234), [92, 0, 0xA4, 0xFF, 0x34, 0x12]);
}

#[test]
fn imu_driver_keeps_its_bias() {
    let mut d = Qmi8658::new(ADDR);
    assert_eq!(d.address(), 0x6B);
    assert_eq!(d.gyro_bias(), (0, 0, 0));
    d.set_gyro_bias(3, -2, 1);
    assert_eq!(d.gyro_bias(), (3, -2, 1));
    let mut buf = [0u8; 14];
    buf[8] = 10;
    let s = d.decode(buf);
    assert_eq!((s.gyro_x, s.gyro_y, s.gyro_z), (7, 2, -1));
}

use app_core::commands::{ImuCommand, SleepState};
use app_core::events::SelfTestId;
use app_core::imu_task::{imu_step, motion_snapshot, poll_interval_ms, ImuEvent, ImuStep};

#[test]
fn imu_task_awake_snapshots_and_runs_commands() {
    let cmd = ImuCommand::RunSelfTest(SelfTestId::ImuGyro);
    assert_eq!(imu_step(SleepState::Awake, ImuEvent::PollDue), (SleepState::Awake, ImuStep::Snapshot));
    assert_eq!(imu_step(SleepState::Awake, ImuEvent::Command(cmd)), (SleepState::Awake, ImuStep::RunCommand(cmd)));
    assert_eq!(imu_step(SleepState::Awake, ImuEvent::WomFired), (SleepState::Awake, ImuStep::Nothing));
    assert_eq!(poll_interval_ms(SleepState::Awake), 50);
}

#[test]
fn imu_task_arms_and_leaves_wake_on_motion_with_the_sleep_state() {
    assert_eq!(
        imu_step(SleepState::Awake, ImuEvent::SleepChanged(SleepState::Sleeping)),
        (SleepState::Sleeping, ImuStep::EnterWom)
    );
    assert_eq!(
        imu_step(SleepState::Awake, ImuEvent::SleepChanged(SleepState::Awake)),
        (SleepState::Awake, ImuStep::Nothing)
    );
    assert_eq!(
        imu_step(SleepState::Sleeping, ImuEvent::SleepChanged(SleepState::Awake)),
        (SleepState::Awake, ImuStep::ExitWom)
    );
    assert_eq!(
        imu_step(SleepState::Sleeping, ImuEvent::SleepChanged(SleepState::Sleeping)),
        (SleepState::Sleeping, ImuStep::Nothing)
    );
}

#[test]
fn imu_task_sleeping_polls_the_latch_and_reports_wakes() {
    let cmd = ImuCommand::RunSelfTest(SelfTestId::ImuAccel);
    assert_eq!(imu_step(SleepState::Sleeping, ImuEvent::PollDue), (SleepState::Sleeping, ImuStep::CheckWom));
    assert_eq!(
        imu_step(SleepState::Sleeping, ImuEvent::WomFired),
        (SleepState::Sleeping, ImuStep::EmitWakeOnMotion)
    );
    assert_eq!(imu_step(SleepState::Sleeping, ImuEvent::Command(cmd)), (SleepState::Sleeping, ImuStep::Hold(cmd)));
    assert_eq!(poll_interval_ms(SleepState::Sleeping), 500);
}

#[test]
fn imu_motion_snapshot_copies_a_sample_or_zeroes() {
    let d = ImuData { temp_raw: 9, accel_x: 1, accel_y: -2, accel_z: 3, gyro_x: -4, gyro_y: 5, gyro_z: -6 };
    let m = motion_snapshot(Some(d));
    assert_eq!(
        (m.accel_x, m.accel_y, m.accel_z, m.gyro_x, m.gyro_y, m.gyro_z, m.temp_raw),
        (1, -2, 3, -4, 5, -6, 9)
    );
    let z = motion_snapshot(None);
    assert_eq!((z.accel_x, z.accel_y, z.accel_z, z.gyro_x, z.gyro_y, z.gyro_z, z.temp_raw), (0, 0, 0, 0, 0, 0, 0));
}
