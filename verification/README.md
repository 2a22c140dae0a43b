# app_core

The verified core of a smartwatch firmware, written in Verus.

- `src/` is the library, every function of it verified:
  - `model.rs`: the application state machine (events in, effects out:
    sleep and wake, idle dimming, navigation, buzz patterns, alarm
    snooze and dismiss), with its invariants and laws;
  - `alarm.rs`, `nav.rs`, `buzz.rs`, `events.rs`, `ui_types.rs`,
    `data.rs`, `config.rs`, `commands.rs`: the data it works on;
  - `screens/`: the event handling of the watch face, status pages,
    quick-access overlay, timer, alarm and settings screens, each as an
    exact function of state and event, the mounted-screen dispatch
    (`active.rs`), and the battery view's readouts (`battery.rs`);
  - `layout.rs`, `widgets.rs`, `numpad.rs`, `text.rs`: hit-testing
    geometry, the settings-row and toggle layout, the keypad and the
    readouts' text;
  - `pmu.rs`, `rtc.rs`, `xl9555.rs`, `touch.rs`, `drv2605.rs`,
    `imu.rs`, `co5300.rs`, `sdcard.rs`: register encoding and decoding
    of the peripheral drivers, the IMU's sample and bias arithmetic, and
    the display's framebuffer;
  - `imu_task.rs`: the IMU task's decisions (snapshots while awake,
    wake-on-motion polling while asleep) as a function of mode and
    event, which `app/imu.rs` performs one step at a time.
- `tests/` runs the library on concrete values.
- `app/` is the unverified glue: the I2C and QSPI transactions, the
  reset and other GPIO lines, the drawing-target adapter, the wall-clock
  store, persistence formats and the event loop.

Time is milliseconds since boot throughout; bus transactions stay in
`app/`, and the library computes what they write and decodes what they
read.

What `app/` does not do: it draws no screen (the visual theme, fonts and
glyphs the screens are drawn with are not part of this project's
sources), it does not bring up the IMU, arm or leave its wake-on-motion
mode or run its self-tests (those register sequences are not part of
them; its task step reports such steps back to the caller), and it
does not program the IMU's host-delta calibration (the IMU register map
is not part of them either, so `imu::delta_offset` and `imu::cal_bytes`
have no caller there). Left and right content swipes do not cycle
between home-screen apps: the home-row order is not defined in these
sources.
