use serial::attr::RawAttributes;
use serial::config::{BaudRate, CharSize, FlowControl, Parity, PortSettings, StopBits};
use serial::tty::TTYSettings;

fn default_settings() -> TTYSettings {
    TTYSettings::new(RawAttributes::new())
}

#[test]
fn tty_settings_sets_baud_rate() {
    let mut settings = default_settings();

    settings.set_baud_rate(BaudRate::Baud600).unwrap();
    assert_eq!(settings.baud_rate(), Some(BaudRate::Baud600));
}

#[test]
fn tty_settings_overwrites_baud_rate() {
    let mut settings = default_settings();

    settings.set_baud_rate(BaudRate::Baud600).unwrap();
    settings.set_baud_rate(BaudRate::Baud1200).unwrap();
    assert_eq!(settings.baud_rate(), Some(BaudRate::Baud1200));
}

#[test]
fn tty_settings_sets_char_size() {
    let mut settings = default_settings();

    settings.set_char_size(CharSize::Bits8);
    assert_eq!(settings.char_size(), Some(CharSize::Bits8));
}

#[test]
fn tty_settings_overwrites_char_size() {
    let mut settings = default_settings();

    settings.set_char_size(CharSize::Bits8);
    settings.set_char_size(CharSize::Bits7);
    assert_eq!(settings.char_size(), Some(CharSize::Bits7));
}

#[test]
fn tty_settings_sets_parity_even() {
    let mut settings = default_settings();

    settings.set_parity(Parity::ParityEven);
    assert_eq!(settings.parity(), Some(Parity::ParityEven));
}

#[test]
fn tty_settings_sets_parity_odd() {
    let mut settings = default_settings();

    settings.set_parity(Parity::ParityOdd);
    assert_eq!(settings.parity(), Some(Parity::ParityOdd));
}

#[test]
fn tty_settings_sets_parity_none() {
    let mut settings = default_settings();

    settings.set_parity(Parity::ParityEven);
    settings.set_parity(Parity::ParityNone);
    assert_eq!(settings.parity(), Some(Parity::ParityNone));
}

#[test]
fn tty_settings_sets_stop_bits_1() {
    let mut settings = default_settings();

    settings.set_stop_bits(StopBits::Stop2);
    settings.set_stop_bits(StopBits::Stop1);
    assert_eq!(settings.stop_bits(), Some(StopBits::Stop1));
}

#[test]
fn tty_settings_sets_stop_bits_2() {
    let mut settings = default_settings();

    settings.set_stop_bits(StopBits::Stop1);
    settings.set_stop_bits(StopBits::Stop2);
    assert_eq!(settings.stop_bits(), Some(StopBits::Stop2));
}

#[test]
fn tty_settings_sets_flow_control_software() {
    let mut settings = default_settings();

    settings.set_flow_control(FlowControl::FlowSoftware);
    assert_eq!(settings.flow_control(), Some(FlowControl::FlowSoftware));
}

#[test]
fn tty_settings_sets_flow_control_hardware() {
    let mut settings = default_settings();

    settings.set_flow_control(FlowControl::FlowHardware);
    assert_eq!(settings.flow_control(), Some(FlowControl::FlowHardware));
}

#[test]
fn tty_settings_sets_flow_control_none() {
    let mut settings = default_settings();

    settings.set_flow_control(FlowControl::FlowHardware);
    settings.set_flow_control(FlowControl::FlowNone);
    assert_eq!(settings.flow_control(), Some(FlowControl::FlowNone));
}

// Every named standard rate, and every numeric rate the code table knows,
// round-trips through a set and a get.
#[test]
fn tty_settings_round_trips_every_standard_rate() {
    let named = [
        BaudRate::Baud110,
        BaudRate::Baud300,
        BaudRate::Baud600,
        BaudRate::Baud1200,
        BaudRate::Baud2400,
        BaudRate::Baud4800,
        BaudRate::Baud9600,
        BaudRate::Baud19200,
        BaudRate::Baud38400,
        BaudRate::Baud57600,
        BaudRate::Baud115200,
    ];
    for b in named {
        let mut settings = default_settings();
        settings.set_baud_rate(b).unwrap();
        assert_eq!(settings.baud_rate(), Some(b));
    }

    let other = [
        50usize, 75, 134, 150, 200, 1800, 230400, 460800, 500000, 576000, 921600, 1000000,
        1152000, 1500000, 2000000, 2500000, 3000000, 3500000, 4000000,
    ];
    for n in other {
        let mut settings = default_settings();
        settings.set_baud_rate(BaudRate::BaudOther(n)).unwrap();
        assert_eq!(settings.baud_rate(), Some(BaudRate::BaudOther(n)));
    }
}

// Setting the same rate twice is idempotent: the raw snapshot is identical
// after one and after two applications.
#[test]
fn tty_settings_set_baud_rate_idempotent() {
    let mut once = default_settings();
    once.set_baud_rate(BaudRate::Baud9600).unwrap();
    let mut twice = once;
    twice.set_baud_rate(BaudRate::Baud9600).unwrap();
    assert_eq!(once, twice);
}

// A rate outside the standard table is stored as a custom rate and decodes
// to the exact numeric value supplied.
#[test]
fn tty_settings_custom_rate_round_trips() {
    let mut settings = default_settings();
    settings.set_baud_rate(BaudRate::BaudOther(250000)).unwrap();
    assert_eq!(settings.baud_rate(), Some(BaudRate::BaudOther(250000)));
}

// Asymmetric output and input speeds decode to no combined baud rate.
#[test]
fn tty_settings_asymmetric_speeds_have_no_baud_rate() {
    let mut raw = RawAttributes::new();
    // Output selector: the 9600 code; input selector: the 4800 code.
    raw.c_cflag = 0o015 | (0o014 << 16);
    let settings = TTYSettings::new(raw);
    assert_eq!(settings.baud_rate(), None);
}

// Setting one field never perturbs another field's current value, pairwise
// across all field combinations.
#[test]
fn tty_settings_fields_do_not_interfere() {
    let mut settings = default_settings();
    settings.set_baud_rate(BaudRate::Baud19200).unwrap();
    settings.set_char_size(CharSize::Bits7);
    settings.set_parity(Parity::ParityOdd);
    settings.set_stop_bits(StopBits::Stop2);
    settings.set_flow_control(FlowControl::FlowSoftware);

    assert_eq!(settings.baud_rate(), Some(BaudRate::Baud19200));
    assert_eq!(settings.char_size(), Some(CharSize::Bits7));
    assert_eq!(settings.parity(), Some(Parity::ParityOdd));
    assert_eq!(settings.stop_bits(), Some(StopBits::Stop2));
    assert_eq!(settings.flow_control(), Some(FlowControl::FlowSoftware));

    // Rewriting each field in turn leaves every other field alone.
    settings.set_char_size(CharSize::Bits8);
    assert_eq!(settings.baud_rate(), Some(BaudRate::Baud19200));
    assert_eq!(settings.parity(), Some(Parity::ParityOdd));
    assert_eq!(settings.stop_bits(), Some(StopBits::Stop2));
    assert_eq!(settings.flow_control(), Some(FlowControl::FlowSoftware));

    settings.set_parity(Parity::ParityEven);
    assert_eq!(settings.baud_rate(), Some(BaudRate::Baud19200));
    assert_eq!(settings.char_size(), Some(CharSize::Bits8));
    assert_eq!(settings.stop_bits(), Some(StopBits::Stop2));
    assert_eq!(settings.flow_control(), Some(FlowControl::FlowSoftware));

    settings.set_stop_bits(StopBits::Stop1);
    assert_eq!(settings.baud_rate(), Some(BaudRate::Baud19200));
    assert_eq!(settings.char_size(), Some(CharSize::Bits8));
    assert_eq!(settings.parity(), Some(Parity::ParityEven));
    assert_eq!(settings.flow_control(), Some(FlowControl::FlowSoftware));

    settings.set_flow_control(FlowControl::FlowHardware);
    assert_eq!(settings.baud_rate(), Some(BaudRate::Baud19200));
    assert_eq!(settings.char_size(), Some(CharSize::Bits8));
    assert_eq!(settings.parity(), Some(Parity::ParityEven));
    assert_eq!(settings.stop_bits(), Some(StopBits::Stop1));

    settings.set_baud_rate(BaudRate::BaudOther(250000)).unwrap();
    assert_eq!(settings.char_size(), Some(CharSize::Bits8));
    assert_eq!(settings.parity(), Some(Parity::ParityEven));
    assert_eq!(settings.stop_bits(), Some(StopBits::Stop1));
    assert_eq!(settings.flow_control(), Some(FlowControl::FlowHardware));
}

// The baseline normalization sets and clears exactly the documented bits.
#[test]
fn tty_settings_normalized_sets_baseline_bits() {
    let mut raw = RawAttributes::new();
    raw.c_iflag = 0xffff_ffff;
    raw.c_oflag = 0xffff_ffff;
    raw.c_cflag = 0;
    raw.c_lflag = 0xffff_ffff;
    raw.vmin = 7;
    raw.vtime = 9;

    let s = TTYSettings::normalized(raw);
    // CREAD | CLOCAL enabled.
    assert_eq!(s.termios.c_cflag, 0x80 | 0x800);
    // ICANON, ECHO, ECHOE, ECHOK, ECHONL, ISIG, IEXTEN disabled.
    assert_eq!(
        s.termios.c_lflag,
        0xffff_ffff & !(0x2 | 0x8 | 0x10 | 0x20 | 0x40 | 0x1 | 0x8000)
    );
    // OPOST disabled.
    assert_eq!(s.termios.c_oflag, 0xffff_ffff & !0x1);
    // INLCR, IGNCR, ICRNL, IGNBRK disabled.
    assert_eq!(s.termios.c_iflag, 0xffff_ffff & !(0x40 | 0x80 | 0x100 | 0x1));
    // Reads return whatever is available.
    assert_eq!(s.termios.vmin, 0);
    assert_eq!(s.termios.vtime, 0);
}

// Applying a whole settings aggregate configures every field, and applying
// it twice yields the same raw state as applying it once.
#[test]
fn tty_settings_apply_is_idempotent() {
    let aggregate = PortSettings {
        baud_rate: BaudRate::Baud9600,
        char_size: CharSize::Bits8,
        parity: Parity::ParityNone,
        stop_bits: StopBits::Stop1,
        flow_control: FlowControl::FlowNone,
    };

    let mut once = default_settings();
    once.apply(&aggregate).unwrap();
    assert_eq!(once.baud_rate(), Some(BaudRate::Baud9600));
    assert_eq!(once.char_size(), Some(CharSize::Bits8));
    assert_eq!(once.parity(), Some(Parity::ParityNone));
    assert_eq!(once.stop_bits(), Some(StopBits::Stop1));
    assert_eq!(once.flow_control(), Some(FlowControl::FlowNone));

    let mut twice = once;
    twice.apply(&aggregate).unwrap();
    assert_eq!(once, twice);
}

#[test]
fn baud_rate_speed_values() {
    assert_eq!(BaudRate::Baud9600.speed(), 9600);
    assert_eq!(BaudRate::Baud115200.speed(), 115200);
    assert_eq!(BaudRate::BaudOther(31250).speed(), 31250);
}
