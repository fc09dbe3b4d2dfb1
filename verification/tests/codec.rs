use serial::attr::RawAttributes;
use serial::config::{BaudRate, CharSize};
use serial::termios2::{get_speed, set_speed, Speed};
use serial::tty::TTYSettings;

// Encoding a standard code writes the code into the selector sub-field and
// marks the input speed "same as output".
#[test]
fn set_speed_standard_writes_exact_bits() {
    let mut raw = RawAttributes::new();
    raw.c_cflag = 0xffff_ffff;
    set_speed(&mut raw, Speed::Standard(0o015)).unwrap();
    // Both selector sub-fields cleared, then the 9600 code written.
    assert_eq!(raw.c_cflag, (0xffff_ffffu32 & !(0o010017 | (0o010017 << 16))) | 0o015);
    let (o, i) = get_speed(&raw);
    assert_eq!(o, Speed::Standard(0o015));
    assert_eq!(i, Speed::Standard(0o015));
}

// Encoding a custom rate writes the sentinel into the selector sub-field
// and the numeric value into the auxiliary output-speed field.
#[test]
fn set_speed_custom_writes_sentinel_and_value() {
    let mut raw = RawAttributes::new();
    set_speed(&mut raw, Speed::Custom(250000)).unwrap();
    assert_eq!(raw.c_cflag & 0o010017, 0o010000);
    assert_eq!(raw.c_ospeed, 250000);
    let (o, i) = get_speed(&raw);
    assert_eq!(o, Speed::Custom(250000));
    assert_eq!(i, Speed::Custom(250000));
}

// An input selector carrying its own code decodes independently of the
// output selector.
#[test]
fn get_speed_reads_independent_input_selector() {
    let mut raw = RawAttributes::new();
    raw.c_cflag = 0o015 | (0o010000 << 16);
    raw.c_ispeed = 12345;
    let (o, i) = get_speed(&raw);
    assert_eq!(o, Speed::Standard(0o015));
    assert_eq!(i, Speed::Custom(12345));
}

// A zero input selector means the input speed tracks the output speed.
#[test]
fn get_speed_zero_input_selector_tracks_output() {
    let mut raw = RawAttributes::new();
    raw.c_cflag = 0o010000;
    raw.c_ospeed = 921;
    let (o, i) = get_speed(&raw);
    assert_eq!(o, Speed::Custom(921));
    assert_eq!(i, Speed::Custom(921));
}

// A custom rate survives a change to an unrelated field and still decodes
// to the exact numeric value.
#[test]
fn custom_rate_survives_unrelated_set() {
    let mut settings = TTYSettings::new(RawAttributes::new());
    settings.set_baud_rate(BaudRate::BaudOther(250000)).unwrap();
    settings.set_char_size(CharSize::Bits7);
    assert_eq!(settings.baud_rate(), Some(BaudRate::BaudOther(250000)));
    assert_eq!(settings.char_size(), Some(CharSize::Bits7));
}

// The named rates map to the documented platform codes.
#[test]
fn set_baud_rate_writes_documented_codes() {
    let cases: [(BaudRate, u32); 6] = [
        (BaudRate::Baud110, 0o003),
        (BaudRate::Baud600, 0o010),
        (BaudRate::Baud9600, 0o015),
        (BaudRate::Baud38400, 0o017),
        (BaudRate::Baud57600, 0o010001),
        (BaudRate::Baud115200, 0o010002),
    ];
    for (b, code) in cases {
        let mut settings = TTYSettings::new(RawAttributes::new());
        settings.set_baud_rate(b).unwrap();
        assert_eq!(settings.termios.c_cflag & 0o010017, code);
    }
}
