use xmas_rattler::bus::{BusOp, Transfer};
use xmas_rattler::lcd_lm1602_i2c_driver::{Backlight, Lcd};

fn w(address: u8, byte: u8) -> BusOp {
    BusOp::Write { address, byte }
}

fn d(ms: u32) -> BusOp {
    BusOp::DelayMs { ms }
}

/// What a controller in 4-bit mode latches: enable-high writes, paired into bytes.
fn decode(ops: &[BusOp]) -> Vec<Transfer> {
    let strobes: Vec<u8> = ops
        .iter()
        .filter_map(|op| match op {
            BusOp::Write { byte, .. } if byte & 0x04 != 0 => Some(*byte),
            _ => None,
        })
        .collect();
    strobes
        .chunks(2)
        .filter(|p| p.len() == 2)
        .map(|p| Transfer { is_data: p[0] & 0x01 != 0, byte: (p[0] & 0xf0) | (p[1] >> 4) })
        .collect()
}

fn nibble(address: u8, byte: u8, backlight: u8) -> Vec<BusOp> {
    vec![w(address, byte | 0x04 | backlight), d(1), w(address, backlight), d(5)]
}

fn cmd(byte: u8) -> Transfer {
    Transfer { is_data: false, byte }
}

fn data(byte: u8) -> Transfer {
    Transfer { is_data: true, byte }
}

#[test]
fn init_sequence_of_two_row_display() {
    let lcd = Lcd::new().address(0x27).cursor_on(false).rows(2);
    let ops = lcd.init();
    let mut expected = vec![d(80)];
    for _ in 0..3 {
        expected.extend(nibble(0x27, 0x30, 0x08));
        expected.push(d(5));
    }
    expected.extend(nibble(0x27, 0x20, 0x08));
    for byte in [0x28u8, 0x0c, 0x01, 0x04] {
        expected.extend(nibble(0x27, byte & 0xf0, 0x08));
        expected.extend(nibble(0x27, (byte << 4) & 0xf0, 0x08));
    }
    expected.push(w(0x27, 0x0c));
    assert_eq!(ops, expected);
    assert_eq!(ops.len(), 53);
}

#[test]
fn init_one_row_with_cursor() {
    let lcd = Lcd::new().address(0x3f).rows(0).cursor_on(true);
    let ops = lcd.init();
    // After the 4-bit switch: function set 0x20 (one line), display control 0x0e.
    let tail = decode(&ops[20..]);
    assert_eq!(tail, vec![cmd(0x20), cmd(0x0e), cmd(0x01), cmd(0x04)]);
    assert_eq!(ops[ops.len() - 1], w(0x3f, 0x0c));
}

#[test]
fn builders_set_the_address() {
    let lcd = Lcd::new();
    let ops = lcd.clear();
    assert_eq!(ops[0], w(0x00, 0x0c));
    let lcd = lcd.address(0x27);
    let ops = lcd.clear();
    assert!(ops.iter().all(|op| match op {
        BusOp::Write { address, .. } => *address == 0x27,
        _ => true,
    }));
}

#[test]
fn write_str_sends_each_character_as_data() {
    let lcd = Lcd::new().address(0x27);
    let ops = lcd.write_str("Hi");
    let mut expected = Vec::new();
    expected.extend(nibble(0x27, 0x41, 0x08));
    expected.extend(nibble(0x27, 0x81, 0x08));
    expected.extend(nibble(0x27, 0x61, 0x08));
    expected.extend(nibble(0x27, 0x91, 0x08));
    assert_eq!(ops, expected);
    assert_eq!(decode(&ops), vec![data(b'H'), data(b'i')]);
}

#[test]
fn write_str_empty_sends_nothing() {
    let lcd = Lcd::new();
    assert!(lcd.write_str("").is_empty());
}

#[test]
fn write_str_truncates_wide_characters() {
    let lcd = Lcd::new();
    let ops = lcd.write_str("é€");
    assert_eq!(decode(&ops), vec![data(0xe9), data(0xac)]);
}

#[test]
fn clear_and_return_home() {
    let lcd = Lcd::new().address(0x27);
    let ops = lcd.clear();
    assert_eq!(ops.len(), 9);
    assert_eq!(ops[8], d(2));
    assert_eq!(decode(&ops), vec![cmd(0x01)]);
    let ops = lcd.return_home();
    assert_eq!(ops.len(), 9);
    assert_eq!(ops[8], d(2));
    assert_eq!(decode(&ops), vec![cmd(0x02)]);
}

#[test]
fn set_cursor_shifts_row_times_forty_plus_col() {
    let lcd = Lcd::new().address(0x27);
    let ops = lcd.set_cursor(1, 5);
    assert_eq!(ops.len(), 9 + 45 * 8);
    let got = decode(&ops);
    assert_eq!(got.len(), 46);
    assert_eq!(got[0], cmd(0x02));
    assert!(got[1..].iter().all(|t| *t == cmd(0x14)));
    assert_eq!(lcd.set_cursor(0, 0), lcd.return_home());
    assert_eq!(decode(&lcd.set_cursor(6, 15)).len(), 1 + 255);
}

#[test]
fn backlight_is_kept_by_later_writes() {
    let mut lcd = Lcd::new().address(0x27);
    let ops = lcd.backlight(Backlight::Off);
    assert_eq!(ops, vec![w(0x27, 0x04)]);
    let ops = lcd.clear();
    assert!(ops.iter().all(|op| match op {
        BusOp::Write { byte, .. } => byte & 0x08 == 0,
        _ => true,
    }));
    assert_eq!(decode(&ops), vec![cmd(0x01)]);
    let ops = lcd.backlight(Backlight::On);
    assert_eq!(ops, vec![w(0x27, 0x0c)]);
    let ops = lcd.write_str("A");
    assert!(ops.iter().all(|op| match op {
        BusOp::Write { byte, .. } => byte & 0x08 == 0x08,
        _ => true,
    }));
}

#[test]
fn every_byte_value_round_trips() {
    let lcd = Lcd::new().address(0x27);
    for b in 0u32..256 {
        let c = char::from_u32(b).unwrap();
        let s = c.to_string();
        assert_eq!(decode(&lcd.write_str(&s)), vec![data(b as u8)]);
    }
}
