//! The rattlesnake's display: a title line and the distance to whoever walks up.

use vstd::prelude::*;
use core::fmt::Write;
use crate::bus::{BusOp, Transfer, received, lemma_received_append, lemma_received_join};
use crate::lcd_lm1602_i2c_driver::{
    Lcd, LcdSettings, Backlight, Commands, init_ops, clear_ops, return_home_ops, set_cursor_ops,
    write_str_ops, cursor_shift, character, lemma_write_str_delivers,
    lemma_set_cursor_delivers, lemma_set_cursor_strobes, lemma_command_then_wait,
};

verus! {

/// I2C address of the display's backpack.
pub const LCD_ADDRESS: u8 = 0x27;

/// The display settings used by the rattlesnake: no visible cursor, two rows.
pub open spec fn control_settings() -> LcdSettings {
    LcdSettings {
        address: LCD_ADDRESS,
        rows: 2,
        backlight: Backlight::On,
        cursor_on: false,
        cursor_blink: false,
    }
}

/// The decimal digit `d` (0..=9) as a character.
pub open spec fn digit_char(d: int) -> char {
    (48 + d) as char
}

/// A distance as shown on the display: three digits, zero padded, then "in".
pub open spec fn distance_chars(inches: u8) -> Seq<char> {
    seq![
        digit_char(inches as int / 100),
        digit_char((inches as int / 10) % 10),
        digit_char(inches as int % 10),
        'i',
        'n',
    ]
}

/// The blank that overwrites the distance.
pub open spec fn blank_chars() -> Seq<char> {
    seq![' ', ' ', ' ', ' ', ' ']
}

/// After power-on, `LcdControl::new` lays out the screen: clear, home, the title, then
/// the label of the second row.
pub open spec fn layout_ops(s: LcdSettings) -> Seq<BusOp> {
    clear_ops(s) + return_home_ops(s) + write_str_ops(s, "XMas Rattler"@) + set_cursor_ops(
        s,
        1,
        0,
    ) + write_str_ops(s, "Dist:"@)
}

/// Everything `LcdControl::new` sends: the power-on procedure, then the screen layout.
pub open spec fn startup_ops(s: LcdSettings) -> Seq<BusOp> {
    init_ops(s) + layout_ops(s)
}

/// What the controller latches from the screen layout: clear, home, the title, home
/// again, 40 shifts to the start of the second row, and the label.
pub open spec fn layout_received() -> Seq<Transfer> {
    seq![Transfer { is_data: false, byte: 0x01 }, Transfer { is_data: false, byte: 0x02 }]
        + "XMas Rattler"@.map_values(|c: char| character(c)) + seq![
        Transfer { is_data: false, byte: 0x02 },
    ] + Seq::new(40, |i: int| Transfer { is_data: false, byte: 0x14 }) + "Dist:"@.map_values(
        |c: char| character(c),
    )
}

/// The law of the start-up screen: the controller latches the title on the first row and
/// the label at the start of the second, as `layout_received` lists.
pub proof fn lemma_layout_delivers(s: LcdSettings)
    ensures
        received(layout_ops(s)) == layout_received(),
{
    let a = clear_ops(s);
    let b = return_home_ops(s);
    let c = write_str_ops(s, "XMas Rattler"@);
    let d = set_cursor_ops(s, 1, 0);
    let e = write_str_ops(s, "Dist:"@);
    lemma_command_then_wait(s, Commands::Clear.value(), 2);
    lemma_command_then_wait(s, Commands::ReturnHome.value(), 2);
    lemma_write_str_delivers(s, "XMas Rattler"@);
    lemma_write_str_delivers(s, "Dist:"@);
    lemma_set_cursor_strobes(s, 1, 0);
    lemma_set_cursor_delivers(s, 1, 0);
    lemma_received_join(a, b);
    lemma_received_join(a + b, c);
    lemma_received_join(a + b + c, d);
    lemma_received_join(a + b + c + d, e);
    assert(cursor_shift(1, 0) == 40);
    assert(seq![Transfer { is_data: false, byte: 0x01 }] + seq![
        Transfer { is_data: false, byte: 0x02 },
    ] =~= seq![Transfer { is_data: false, byte: 0x01 }, Transfer { is_data: false, byte: 0x02 }]);
}

/// Moving the cursor to the distance field (row 1, column 5), then writing `text` there.
pub open spec fn field_ops(s: LcdSettings, text: Seq<char>) -> Seq<BusOp> {
    set_cursor_ops(s, 1, 5) + write_str_ops(s, text)
}

/// What the controller latches when the distance field gets `text`: return home, 45
/// cursor shifts, then the characters of `text`.
pub open spec fn field_received(text: Seq<char>) -> Seq<Transfer> {
    seq![Transfer { is_data: false, byte: 0x02 }] + Seq::new(
        45,
        |i: int| Transfer { is_data: false, byte: 0x14 },
    ) + text.map_values(|c: char| character(c))
}

/// Formats `inches` as `core::fmt` does for `"{:03}in"`, into a `heapless::String<5>`
/// (five characters always fit), and hands the text back as a `String`. Stated: the
/// text is the three zero-padded decimal digits followed by "in".
#[verifier::external_body]
fn format_distance(inches: u8) -> (text: String)
    ensures
        text@ == distance_chars(inches),
{
    let mut data = heapless::String::<5>::new();
    let _ = write!(data, "{:03}in", inches);
    String::from(data.as_str())
}

/// The law of the distance field: the controller latches the cursor move to (1, 5) and
/// then exactly the characters written there.
pub proof fn lemma_field_delivers(s: LcdSettings, text: Seq<char>)
    ensures
        received(field_ops(s, text)) == field_received(text),
{
    lemma_set_cursor_delivers(s, 1, 5);
    lemma_write_str_delivers(s, text);
    lemma_set_cursor_strobes(s, 1, 5);
    lemma_received_append(set_cursor_ops(s, 1, 5), write_str_ops(s, text));
    assert(cursor_shift(1, 5) == 45);
}

pub struct LcdControl {
    lcd: Lcd,
}

impl View for LcdControl {
    type V = LcdSettings;

    closed spec fn view(&self) -> LcdSettings {
        self.lcd@
    }
}

impl LcdControl {
    /// The display controller and the bus operations that set the display up; the
    /// controller is ready once all of them have gone through.
    pub fn new() -> (r: (LcdControl, Vec<BusOp>))
        ensures
            r.0@ == control_settings(),
            r.1@ == startup_ops(control_settings()),
            received(r.1@.skip(init_ops(control_settings()).len() as int)) == layout_received(),
    {
        let lcd = Lcd::new().address(LCD_ADDRESS).cursor_on(false)  // no visible cursor
        .rows(2);  // two rows
        let mut ops = lcd.init();
        let mut more = lcd.clear();
        ops.append(&mut more);
        let mut more = lcd.return_home();
        ops.append(&mut more);
        let mut more = lcd.write_str("XMas Rattler");
        ops.append(&mut more);
        let mut more = lcd.set_cursor(1, 0);
        ops.append(&mut more);
        let mut more = lcd.write_str("Dist:");
        ops.append(&mut more);
        proof {
            let s = control_settings();
            assert(ops@.skip(init_ops(s).len() as int) =~= layout_ops(s));
            lemma_layout_delivers(s);
        }
        (Self { lcd }, ops)
    }

    /// Show the distance to the target, in the form `042in`.
    pub fn update_distance(&self, inches_to_target: u8) -> (ops: Vec<BusOp>)
        ensures
            ops@ == field_ops(self@, distance_chars(inches_to_target)),
            received(ops@) == field_received(distance_chars(inches_to_target)),
    {
        let mut ops = self.lcd.set_cursor(1, 5);
        let data = format_distance(inches_to_target);
        let mut more = self.lcd.write_str(data.as_str());
        ops.append(&mut more);
        proof {
            lemma_field_delivers(self@, distance_chars(inches_to_target));
        }
        ops
    }

    /// Blank the distance field.
    pub fn clear_distance(&self) -> (ops: Vec<BusOp>)
        ensures
            ops@ == field_ops(self@, blank_chars()),
            received(ops@) == field_received(blank_chars()),
    {
        let mut ops = self.lcd.set_cursor(1, 5);
        let mut more = self.lcd.write_str("     ");
        ops.append(&mut more);
        proof {
            reveal_strlit("     ");
            assert("     "@ =~= blank_chars());
            lemma_field_delivers(self@, blank_chars());
        }
        ops
    }
}

} // verus!
