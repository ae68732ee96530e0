//! Driver for LM1602 character displays (16x2) behind a PCF8574 I2C backpack.
//!
//! The controller runs in 4-bit mode: every byte travels as two nibbles on the upper
//! four expander lines, each latched by raising the enable line. The driver does not
//! touch the bus itself: each operation returns the bus operations (single-byte I2C
//! writes and waits) that carry it out, in order. Running them stops at the first bus
//! error, as the operation itself would.
//!
//! Usage: `Lcd::new().address(0x27).cursor_on(false).rows(2)`, then run `init()`.

use vstd::prelude::*;
use crate::bus::{
    BusOp, Transfer, received, strobe_bytes, pair_nibbles, writes_keep, lemma_received_append,
    lemma_received_join, lemma_strobe_bytes_append, lemma_writes_keep_append,
};

verus! {

/// Bits of the display control instruction; `DisplayOn` is also the expander line of the
/// enable strobe.
#[derive(Clone, Copy, Debug, PartialEq, Eq, Structural)]
pub enum DisplayControl {
    Off,
    CursorBlink,
    CursosOn,
    DisplayOn,
}

impl DisplayControl {
    pub open spec fn value(self) -> u8 {
        match self {
            DisplayControl::Off => 0x00,
            DisplayControl::CursorBlink => 0x01,
            DisplayControl::CursosOn => 0x02,
            DisplayControl::DisplayOn => 0x04,
        }
    }

    pub fn bits(self) -> (b: u8)
        ensures
            b == self.value(),
    {
        match self {
            DisplayControl::Off => 0x00,
            DisplayControl::CursorBlink => 0x01,
            DisplayControl::CursosOn => 0x02,
            DisplayControl::DisplayOn => 0x04,
        }
    }
}

/// State of the backlight line of the backpack.
#[derive(Clone, Copy, Debug, PartialEq, Eq, Structural)]
pub enum Backlight {
    Off,
    On,
}

impl Backlight {
    pub open spec fn value(self) -> u8 {
        match self {
            Backlight::Off => 0x00,
            Backlight::On => 0x08,
        }
    }

    pub fn bits(self) -> (b: u8)
        ensures
            b == self.value(),
    {
        match self {
            Backlight::Off => 0x00,
            Backlight::On => 0x08,
        }
    }
}

/// Register select value of a transfer, and the instruction groups used at start-up.
#[derive(Clone, Copy, Debug, PartialEq, Eq, Structural)]
pub enum Mode {
    Cmd,
    Data,
    DisplayControl,
    FunctionSet,
}

impl Mode {
    pub open spec fn value(self) -> u8 {
        match self {
            Mode::Cmd => 0x00,
            Mode::Data => 0x01,
            Mode::DisplayControl => 0x08,
            Mode::FunctionSet => 0x20,
        }
    }

    pub fn bits(self) -> (b: u8)
        ensures
            b == self.value(),
    {
        match self {
            Mode::Cmd => 0x00,
            Mode::Data => 0x01,
            Mode::DisplayControl => 0x08,
            Mode::FunctionSet => 0x20,
        }
    }
}

/// Instructions without arguments.
#[derive(Clone, Copy, Debug, PartialEq, Eq, Structural)]
pub enum Commands {
    Clear,
    ReturnHome,
    ShiftCursor,
}

impl Commands {
    pub open spec fn value(self) -> u8 {
        match self {
            Commands::Clear => 0x01,
            Commands::ReturnHome => 0x02,
            Commands::ShiftCursor => 0x14,
        }
    }

    pub fn bits(self) -> (b: u8)
        ensures
            b == self.value(),
    {
        match self {
            Commands::Clear => 0x01,
            Commands::ReturnHome => 0x02,
            Commands::ShiftCursor => 0x14,
        }
    }
}

/// Interface width bit of the function set instruction.
#[derive(Clone, Copy, Debug, PartialEq, Eq, Structural)]
pub enum BitMode {
    Bit4,
    Bit8,
}

impl BitMode {
    pub open spec fn value(self) -> u8 {
        match self {
            BitMode::Bit4 => 0x00,
            BitMode::Bit8 => 0x10,
        }
    }

    pub fn bits(self) -> (b: u8)
        ensures
            b == self.value(),
    {
        match self {
            BitMode::Bit4 => 0x00,
            BitMode::Bit8 => 0x10,
        }
    }
}

/// API to write to the LCD.
pub struct Lcd {
    address: u8,
    rows: u8,
    backlight_state: Backlight,
    cursor_on: bool,
    cursor_blink: bool,
}

/// The settings an `Lcd` holds.
#[derive(Clone, Copy, Debug, PartialEq, Eq, Structural)]
pub struct LcdSettings {
    pub address: u8,
    pub rows: u8,
    pub backlight: Backlight,
    pub cursor_on: bool,
    pub cursor_blink: bool,
}

impl View for Lcd {
    type V = LcdSettings;

    closed spec fn view(&self) -> LcdSettings {
        LcdSettings {
            address: self.address,
            rows: self.rows,
            backlight: self.backlight_state,
            cursor_on: self.cursor_on,
            cursor_blink: self.cursor_blink,
        }
    }
}

/// The byte that a character is sent as: its code point truncated to eight bits.
pub open spec fn char_byte(c: char) -> u8 {
    #[verifier::truncate]
    (c as u8)
}

/// One nibble strobe: the nibble with enable high, a short wait, enable low, a longer wait.
pub open spec fn write4bits_ops(s: LcdSettings, data: u8) -> Seq<BusOp> {
    seq![
        BusOp::Write {
            address: s.address,
            byte: data | DisplayControl::DisplayOn.value() | s.backlight.value(),
        },
        BusOp::DelayMs { ms: 1 },
        BusOp::Write {
            address: s.address,
            byte: DisplayControl::Off.value() | s.backlight.value(),
        },
        BusOp::DelayMs { ms: 5 },
    ]
}

/// A full byte: the high nibble, then the low nibble, each with the register select bits.
pub open spec fn send_ops(s: LcdSettings, data: u8, mode: Mode) -> Seq<BusOp> {
    write4bits_ops(s, (data & 0xf0) | mode.value()) + write4bits_ops(
        s,
        ((data << 4u8) & 0xf0) | mode.value(),
    )
}

/// A byte to the instruction register.
pub open spec fn command_ops(s: LcdSettings, data: u8) -> Seq<BusOp> {
    send_ops(s, data, Mode::Cmd)
}

/// The line count bit of the function set instruction: one line for `rows == 0`.
pub open spec fn function_set_lines(rows: u8) -> u8 {
    if rows == 0 {
        0x00
    } else {
        0x08
    }
}

/// The display control instruction's bits: display on, cursor and blink as configured.
pub open spec fn display_control_bits(s: LcdSettings) -> u8 {
    let on = if s.cursor_on {
        DisplayControl::DisplayOn.value() | DisplayControl::CursosOn.value()
    } else {
        DisplayControl::DisplayOn.value()
    };
    if s.cursor_blink {
        on | DisplayControl::CursorBlink.value()
    } else {
        on
    }
}

/// The single write that sets the backlight line (with the enable line high).
pub open spec fn backlight_op(address: u8, backlight: Backlight) -> BusOp {
    BusOp::Write { address, byte: DisplayControl::DisplayOn.value() | backlight.value() }
}

/// The power-on procedure: wait, three 8-bit function sets, switch to 4-bit mode, then
/// function set, display control, clear, entry mode and the backlight.
pub open spec fn init_ops(s: LcdSettings) -> Seq<BusOp> {
    let mode_8bit = Mode::FunctionSet.value() | BitMode::Bit8.value();
    let mode_4bit = Mode::FunctionSet.value() | BitMode::Bit4.value();
    seq![BusOp::DelayMs { ms: 80 }] + write4bits_ops(s, mode_8bit) + seq![BusOp::DelayMs { ms: 5 }]
        + write4bits_ops(s, mode_8bit) + seq![BusOp::DelayMs { ms: 5 }] + write4bits_ops(
        s,
        mode_8bit,
    ) + seq![BusOp::DelayMs { ms: 5 }] + write4bits_ops(s, mode_4bit) + command_ops(
        s,
        Mode::FunctionSet.value() | function_set_lines(s.rows),
    ) + command_ops(s, Mode::DisplayControl.value() | display_control_bits(s)) + command_ops(
        s,
        Mode::Cmd.value() | Commands::Clear.value(),
    ) + command_ops(s, 0x04) + seq![backlight_op(s.address, s.backlight)]
}

/// Each character of `text`, in order, to the data register.
pub open spec fn write_str_ops(s: LcdSettings, text: Seq<char>) -> Seq<BusOp>
    decreases text.len(),
{
    if text.len() == 0 {
        Seq::empty()
    } else {
        write_str_ops(s, text.drop_last()) + send_ops(s, char_byte(text.last()), Mode::Data)
    }
}

/// The clear instruction and the wait it needs.
pub open spec fn clear_ops(s: LcdSettings) -> Seq<BusOp> {
    command_ops(s, Commands::Clear.value()) + seq![BusOp::DelayMs { ms: 2 }]
}

/// The return home instruction and the wait it needs.
pub open spec fn return_home_ops(s: LcdSettings) -> Seq<BusOp> {
    command_ops(s, Commands::ReturnHome.value()) + seq![BusOp::DelayMs { ms: 2 }]
}

/// `n` cursor shifts to the right.
pub open spec fn shift_cursor_ops(s: LcdSettings, n: nat) -> Seq<BusOp>
    decreases n,
{
    if n == 0 {
        Seq::empty()
    } else {
        shift_cursor_ops(s, (n - 1) as nat) + command_ops(s, Commands::ShiftCursor.value())
    }
}

/// How many cursor shifts from home reach `(row, col)`: rows are 40 positions apart.
pub open spec fn cursor_shift(row: u8, col: u8) -> int {
    row * 40 + col
}

/// Return home, then shift right to `(row, col)`.
pub open spec fn set_cursor_ops(s: LcdSettings, row: u8, col: u8) -> Seq<BusOp> {
    return_home_ops(s) + shift_cursor_ops(s, cursor_shift(row, col) as nat)
}

/// An instruction as the controller latches it.
pub open spec fn instruction(byte: u8) -> Transfer {
    Transfer { is_data: false, byte }
}

/// A character as the controller latches it.
pub open spec fn character(c: char) -> Transfer {
    Transfer { is_data: true, byte: char_byte(c) }
}

/// The strobe of one nibble strobe sequence, and that it keeps address and backlight.
proof fn lemma_write4bits(s: LcdSettings, data: u8)
    requires
        data & 0x08 == 0,
    ensures
        strobe_bytes(write4bits_ops(s, data)) == seq![data | 0x04u8 | s.backlight.value()],
        writes_keep(write4bits_ops(s, data), s.address, s.backlight.value()),
{
    let bl = s.backlight.value();
    let ops = write4bits_ops(s, data);
    assert(bl == 0 || bl == 8);
    assert((data | 0x04u8 | bl) & 0x04 != 0 && (0u8 | bl) & 0x04 == 0 && (data | 0x04u8 | bl)
        & 0x08 == bl && (0u8 | bl) & 0x08 == bl) by (bit_vector)
        requires
            bl == 0 || bl == 8,
            data & 0x08 == 0,
    ;
    let o1 = ops.drop_last();
    let o2 = o1.drop_last();
    let o3 = o2.drop_last();
    let o4 = o3.drop_last();
    assert(o4 =~= Seq::<BusOp>::empty());
    assert(o3 =~= seq![ops[0]]);
    assert(o3.last() == ops[0]);
    assert(o2.last() == ops[1]);
    assert(o1.last() == ops[2]);
    assert(strobe_bytes(o4) =~= Seq::<u8>::empty());
    assert(strobe_bytes(o3) =~= seq![data | 0x04u8 | bl]);
    assert(strobe_bytes(o2) == strobe_bytes(o3));
    assert(strobe_bytes(o1) == strobe_bytes(o2));
    assert(ops.last() == ops[3]);
    assert(strobe_bytes(ops) == strobe_bytes(o1));
}

/// The law of the 4-bit protocol: the controller latches exactly the byte that was sent,
/// into the register that the mode selects; and every write keeps the device address and
/// the backlight line.
pub proof fn lemma_send_delivers(s: LcdSettings, data: u8, mode: Mode)
    requires
        mode == Mode::Cmd || mode == Mode::Data,
    ensures
        strobe_bytes(send_ops(s, data, mode)).len() == 2,
        received(send_ops(s, data, mode)) == seq![
            Transfer { is_data: mode == Mode::Data, byte: data },
        ],
        writes_keep(send_ops(s, data, mode), s.address, s.backlight.value()),
{
    let bl = s.backlight.value();
    let m = mode.value();
    let hi = (data & 0xf0) | m;
    let lo = ((data << 4u8) & 0xf0) | m;
    assert(hi & 0x08 == 0 && lo & 0x08 == 0) by (bit_vector)
        requires
            m == 0 || m == 1,
            hi == (data & 0xf0) | m,
            lo == ((data << 4u8) & 0xf0) | m,
    ;
    lemma_write4bits(s, hi);
    lemma_write4bits(s, lo);
    lemma_strobe_bytes_append(write4bits_ops(s, hi), write4bits_ops(s, lo));
    lemma_writes_keep_append(write4bits_ops(s, hi), write4bits_ops(s, lo), s.address, bl);
    let w1 = hi | 0x04u8 | bl;
    let w3 = lo | 0x04u8 | bl;
    let strobes = strobe_bytes(send_ops(s, data, mode));
    assert(strobes =~= seq![w1, w3]);
    assert(((w1 & 0x01) != 0) == (m == 1) && ((w1 & 0xf0) | (w3 >> 4u8)) == data) by (bit_vector)
        requires
            m == 0 || m == 1,
            bl == 0 || bl == 8,
            hi == (data & 0xf0) | m,
            lo == ((data << 4u8) & 0xf0) | m,
            w1 == hi | 0x04u8 | bl,
            w3 == lo | 0x04u8 | bl,
    ;
    assert(strobes.subrange(2, 2) =~= Seq::<u8>::empty());
    assert(pair_nibbles(strobes.subrange(2, 2)) =~= Seq::<Transfer>::empty());
    assert(received(send_ops(s, data, mode)) =~= seq![
        Transfer { is_data: mode == Mode::Data, byte: data },
    ]);
}

/// The law of instructions: a command is the byte sent with the instruction register
/// selected: four writes, the high then the low nibble each strobed with the enable line
/// and released, register select clear; the controller latches that instruction.
pub proof fn lemma_command_delivers(s: LcdSettings, data: u8)
    ensures
        command_ops(s, data) == send_ops(s, data, Mode::Cmd),
        command_ops(s, data) == seq![
            BusOp::Write { address: s.address, byte: (data & 0xf0) | 0x04u8 | s.backlight.value() },
            BusOp::DelayMs { ms: 1 },
            BusOp::Write { address: s.address, byte: s.backlight.value() },
            BusOp::DelayMs { ms: 5 },
            BusOp::Write {
                address: s.address,
                byte: ((data << 4u8) & 0xf0) | 0x04u8 | s.backlight.value(),
            },
            BusOp::DelayMs { ms: 1 },
            BusOp::Write { address: s.address, byte: s.backlight.value() },
            BusOp::DelayMs { ms: 5 },
        ],
        received(command_ops(s, data)) == seq![instruction(data)],
{
    let bl = s.backlight.value();
    assert(((data & 0xf0) | 0u8 | 0x04u8 | bl) == ((data & 0xf0) | 0x04u8 | bl)
        && (((data << 4u8) & 0xf0) | 0u8 | 0x04u8 | bl) == (((data << 4u8) & 0xf0) | 0x04u8 | bl)
        && (0u8 | bl) == bl) by (bit_vector);
    assert(command_ops(s, data) =~= seq![
        BusOp::Write { address: s.address, byte: (data & 0xf0) | 0x04u8 | bl },
        BusOp::DelayMs { ms: 1 },
        BusOp::Write { address: s.address, byte: bl },
        BusOp::DelayMs { ms: 5 },
        BusOp::Write { address: s.address, byte: ((data << 4u8) & 0xf0) | 0x04u8 | bl },
        BusOp::DelayMs { ms: 1 },
        BusOp::Write { address: s.address, byte: bl },
        BusOp::DelayMs { ms: 5 },
    ]);
    lemma_send_delivers(s, data, Mode::Cmd);
}

/// A wait latches nothing and writes nothing.
proof fn lemma_delay(s: LcdSettings, ms: u32)
    ensures
        strobe_bytes(seq![BusOp::DelayMs { ms }]) == Seq::<u8>::empty(),
        received(seq![BusOp::DelayMs { ms }]) == Seq::<Transfer>::empty(),
        writes_keep(seq![BusOp::DelayMs { ms }], s.address, s.backlight.value()),
{
    let ops = seq![BusOp::DelayMs { ms }];
    assert(ops.drop_last() =~= Seq::<BusOp>::empty());
    assert(strobe_bytes(ops.drop_last()) =~= Seq::<u8>::empty());
    assert(strobe_bytes(ops) =~= Seq::<u8>::empty());
    assert(pair_nibbles(Seq::<u8>::empty()) =~= Seq::<Transfer>::empty());
}

/// The law of `write_str`: the controller latches each character of the text, in order,
/// into the data register, and every write keeps the address and the backlight line.
pub proof fn lemma_write_str_delivers(s: LcdSettings, text: Seq<char>)
    ensures
        strobe_bytes(write_str_ops(s, text)).len() == 2 * text.len(),
        received(write_str_ops(s, text)) == text.map_values(|c: char| character(c)),
        writes_keep(write_str_ops(s, text), s.address, s.backlight.value()),
    decreases text.len(),
{
    if text.len() == 0 {
        let e = Seq::<BusOp>::empty();
        assert(write_str_ops(s, text) == e);
        assert(strobe_bytes(e) =~= Seq::<u8>::empty());
        assert(pair_nibbles(Seq::<u8>::empty()) =~= Seq::<Transfer>::empty());
        assert(text.map_values(|c: char| character(c)) =~= Seq::<Transfer>::empty());
    } else {
        let init = text.drop_last();
        lemma_write_str_delivers(s, init);
        let a = write_str_ops(s, init);
        let b = send_ops(s, char_byte(text.last()), Mode::Data);
        lemma_send_delivers(s, char_byte(text.last()), Mode::Data);
        lemma_received_append(a, b);
        lemma_strobe_bytes_append(a, b);
        lemma_writes_keep_append(a, b, s.address, s.backlight.value());
        assert(text.map_values(|c: char| character(c)) =~= init.map_values(
            |c: char| character(c),
        ).push(character(text.last())));
        assert(init.map_values(|c: char| character(c)).push(character(text.last()))
            =~= init.map_values(|c: char| character(c)) + seq![character(text.last())]);
    }
}

/// The law of the cursor shifts: `n` shift instructions, in order.
pub proof fn lemma_shift_cursor_delivers(s: LcdSettings, n: nat)
    ensures
        strobe_bytes(shift_cursor_ops(s, n)).len() == 2 * n,
        shift_cursor_ops(s, n).len() == 8 * n,
        received(shift_cursor_ops(s, n)) == Seq::new(
            n,
            |i: int| instruction(Commands::ShiftCursor.value()),
        ),
        writes_keep(shift_cursor_ops(s, n), s.address, s.backlight.value()),
    decreases n,
{
    if n == 0 {
        let e = Seq::<BusOp>::empty();
        assert(shift_cursor_ops(s, n) == e);
        assert(strobe_bytes(e) =~= Seq::<u8>::empty());
        assert(pair_nibbles(Seq::<u8>::empty()) =~= Seq::<Transfer>::empty());
        assert(Seq::new(n, |i: int| instruction(Commands::ShiftCursor.value())) =~= Seq::<
            Transfer,
        >::empty());
    } else {
        let m = (n - 1) as nat;
        lemma_shift_cursor_delivers(s, m);
        let a = shift_cursor_ops(s, m);
        let b = command_ops(s, Commands::ShiftCursor.value());
        assert(shift_cursor_ops(s, n) == a + b);
        assert(b.len() == 8);
        lemma_send_delivers(s, Commands::ShiftCursor.value(), Mode::Cmd);
        assert(strobe_bytes(a).len() % 2 == 0);
        lemma_received_append(a, b);
        lemma_strobe_bytes_append(a, b);
        lemma_writes_keep_append(a, b, s.address, s.backlight.value());
        let sh = instruction(Commands::ShiftCursor.value());
        assert(received(a + b) == Seq::new(m, |i: int| sh) + seq![sh]);
        assert(Seq::new(n, |i: int| sh) =~= Seq::new(m, |i: int| sh) + seq![sh]);
    }
}

/// An instruction followed by a wait: the controller latches just that instruction.
pub proof fn lemma_command_then_wait(s: LcdSettings, data: u8, ms: u32)
    ensures
        strobe_bytes(command_ops(s, data) + seq![BusOp::DelayMs { ms }]).len() == 2,
        received(command_ops(s, data) + seq![BusOp::DelayMs { ms }]) == seq![instruction(data)],
        writes_keep(
            command_ops(s, data) + seq![BusOp::DelayMs { ms }],
            s.address,
            s.backlight.value(),
        ),
{
    let a = command_ops(s, data);
    let b = seq![BusOp::DelayMs { ms }];
    lemma_send_delivers(s, data, Mode::Cmd);
    lemma_delay(s, ms);
    lemma_received_append(a, b);
    lemma_strobe_bytes_append(a, b);
    lemma_writes_keep_append(a, b, s.address, s.backlight.value());
    assert(seq![instruction(data)] + Seq::<Transfer>::empty() =~= seq![instruction(data)]);
}

/// The law of `set_cursor`: the controller latches Return Home (0x02), then exactly
/// `row * 40 + col` Cursor Shift Right instructions (0x14): rows are 40 positions apart in
/// display memory. Each instruction takes eight bus operations, Return Home one more wait.
pub proof fn lemma_set_cursor_delivers(s: LcdSettings, row: u8, col: u8)
    requires
        row * 40 + col <= 255,
    ensures
        received(set_cursor_ops(s, row, col)) == seq![Transfer { is_data: false, byte: 0x02 }]
            + Seq::new((row * 40 + col) as nat, |i: int| Transfer { is_data: false, byte: 0x14 }),
        set_cursor_ops(s, row, col).len() == 9 + 8 * (row * 40 + col),
        writes_keep(set_cursor_ops(s, row, col), s.address, s.backlight.value()),
{
    let n = cursor_shift(row, col) as nat;
    assert(n == row * 40 + col);
    assert(return_home_ops(s).len() == 9);
    lemma_command_then_wait(s, Commands::ReturnHome.value(), 2);
    lemma_shift_cursor_delivers(s, n);
    lemma_received_append(return_home_ops(s), shift_cursor_ops(s, n));
    lemma_writes_keep_append(
        return_home_ops(s),
        shift_cursor_ops(s, n),
        s.address,
        s.backlight.value(),
    );
}

/// The law of the power-on procedure. After an 80 ms wait, three 8-bit function sets
/// (nibble 0x3) and the switch to 4-bit mode (nibble 0x2), each strobed on its own and
/// followed by a wait, the controller latches, in order: function set 0x28 (two lines)
/// when `rows` is not zero, 0x20 (one line) only for `rows == 0`; display control 0x0c,
/// with 0x02 added when the cursor is on and 0x01 when it blinks; clear 0x01; entry mode
/// 0x04. Last comes the backlight write.
pub proof fn lemma_init_delivers(s: LcdSettings)
    ensures
        init_ops(s).len() == 53,
        init_ops(s)[0] == (BusOp::DelayMs { ms: 80 }),
        strobe_bytes(init_ops(s).subrange(0, 20)) == seq![
            0x34u8 | s.backlight.value(),
            0x34u8 | s.backlight.value(),
            0x34u8 | s.backlight.value(),
            0x24u8 | s.backlight.value(),
        ],
        received(init_ops(s).subrange(20, 52)) == seq![
            Transfer { is_data: false, byte: if s.rows == 0 { 0x20u8 } else { 0x28u8 } },
            Transfer {
                is_data: false,
                byte: (0x0cu8 | (if s.cursor_on { 0x02u8 } else { 0x00u8 })) | (if s.cursor_blink {
                    0x01u8
                } else {
                    0x00u8
                }),
            },
            Transfer { is_data: false, byte: 0x01 },
            Transfer { is_data: false, byte: 0x04 },
        ],
        init_ops(s)[52] == (BusOp::Write {
            address: s.address,
            byte: 0x04u8 | s.backlight.value(),
        }),
{
    let bl = s.backlight.value();
    let mode_8bit = Mode::FunctionSet.value() | BitMode::Bit8.value();
    let mode_4bit = Mode::FunctionSet.value() | BitMode::Bit4.value();
    assert(mode_8bit == 0x30u8 && mode_4bit == 0x20u8) by (bit_vector)
        requires
            mode_8bit == 0x20u8 | 0x10u8,
            mode_4bit == 0x20u8 | 0x00u8,
    ;
    assert(0x30u8 & 0x08 == 0 && 0x20u8 & 0x08 == 0 && (0x30u8 | 0x04u8 | bl) == (0x34u8 | bl)
        && (0x20u8 | 0x04u8 | bl) == (0x24u8 | bl)) by (bit_vector);
    let d80 = seq![BusOp::DelayMs { ms: 80 }];
    let d5 = seq![BusOp::DelayMs { ms: 5 }];
    let w8 = write4bits_ops(s, mode_8bit);
    let w4 = write4bits_ops(s, mode_4bit);
    let fs = Mode::FunctionSet.value() | function_set_lines(s.rows);
    let dc = Mode::DisplayControl.value() | display_control_bits(s);
    let cl = Mode::Cmd.value() | Commands::Clear.value();
    let c1 = command_ops(s, fs);
    let c2 = command_ops(s, dc);
    let c3 = command_ops(s, cl);
    let c4 = command_ops(s, 0x04);
    let last = seq![backlight_op(s.address, s.backlight)];
    let pre = d80 + w8 + d5 + w8 + d5 + w8 + d5 + w4;
    let mid = c1 + c2 + c3 + c4;
    assert(init_ops(s) == pre + mid + last);
    assert(pre.len() == 20);
    assert(mid.len() == 32);
    assert(init_ops(s).subrange(0, 20) =~= pre);
    assert(init_ops(s).subrange(20, 52) =~= mid);
    assert(init_ops(s)[52] == last[0]);
    assert(init_ops(s)[0] == d80[0]);
    // The nibble strobes before the 4-bit switch.
    lemma_write4bits(s, mode_8bit);
    lemma_write4bits(s, mode_4bit);
    lemma_delay(s, 80);
    lemma_delay(s, 5);
    lemma_strobe_bytes_append(d80, w8);
    lemma_strobe_bytes_append(d80 + w8, d5);
    lemma_strobe_bytes_append(d80 + w8 + d5, w8);
    lemma_strobe_bytes_append(d80 + w8 + d5 + w8, d5);
    lemma_strobe_bytes_append(d80 + w8 + d5 + w8 + d5, w8);
    lemma_strobe_bytes_append(d80 + w8 + d5 + w8 + d5 + w8, d5);
    lemma_strobe_bytes_append(d80 + w8 + d5 + w8 + d5 + w8 + d5, w4);
    assert(strobe_bytes(pre) =~= seq![0x34u8 | bl, 0x34u8 | bl, 0x34u8 | bl, 0x24u8 | bl]);
    // The four instructions after it.
    lemma_send_delivers(s, fs, Mode::Cmd);
    lemma_send_delivers(s, dc, Mode::Cmd);
    lemma_send_delivers(s, cl, Mode::Cmd);
    lemma_send_delivers(s, 0x04, Mode::Cmd);
    lemma_received_join(c1, c2);
    lemma_received_join(c1 + c2, c3);
    lemma_received_join(c1 + c2 + c3, c4);
    assert(fs == if s.rows == 0 { 0x20u8 } else { 0x28u8 }) by {
        assert(0x20u8 | 0x00u8 == 0x20u8 && 0x20u8 | 0x08u8 == 0x28u8) by (bit_vector);
    }
    let cur: u8 = if s.cursor_on { 0x02u8 } else { 0x00u8 };
    let blk: u8 = if s.cursor_blink { 0x01u8 } else { 0x00u8 };
    assert(dc == (0x0cu8 | cur) | blk) by {
        assert(forall|c: u8, b: u8|
            (c == 0 || c == 2) && (b == 0 || b == 1) ==> #[trigger] (0x08u8 | ((0x04u8 | c) | b))
                == (0x0cu8 | c) | b) by (bit_vector);
        assert(forall|c: u8| (c == 0 || c == 2) ==> #[trigger] (0x04u8 | c) == (0x04u8 | c) | 0u8)
            by (bit_vector);
        assert(0x04u8 | 0x02u8 == 0x06u8 && 0x06u8 | 0x01u8 == 0x07u8 && 0x04u8 | 0x01u8 == 0x05u8
            && 0x08u8 | 0x04u8 == 0x0cu8 && 0x08u8 | 0x06u8 == 0x0eu8 && 0x08u8 | 0x07u8 == 0x0fu8
            && 0x08u8 | 0x05u8 == 0x0du8 && 0x0cu8 | 0x02u8 == 0x0eu8 && 0x0eu8 | 0x01u8 == 0x0fu8
            && 0x0cu8 | 0x01u8 == 0x0du8 && 0x0cu8 | 0x00u8 == 0x0cu8 && 0x0eu8 | 0x00u8 == 0x0eu8)
            by (bit_vector);
    }
    assert(cl == 0x01u8) by {
        assert(0x00u8 | 0x01u8 == 0x01u8) by (bit_vector);
    }
    assert(received(mid) =~= seq![
        Transfer { is_data: false, byte: if s.rows == 0 { 0x20u8 } else { 0x28u8 } },
        Transfer { is_data: false, byte: (0x0cu8 | cur) | blk },
        Transfer { is_data: false, byte: 0x01 },
        Transfer { is_data: false, byte: 0x04 },
    ]);
}

/// Moving the cursor leaves no nibble pending.
pub proof fn lemma_set_cursor_strobes(s: LcdSettings, row: u8, col: u8)
    ensures
        strobe_bytes(set_cursor_ops(s, row, col)).len() % 2 == 0,
{
    let n = cursor_shift(row, col) as nat;
    lemma_command_then_wait(s, Commands::ReturnHome.value(), 2);
    lemma_shift_cursor_delivers(s, n);
    lemma_strobe_bytes_append(return_home_ops(s), shift_cursor_ops(s, n));
}

/// Every write of the power-on procedure goes to the configured address and drives the
/// backlight line as configured.
proof fn lemma_init_keeps(s: LcdSettings)
    ensures
        writes_keep(init_ops(s), s.address, s.backlight.value()),
{
    let bl = s.backlight.value();
    let a = s.address;
    let mode_8bit = Mode::FunctionSet.value() | BitMode::Bit8.value();
    let mode_4bit = Mode::FunctionSet.value() | BitMode::Bit4.value();
    assert(mode_8bit == 0x30u8 && mode_4bit == 0x20u8) by (bit_vector)
        requires
            mode_8bit == 0x20u8 | 0x10u8,
            mode_4bit == 0x20u8 | 0x00u8,
    ;
    assert(0x30u8 & 0x08 == 0 && 0x20u8 & 0x08 == 0) by (bit_vector);
    lemma_write4bits(s, mode_8bit);
    lemma_write4bits(s, mode_4bit);
    lemma_delay(s, 80);
    lemma_delay(s, 5);
    lemma_send_delivers(s, Mode::FunctionSet.value() | function_set_lines(s.rows), Mode::Cmd);
    lemma_send_delivers(s, Mode::DisplayControl.value() | display_control_bits(s), Mode::Cmd);
    lemma_send_delivers(s, Mode::Cmd.value() | Commands::Clear.value(), Mode::Cmd);
    lemma_send_delivers(s, 0x04, Mode::Cmd);
    let last = seq![backlight_op(a, s.backlight)];
    assert((0x04u8 | bl) & 0x08 == bl) by (bit_vector)
        requires
            bl == 0 || bl == 8,
    ;
    assert(writes_keep(last, a, bl)) by {
        assert(last[0] == backlight_op(a, s.backlight));
    }
    let d80 = seq![BusOp::DelayMs { ms: 80 }];
    let d5 = seq![BusOp::DelayMs { ms: 5 }];
    let w8 = write4bits_ops(s, mode_8bit);
    let w4 = write4bits_ops(s, mode_4bit);
    let c1 = command_ops(s, Mode::FunctionSet.value() | function_set_lines(s.rows));
    let c2 = command_ops(s, Mode::DisplayControl.value() | display_control_bits(s));
    let c3 = command_ops(s, Mode::Cmd.value() | Commands::Clear.value());
    let c4 = command_ops(s, 0x04);
    lemma_writes_keep_append(d80, w8, a, bl);
    lemma_writes_keep_append(d80 + w8, d5, a, bl);
    lemma_writes_keep_append(d80 + w8 + d5, w8, a, bl);
    lemma_writes_keep_append(d80 + w8 + d5 + w8, d5, a, bl);
    lemma_writes_keep_append(d80 + w8 + d5 + w8 + d5, w8, a, bl);
    lemma_writes_keep_append(d80 + w8 + d5 + w8 + d5 + w8, d5, a, bl);
    lemma_writes_keep_append(d80 + w8 + d5 + w8 + d5 + w8 + d5, w4, a, bl);
    lemma_writes_keep_append(d80 + w8 + d5 + w8 + d5 + w8 + d5 + w4, c1, a, bl);
    lemma_writes_keep_append(d80 + w8 + d5 + w8 + d5 + w8 + d5 + w4 + c1, c2, a, bl);
    lemma_writes_keep_append(d80 + w8 + d5 + w8 + d5 + w8 + d5 + w4 + c1 + c2, c3, a, bl);
    lemma_writes_keep_append(d80 + w8 + d5 + w8 + d5 + w8 + d5 + w4 + c1 + c2 + c3, c4, a, bl);
    lemma_writes_keep_append(
        d80 + w8 + d5 + w8 + d5 + w8 + d5 + w4 + c1 + c2 + c3 + c4,
        last,
        a,
        bl,
    );
}

/// The law of the backlight setting: once the backlight is switched to `backlight`,
/// every write of every operation drives the backlight line that way, and goes to the
/// configured address.
pub proof fn lemma_backlight_persists(
    s: LcdSettings,
    backlight: Backlight,
    text: Seq<char>,
    row: u8,
    col: u8,
)
    requires
        row * 40 + col <= 255,
    ensures
        ({
            let t = LcdSettings { backlight, ..s };
            &&& writes_keep(init_ops(t), s.address, backlight.value())
            &&& writes_keep(write_str_ops(t, text), s.address, backlight.value())
            &&& writes_keep(clear_ops(t), s.address, backlight.value())
            &&& writes_keep(return_home_ops(t), s.address, backlight.value())
            &&& writes_keep(set_cursor_ops(t, row, col), s.address, backlight.value())
        }),
{
    let t = LcdSettings { backlight, ..s };
    lemma_init_keeps(t);
    lemma_write_str_delivers(t, text);
    lemma_command_then_wait(t, Commands::Clear.value(), 2);
    lemma_command_then_wait(t, Commands::ReturnHome.value(), 2);
    lemma_set_cursor_delivers(t, row, col);
}

impl Lcd {
    /// Create new instance with only the I2C and delay instance.
    pub fn new() -> (r: Self)
        ensures
            r@ == (LcdSettings {
                address: 0,
                rows: 0,
                backlight: Backlight::On,
                cursor_on: false,
                cursor_blink: false,
            }),
    {
        Self {
            backlight_state: Backlight::On,
            address: 0,
            rows: 0,
            cursor_blink: false,
            cursor_on: false,
        }
    }

    /// Zero based number of rows.
    pub fn rows(self, rows: u8) -> (r: Self)
        ensures
            r@ == (LcdSettings { rows, ..self@ }),
    {
        let mut lcd = self;
        lcd.rows = rows;
        lcd
    }

    /// Set I2C address, see [lcd address].
    ///
    /// [lcd address]: https://badboi.dev/rust,/microcontrollers/2020/11/09/i2c-hello-world.html
    pub fn address(self, address: u8) -> (r: Self)
        ensures
            r@ == (LcdSettings { address, ..self@ }),
    {
        let mut lcd = self;
        lcd.address = address;
        lcd
    }

    pub fn cursor_on(self, on: bool) -> (r: Self)
        ensures
            r@ == (LcdSettings { cursor_on: on, ..self@ }),
    {
        let mut lcd = self;
        lcd.cursor_on = on;
        lcd
    }

    fn write4bits(&self, ops: &mut Vec<BusOp>, data: u8)
        ensures
            final(ops)@ == old(ops)@ + write4bits_ops(self@, data),
    {
        let bl = self.backlight_state.bits();
        ops.push(
            BusOp::Write {
                address: self.address,
                byte: data | DisplayControl::DisplayOn.bits() | bl,
            },
        );
        ops.push(BusOp::DelayMs { ms: 1 });
        ops.push(BusOp::Write { address: self.address, byte: DisplayControl::Off.bits() | bl });
        ops.push(BusOp::DelayMs { ms: 5 });
        assert(ops@ =~= old(ops)@ + write4bits_ops(self@, data));
    }

    fn send(&self, ops: &mut Vec<BusOp>, data: u8, mode: Mode)
        ensures
            final(ops)@ == old(ops)@ + send_ops(self@, data, mode),
    {
        let high_bits: u8 = data & 0xf0;
        let low_bits: u8 = (data << 4u8) & 0xf0;
        self.write4bits(ops, high_bits | mode.bits());
        self.write4bits(ops, low_bits | mode.bits());
        assert(ops@ =~= old(ops)@ + send_ops(self@, data, mode));
    }

    fn command(&self, ops: &mut Vec<BusOp>, data: u8)
        ensures
            final(ops)@ == old(ops)@ + command_ops(self@, data),
    {
        self.send(ops, data, Mode::Cmd)
    }

    fn delay_ms(ops: &mut Vec<BusOp>, ms: u32)
        ensures
            final(ops)@ == old(ops)@ + seq![BusOp::DelayMs { ms }],
    {
        ops.push(BusOp::DelayMs { ms });
        assert(ops@ =~= old(ops)@ + seq![BusOp::DelayMs { ms }]);
    }

    /// Initializes the hardware: the bus operations of the power-on procedure.
    ///
    /// Actual procedure is a bit obscure. This one was compiled from this [blog post],
    /// corresponding [code] and the [datasheet].
    ///
    /// [datasheet]: https://www.openhacks.com/uploadsproductos/eone-1602a1.pdf
    /// [code]: https://github.com/jalhadi/i2c-hello-world/blob/main/src/main.rs
    /// [blog post]: https://badboi.dev/rust,/microcontrollers/2020/11/09/i2c-hello-world.html
    pub fn init(&self) -> (ops: Vec<BusOp>)
        ensures
            ops@ == init_ops(self@),
            writes_keep(ops@, self@.address, self@.backlight.value()),
            received(ops@.subrange(20, 52)) == seq![
                Transfer { is_data: false, byte: if self@.rows == 0 { 0x20u8 } else { 0x28u8 } },
                Transfer {
                    is_data: false,
                    byte: (0x0cu8 | (if self@.cursor_on { 0x02u8 } else { 0x00u8 })) | (
                    if self@.cursor_blink {
                        0x01u8
                    } else {
                        0x00u8
                    }),
                },
                Transfer { is_data: false, byte: 0x01 },
                Transfer { is_data: false, byte: 0x04 },
            ],
    {
        let mut ops: Vec<BusOp> = Vec::new();
        // Initial delay to wait for init after power on.
        Self::delay_ms(&mut ops, 80);

        // Init with 8 bit mode
        let mode_8bit = Mode::FunctionSet.bits() | BitMode::Bit8.bits();
        self.write4bits(&mut ops, mode_8bit);
        Self::delay_ms(&mut ops, 5);
        self.write4bits(&mut ops, mode_8bit);
        Self::delay_ms(&mut ops, 5);
        self.write4bits(&mut ops, mode_8bit);
        Self::delay_ms(&mut ops, 5);

        // Switch to 4 bit mode
        let mode_4bit = Mode::FunctionSet.bits() | BitMode::Bit4.bits();
        self.write4bits(&mut ops, mode_4bit);

        // Function set command
        let lines: u8 = if self.rows == 0 {
            0x00
        } else {
            0x08
        };
        self.command(&mut ops, Mode::FunctionSet.bits() | lines);

        let display_ctrl = if self.cursor_on {
            DisplayControl::DisplayOn.bits() | DisplayControl::CursosOn.bits()
        } else {
            DisplayControl::DisplayOn.bits()
        };
        let display_ctrl = if self.cursor_blink {
            display_ctrl | DisplayControl::CursorBlink.bits()
        } else {
            display_ctrl
        };
        self.command(&mut ops, Mode::DisplayControl.bits() | display_ctrl);
        self.command(&mut ops, Mode::Cmd.bits() | Commands::Clear.bits());

        // Entry right: shifting cursor moves to right
        self.command(&mut ops, 0x04);
        ops.push(
            BusOp::Write {
                address: self.address,
                byte: DisplayControl::DisplayOn.bits() | self.backlight_state.bits(),
            },
        );
        assert(ops@ =~= init_ops(self@));
        proof {
            lemma_init_keeps(self@);
            lemma_init_delivers(self@);
        }
        ops
    }

    /// Switch the backlight: the new state is kept for every later transfer.
    pub fn backlight(&mut self, backlight: Backlight) -> (ops: Vec<BusOp>)
        ensures
            final(self)@ == (LcdSettings { backlight, ..old(self)@ }),
            ops@ == seq![backlight_op(old(self)@.address, backlight)],
            writes_keep(ops@, old(self)@.address, backlight.value()),
    {
        self.backlight_state = backlight;
        let mut ops: Vec<BusOp> = Vec::new();
        ops.push(
            BusOp::Write {
                address: self.address,
                byte: DisplayControl::DisplayOn.bits() | backlight.bits(),
            },
        );
        assert(ops@ =~= seq![backlight_op(old(self)@.address, backlight)]);
        proof {
            let bl = backlight.value();
            assert((0x04u8 | bl) & 0x08 == bl) by (bit_vector)
                requires
                    bl == 0 || bl == 8,
            ;
            assert(ops@[0] == backlight_op(old(self)@.address, backlight));
        }
        ops
    }

    /// Write string to display.
    pub fn write_str(&self, data: &str) -> (ops: Vec<BusOp>)
        ensures
            ops@ == write_str_ops(self@, data@),
            received(ops@) == data@.map_values(|c: char| character(c)),
            received(ops@).len() == data@.len(),
            forall|i: int|
                0 <= i < data@.len() ==> #[trigger] received(ops@)[i] == (Transfer {
                    is_data: true,
                    byte: #[verifier::truncate]
                    (data@[i] as u8),
                }),
            writes_keep(ops@, self@.address, self@.backlight.value()),
    {
        let mut ops: Vec<BusOp> = Vec::new();
        for c in it: data.chars()
            invariant
                it.seq() == data@,
                ops@ == write_str_ops(self@, data@.take(it.index() as int)),
        {
            let ghost i = it.index() as int;
            assert(data@.take(i + 1).drop_last() =~= data@.take(i));
            assert(data@.take(i + 1).last() == c);
            let b: u8 = #[verifier::truncate]
            (c as u8);
            self.send(&mut ops, b, Mode::Data);
        }
        assert(data@.take(data@.len() as int) =~= data@);
        proof {
            lemma_write_str_delivers(self@, data@);
        }
        ops
    }

    /// Clear the display
    pub fn clear(&self) -> (ops: Vec<BusOp>)
        ensures
            ops@ == clear_ops(self@),
            received(ops@) == seq![Transfer { is_data: false, byte: 0x01 }],
            ops@.len() == 9 && ops@[8] == (BusOp::DelayMs { ms: 2 }),
            writes_keep(ops@, self@.address, self@.backlight.value()),
    {
        let mut ops: Vec<BusOp> = Vec::new();
        self.command(&mut ops, Commands::Clear.bits());
        Self::delay_ms(&mut ops, 2);
        assert(ops@ =~= clear_ops(self@));
        proof {
            lemma_command_then_wait(self@, Commands::Clear.value(), 2);
        }
        ops
    }

    /// Return cursor to upper left corner, i.e. (0,0).
    pub fn return_home(&self) -> (ops: Vec<BusOp>)
        ensures
            ops@ == return_home_ops(self@),
            received(ops@) == seq![Transfer { is_data: false, byte: 0x02 }],
            ops@.len() == 9 && ops@[8] == (BusOp::DelayMs { ms: 2 }),
            writes_keep(ops@, self@.address, self@.backlight.value()),
    {
        let mut ops: Vec<BusOp> = Vec::new();
        self.command(&mut ops, Commands::ReturnHome.bits());
        Self::delay_ms(&mut ops, 2);
        assert(ops@ =~= return_home_ops(self@));
        proof {
            lemma_command_then_wait(self@, Commands::ReturnHome.value(), 2);
        }
        ops
    }

    /// Set the cursor to (rows, col). Coordinates are zero-based.
    pub fn set_cursor(&self, row: u8, col: u8) -> (ops: Vec<BusOp>)
        requires
            row * 40 + col <= 255,
        ensures
            ops@ == set_cursor_ops(self@, row, col),
            received(ops@) == seq![Transfer { is_data: false, byte: 0x02 }] + Seq::new(
                (row * 40 + col) as nat,
                |i: int| Transfer { is_data: false, byte: 0x14 },
            ),
            ops@.len() == 9 + 8 * (row * 40 + col),
            writes_keep(ops@, self@.address, self@.backlight.value()),
    {
        let mut ops = self.return_home();
        let shift: u8 = row * 40 + col;
        for i in 0..shift
            invariant
                ops@ == return_home_ops(self@) + shift_cursor_ops(self@, i as nat),
        {
            self.command(&mut ops, Commands::ShiftCursor.bits());
            assert(return_home_ops(self@) + shift_cursor_ops(self@, (i + 1) as nat) =~= (
            return_home_ops(self@) + shift_cursor_ops(self@, i as nat)) + command_ops(
                self@,
                Commands::ShiftCursor.value(),
            ));
        }
        proof {
            lemma_set_cursor_delivers(self@, row, col);
        }
        ops
    }
}

} // verus!
