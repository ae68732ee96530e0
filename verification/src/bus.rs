//! Bus transactions handed to the I2C peripheral and the delay provider, and the model
//! of what an HD44780-style controller behind a PCF8574 backpack latches from them.

use vstd::prelude::*;

verus! {

/// One step of work on the bus: a single-byte I2C write to a device address, or a wait.
#[derive(Clone, Copy, Debug, PartialEq, Eq, Structural)]
pub enum BusOp {
    /// Write the one-byte buffer `[byte]` to the I2C device at `address`.
    Write { address: u8, byte: u8 },
    /// Block for `ms` milliseconds.
    DelayMs { ms: u32 },
}

/// The expander pin wired to the controller's enable (strobe) line.
pub const ENABLE_BIT: u8 = 0x04;

/// The expander pin wired to the controller's register-select line (1: data register).
pub const REGISTER_SELECT_BIT: u8 = 0x01;

/// The expander pin that drives the backlight transistor.
pub const BACKLIGHT_BIT: u8 = 0x08;

/// A byte latched by the controller: into the data register or the instruction register.
#[derive(Clone, Copy, Debug, PartialEq, Eq, Structural)]
pub struct Transfer {
    pub is_data: bool,
    pub byte: u8,
}

/// The expander bytes written with the enable line high, in the order they were written.
/// In 4-bit mode each of them presents one nibble on the upper four lines.
pub open spec fn strobe_bytes(ops: Seq<BusOp>) -> Seq<u8>
    decreases ops.len(),
{
    if ops.len() == 0 {
        Seq::empty()
    } else {
        let rest = strobe_bytes(ops.drop_last());
        match ops.last() {
            BusOp::Write { byte, .. } => if byte & ENABLE_BIT != 0 {
                rest.push(byte)
            } else {
                rest
            },
            BusOp::DelayMs { .. } => rest,
        }
    }
}

/// Consecutive strobes taken two at a time: the first gives the high nibble and the
/// register select line, the second the low nibble.
pub open spec fn pair_nibbles(strobes: Seq<u8>) -> Seq<Transfer>
    decreases strobes.len(),
{
    if strobes.len() < 2 {
        Seq::empty()
    } else {
        seq![
            Transfer {
                is_data: strobes[0] & REGISTER_SELECT_BIT != 0,
                byte: (strobes[0] & 0xf0) | (strobes[1] >> 4u8),
            },
        ] + pair_nibbles(strobes.subrange(2, strobes.len() as int))
    }
}

/// What a controller in 4-bit mode latches from a sequence of bus operations.
pub open spec fn received(ops: Seq<BusOp>) -> Seq<Transfer> {
    pair_nibbles(strobe_bytes(ops))
}

/// Every write goes to `address` and drives the backlight line as `backlight_bits` says.
pub open spec fn writes_keep(ops: Seq<BusOp>, address: u8, backlight_bits: u8) -> bool {
    forall|i: int|
        0 <= i < ops.len() ==> match #[trigger] ops[i] {
            BusOp::Write { address: a, byte } => a == address && byte & BACKLIGHT_BIT
                == backlight_bits,
            BusOp::DelayMs { .. } => true,
        }
}

/// The strobes of two sequences run one after the other are those of the first, then
/// those of the second.
pub proof fn lemma_strobe_bytes_append(a: Seq<BusOp>, b: Seq<BusOp>)
    ensures
        strobe_bytes(a + b) == strobe_bytes(a) + strobe_bytes(b),
    decreases b.len(),
{
    if b.len() == 0 {
        assert(a + b =~= a);
        assert(strobe_bytes(b) =~= Seq::<u8>::empty());
        assert(strobe_bytes(a) + strobe_bytes(b) =~= strobe_bytes(a));
    } else {
        lemma_strobe_bytes_append(a, b.drop_last());
        assert((a + b).drop_last() =~= a + b.drop_last());
        assert((a + b).last() == b.last());
        match b.last() {
            BusOp::Write { byte, .. } => {
                if byte & ENABLE_BIT != 0 {
                    assert(strobe_bytes(a) + strobe_bytes(b.drop_last()).push(byte) =~= (
                    strobe_bytes(a) + strobe_bytes(b.drop_last())).push(byte));
                }
            },
            BusOp::DelayMs { .. } => {},
        }
    }
}

/// Pairing nibbles distributes over a split at an even position.
pub proof fn lemma_pair_nibbles_append(a: Seq<u8>, b: Seq<u8>)
    requires
        a.len() % 2 == 0,
    ensures
        pair_nibbles(a + b) == pair_nibbles(a) + pair_nibbles(b),
    decreases a.len(),
{
    if a.len() == 0 {
        assert(a + b =~= b);
        assert(pair_nibbles(a) + pair_nibbles(b) =~= pair_nibbles(b));
    } else {
        let tail = a.subrange(2, a.len() as int);
        lemma_pair_nibbles_append(tail, b);
        assert((a + b).subrange(2, (a + b).len() as int) =~= tail + b);
        assert((a + b)[0] == a[0]);
        assert((a + b)[1] == a[1]);
        let t = seq![
            Transfer {
                is_data: a[0] & REGISTER_SELECT_BIT != 0,
                byte: (a[0] & 0xf0) | (a[1] >> 4u8),
            },
        ];
        assert(t + (pair_nibbles(tail) + pair_nibbles(b)) =~= (t + pair_nibbles(tail))
            + pair_nibbles(b));
    }
}

/// What the controller latches from two sequences run one after the other, when the
/// first leaves no nibble pending.
pub proof fn lemma_received_append(a: Seq<BusOp>, b: Seq<BusOp>)
    requires
        strobe_bytes(a).len() % 2 == 0,
    ensures
        received(a + b) == received(a) + received(b),
{
    lemma_strobe_bytes_append(a, b);
    lemma_pair_nibbles_append(strobe_bytes(a), strobe_bytes(b));
}

/// Joining two sequences that each leave no nibble pending: nothing pending after both,
/// and the controller latches what it latches from each, in order.
pub proof fn lemma_received_join(a: Seq<BusOp>, b: Seq<BusOp>)
    requires
        strobe_bytes(a).len() % 2 == 0,
        strobe_bytes(b).len() % 2 == 0,
    ensures
        strobe_bytes(a + b).len() % 2 == 0,
        received(a + b) == received(a) + received(b),
{
    lemma_strobe_bytes_append(a, b);
    lemma_received_append(a, b);
}

/// `writes_keep` holds of a concatenation when it holds of both parts.
pub proof fn lemma_writes_keep_append(a: Seq<BusOp>, b: Seq<BusOp>, address: u8, bits: u8)
    requires
        writes_keep(a, address, bits),
        writes_keep(b, address, bits),
    ensures
        writes_keep(a + b, address, bits),
{
    assert forall|i: int| 0 <= i < (a + b).len() implies match #[trigger] (a + b)[i] {
        BusOp::Write { address: x, byte } => x == address && byte & BACKLIGHT_BIT == bits,
        BusOp::DelayMs { .. } => true,
    } by {
        if i < a.len() {
            assert((a + b)[i] == a[i]);
        } else {
            assert((a + b)[i] == b[i - a.len()]);
        }
    }
}

} // verus!
