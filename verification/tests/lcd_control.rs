use xmas_rattler::bus::{BusOp, Transfer};
use xmas_rattler::lcdcontrol::LcdControl;

fn decode(ops: &[BusOp]) -> Vec<Transfer> {
    let strobes: Vec<u8> = ops
        .iter()
        .filter_map(|op| match op {
            BusOp::Write { byte, .. } if byte & 0x04 != 0 => Some(*byte),
            _ => None,
        })
        .collect();
    strobes
        .chunks(2)
        .filter(|p| p.len() == 2)
        .map(|p| Transfer { is_data: p[0] & 0x01 != 0, byte: (p[0] & 0xf0) | (p[1] >> 4) })
        .collect()
}

fn text_after_cursor(ops: &[BusOp]) -> String {
    decode(ops).iter().filter(|t| t.is_data).map(|t| t.byte as char).collect()
}

#[test]
fn startup_writes_title_and_label() {
    let (_control, ops) = LcdControl::new();
    assert_eq!(ops[0], BusOp::DelayMs { ms: 80 });
    assert!(ops.iter().all(|op| match op {
        BusOp::Write { address, byte } => *address == 0x27 && byte & 0x08 == 0x08,
        _ => true,
    }));
    let layout = decode(&ops[53..]);
    assert_eq!(layout[0], Transfer { is_data: false, byte: 0x01 });
    assert_eq!(layout[1], Transfer { is_data: false, byte: 0x02 });
    let title: String = layout[2..14].iter().map(|t| t.byte as char).collect();
    assert_eq!(title, "XMas Rattler");
    assert_eq!(layout[14], Transfer { is_data: false, byte: 0x02 });
    assert!(layout[15..55].iter().all(|t| *t == Transfer { is_data: false, byte: 0x14 }));
    assert_eq!(text_after_cursor(&ops[53..]), "XMas RattlerDist:");
    assert_eq!(layout.len(), 2 + 12 + 1 + 40 + 5);
}

#[test]
fn update_distance_shows_three_digits_and_unit() {
    let (control, _) = LcdControl::new();
    assert_eq!(text_after_cursor(&control.update_distance(42)), "042in");
    assert_eq!(text_after_cursor(&control.update_distance(7)), "007in");
    assert_eq!(text_after_cursor(&control.update_distance(0)), "000in");
    assert_eq!(text_after_cursor(&control.update_distance(255)), "255in");
    let got = decode(&control.update_distance(123));
    assert_eq!(got.len(), 1 + 45 + 5);
    assert_eq!(got[0], Transfer { is_data: false, byte: 0x02 });
}

#[test]
fn clear_distance_blanks_five_cells() {
    let (control, _) = LcdControl::new();
    let ops = control.clear_distance();
    assert_eq!(text_after_cursor(&ops), "     ");
    assert_eq!(decode(&ops).len(), 1 + 45 + 5);
}
