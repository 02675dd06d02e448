//! Which pin of the microcontroller carries which signal of the left half.

use vstd::prelude::*;

verus! {

/// A pin of the microcontroller, written P`port`.`number`.
#[derive(Clone, Copy, PartialEq, Eq, Structural, Debug)]
pub struct Pin {
    /// The port: 0 has 32 pins, 1 has 16.
    pub port: u8,
    /// The number within the port.
    pub number: u8,
}

impl Pin {
    /// Whether the microcontroller has the pin.
    pub open spec fn on_chip(self) -> bool {
        (self.port == 0 && self.number < 32) || (self.port == 1 && self.number < 16)
    }
}

/// The pin of every signal.
#[derive(Clone, Copy, Debug)]
pub struct Wiring {
    /// Inputs of the key matrix, one per row.
    pub rows: [Pin; 6],
    /// Outputs of the key matrix, one per column.
    pub cols: [Pin; 8],
    /// Battery voltage, behind the divider.
    pub battery: Pin,
    /// The knob's first phase.
    pub encoder_a: Pin,
    /// The knob's second phase.
    pub encoder_b: Pin,
    /// Data line of the trackpad's bus.
    pub pad_sda: Pin,
    /// Clock line of the trackpad's bus.
    pub pad_scl: Pin,
    /// The trackpad's motion line.
    pub pad_motion: Pin,
    /// Clock line of the panel's bus.
    pub panel_sck: Pin,
    /// Data line of the panel's bus.
    pub panel_mosi: Pin,
    /// The panel's select line, active high.
    pub panel_cs: Pin,
    /// The host-link indicator.
    pub link_led: Pin,
}

impl Wiring {
    /// All pins in use.
    pub open spec fn pins(self) -> Seq<Pin> {
        self.rows@ + self.cols@ + seq![
            self.battery,
            self.encoder_a,
            self.encoder_b,
            self.pad_sda,
            self.pad_scl,
            self.pad_motion,
            self.panel_sck,
            self.panel_mosi,
            self.panel_cs,
            self.link_led,
        ]
    }

    /// Whether this is the wiring of the left half's board.
    pub open spec fn is_left_half(self) -> bool {
        &&& self.rows@ == seq![
            Pin { port: 0, number: 24 },
            Pin { port: 0, number: 17 },
            Pin { port: 0, number: 16 },
            Pin { port: 1, number: 8 },
            Pin { port: 0, number: 31 },
            Pin { port: 0, number: 29 },
        ]
        &&& self.cols@ == seq![
            Pin { port: 0, number: 13 },
            Pin { port: 0, number: 15 },
            Pin { port: 0, number: 19 },
            Pin { port: 0, number: 22 },
            Pin { port: 0, number: 20 },
            Pin { port: 1, number: 0 },
            Pin { port: 0, number: 28 },
            Pin { port: 0, number: 30 },
        ]
        &&& self.battery == Pin { port: 0, number: 3 }
        &&& self.encoder_a == Pin { port: 0, number: 14 }
        &&& self.encoder_b == Pin { port: 0, number: 11 }
        &&& self.pad_sda == Pin { port: 0, number: 26 }
        &&& self.pad_scl == Pin { port: 0, number: 4 }
        &&& self.pad_motion == Pin { port: 0, number: 8 }
        &&& self.panel_sck == Pin { port: 0, number: 27 }
        &&& self.panel_mosi == Pin { port: 0, number: 5 }
        &&& self.panel_cs == Pin { port: 0, number: 12 }
        &&& self.link_led == Pin { port: 0, number: 7 }
    }
}

/// The wiring of the left half. No pin carries two signals, every pin is one
/// that the microcontroller has, and P1.09 and P0.10 drive nothing.
pub fn wiring() -> (w: Wiring)
    ensures
        w.is_left_half(),
        w.rows@.len() == 6,
        w.cols@.len() == 8,
        w.rows@[0] == (Pin { port: 0, number: 24 }),
        w.rows@[1] == (Pin { port: 0, number: 17 }),
        w.rows@[2] == (Pin { port: 0, number: 16 }),
        w.rows@[3] == (Pin { port: 1, number: 8 }),
        w.rows@[4] == (Pin { port: 0, number: 31 }),
        w.rows@[5] == (Pin { port: 0, number: 29 }),
        w.cols@[0] == (Pin { port: 0, number: 13 }),
        w.cols@[1] == (Pin { port: 0, number: 15 }),
        w.cols@[2] == (Pin { port: 0, number: 19 }),
        w.cols@[3] == (Pin { port: 0, number: 22 }),
        w.cols@[4] == (Pin { port: 0, number: 20 }),
        w.cols@[5] == (Pin { port: 1, number: 0 }),
        w.cols@[6] == (Pin { port: 0, number: 28 }),
        w.cols@[7] == (Pin { port: 0, number: 30 }),
        w.battery == (Pin { port: 0, number: 3 }),
        w.encoder_a == (Pin { port: 0, number: 14 }),
        w.encoder_b == (Pin { port: 0, number: 11 }),
        w.pad_sda == (Pin { port: 0, number: 26 }),
        w.pad_scl == (Pin { port: 0, number: 4 }),
        w.pad_motion == (Pin { port: 0, number: 8 }),
        w.panel_sck == (Pin { port: 0, number: 27 }),
        w.panel_mosi == (Pin { port: 0, number: 5 }),
        w.panel_cs == (Pin { port: 0, number: 12 }),
        w.link_led == (Pin { port: 0, number: 7 }),
        w.pins().no_duplicates(),
        forall|i: int| 0 <= i < w.pins().len() ==> (#[trigger] w.pins()[i]).on_chip(),
        !w.pins().contains(Pin { port: 1, number: 9 }),
        !w.pins().contains(Pin { port: 0, number: 10 }),
{
    let w: Wiring = Wiring {
        rows: [
            Pin { port: 0, number: 24 },
            Pin { port: 0, number: 17 },
            Pin { port: 0, number: 16 },
            Pin { port: 1, number: 8 },
            Pin { port: 0, number: 31 },
            Pin { port: 0, number: 29 },
        ],
        cols: [
            Pin { port: 0, number: 13 },
            Pin { port: 0, number: 15 },
            Pin { port: 0, number: 19 },
            Pin { port: 0, number: 22 },
            Pin { port: 0, number: 20 },
            Pin { port: 1, number: 0 },
            Pin { port: 0, number: 28 },
            Pin { port: 0, number: 30 },
        ],
        battery: Pin { port: 0, number: 3 },
        encoder_a: Pin { port: 0, number: 14 },
        encoder_b: Pin { port: 0, number: 11 },
        pad_sda: Pin { port: 0, number: 26 },
        pad_scl: Pin { port: 0, number: 4 },
        pad_motion: Pin { port: 0, number: 8 },
        panel_sck: Pin { port: 0, number: 27 },
        panel_mosi: Pin { port: 0, number: 5 },
        panel_cs: Pin { port: 0, number: 12 },
        link_led: Pin { port: 0, number: 7 },
    };
    assert(w.rows@ =~= seq![
        w.rows@[0],
        w.rows@[1],
        w.rows@[2],
        w.rows@[3],
        w.rows@[4],
        w.rows@[5],
    ]);
    assert(w.cols@ =~= seq![
        w.cols@[0],
        w.cols@[1],
        w.cols@[2],
        w.cols@[3],
        w.cols@[4],
        w.cols@[5],
        w.cols@[6],
        w.cols@[7],
    ]);
    w
}

/// Each row of the key matrix is read on its own pin, from the top row down:
/// P0.24, P0.17, P0.16, P1.08, P0.31, P0.29. A pin tells its row, and a row its
/// pin.
pub proof fn law_rows_are_read_on_their_pins(w: Wiring, row: int)
    requires
        w.is_left_half(),
        0 <= row < 6,
    ensures
        w.rows@.len() == 6,
        w.rows@[row] == (Pin { port: 0, number: 24 }) <==> row == 0,
        w.rows@[row] == (Pin { port: 0, number: 17 }) <==> row == 1,
        w.rows@[row] == (Pin { port: 0, number: 16 }) <==> row == 2,
        w.rows@[row] == (Pin { port: 1, number: 8 }) <==> row == 3,
        w.rows@[row] == (Pin { port: 0, number: 31 }) <==> row == 4,
        w.rows@[row] == (Pin { port: 0, number: 29 }) <==> row == 5,
{
}

/// Each column of the key matrix is driven by its own pin, from the left:
/// P0.13, P0.15, P0.19, P0.22, P0.20, P1.00, P0.28, P0.30. A pin tells its
/// column, and a column its pin.
pub proof fn law_columns_are_driven_by_their_pins(w: Wiring, col: int)
    requires
        w.is_left_half(),
        0 <= col < 8,
    ensures
        w.cols@.len() == 8,
        w.cols@[col] == (Pin { port: 0, number: 13 }) <==> col == 0,
        w.cols@[col] == (Pin { port: 0, number: 15 }) <==> col == 1,
        w.cols@[col] == (Pin { port: 0, number: 19 }) <==> col == 2,
        w.cols@[col] == (Pin { port: 0, number: 22 }) <==> col == 3,
        w.cols@[col] == (Pin { port: 0, number: 20 }) <==> col == 4,
        w.cols@[col] == (Pin { port: 1, number: 0 }) <==> col == 5,
        w.cols@[col] == (Pin { port: 0, number: 28 }) <==> col == 6,
        w.cols@[col] == (Pin { port: 0, number: 30 }) <==> col == 7,
{
}

/// Two keys are wired alike only if they are the same key: row pin and column
/// pin together tell a key from every other.
pub proof fn law_pins_identify_a_key(w: Wiring, row_a: int, col_a: int, row_b: int, col_b: int)
    requires
        w.is_left_half(),
        0 <= row_a < 6,
        0 <= col_a < 8,
        0 <= row_b < 6,
        0 <= col_b < 8,
    ensures
        w.rows@[row_a] == w.rows@[row_b] && w.cols@[col_a] == w.cols@[col_b] <==> row_a == row_b
            && col_a == col_b,
        w.rows@[row_a] != w.cols@[col_b],
{
}

/// The trackpad's bus has its data on P0.26 and its clock on P0.04; its motion
/// line is P0.08.
pub proof fn law_trackpad_pins(w: Wiring)
    requires
        w.is_left_half(),
    ensures
        w.pad_sda == (Pin { port: 0, number: 26 }),
        w.pad_scl == (Pin { port: 0, number: 4 }),
        w.pad_motion == (Pin { port: 0, number: 8 }),
{
}

/// The panel's bus has its clock on P0.27 and its data on P0.05; its select line
/// is P0.12.
pub proof fn law_panel_pins(w: Wiring)
    requires
        w.is_left_half(),
    ensures
        w.panel_sck == (Pin { port: 0, number: 27 }),
        w.panel_mosi == (Pin { port: 0, number: 5 }),
        w.panel_cs == (Pin { port: 0, number: 12 }),
{
}

/// The knob's phases are P0.14 and P0.11, the battery is sampled on P0.03, and
/// the indicator is P0.07.
pub proof fn law_knob_battery_and_led_pins(w: Wiring)
    requires
        w.is_left_half(),
    ensures
        w.battery == (Pin { port: 0, number: 3 }),
        w.encoder_a == (Pin { port: 0, number: 14 }),
        w.encoder_b == (Pin { port: 0, number: 11 }),
        w.link_led == (Pin { port: 0, number: 7 }),
{
}

} // verus!
