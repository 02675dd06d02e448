# Keypoint, left half

The left half of the Keypoint split keyboard (nRF52840): it scans its own 6 x 8
keys, reads the trackpad, draws its panel, and talks to the host over USB or
Bluetooth and to the right half over Bluetooth.

`src/` is the verified library. It holds what the firmware decides, with
contracts that Verus proves:

| module | what it decides |
|---|---|
| `address` | the Bluetooth address, from the chip's device identifier |
| `behavior` | tapping term, and the mouse layer that pointer motion brings up |
| `clock` | the low-frequency clock of the radio scheduler |
| `controller` | the calls that bring the Bluetooth controller up |
| `identity` | USB and Vial identity, settings in flash, charger |
| `layout` | where the keys of the two halves sit in the 12 x 8 key map |
| `panel` | rotation and redraw interval of the panel |
| `schedule` | the tasks and the order in which they start |
| `sensing` | knob, pointers, battery gauge |
| `ticks` | time spans in clock ticks |
| `wiring` | which pin carries which signal |

Proof functions named `law_...` state what holds of the library as a whole.

`tests/` runs the library. `app/` is the firmware around it: it owns the
peripherals, converts the library's settings into the types of the frameworks,
and runs the tasks. The key map, the Vial definition and the device drivers
(trackpad, panel, pointer speed, scroll keys, status LED and the like) are
modules that stand next to `app/main.rs` and are kept apart from this project.

The features in `Cargo.toml` are those that build on any host. For the board,
`embassy-executor` needs `platform-cortex-m` and `executor-thread`, and `rmk`
needs `nrf52840_ble` and `adafruit_bl`.
