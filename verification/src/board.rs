//! The hardware variant's compile-time configuration: the closed set of pin
//! identifiers the target exposes, as one table rather than inline branches.

use vstd::prelude::*;

use crate::dispatch::{CapabilityTable, PinState, TableView};

verus! {

/// The pins the STM32F042 target variant exposes, in table order.
pub open spec fn board_pin_names() -> Seq<Seq<char>> {
    seq![
        "a0"@,
        "a1"@,
        "a3"@,
        "a4"@,
        "a5"@,
        "a6"@,
        "a7"@,
        "a8"@,
        "a9"@,
        "a10"@,
        "a11"@,
        "a12"@,
        "a13"@,
        "a14"@,
        "b3"@,
        "b4"@,
        "f0"@,
        "f1"@,
    ]
}

/// The capability table the device boots with: every board pin present but
/// unconfigured, I2C wired on the port-F pair, and no bus handle yet.
pub open spec fn spec_board_table() -> TableView {
    TableView {
        pins: Seq::new(
            board_pin_names().len(),
            |i: int| (board_pin_names()[i], PinState::Unconfigured),
        ),
        has_i2c: true,
        i2c_on: false,
        spi_on: false,
    }
}

/// Build the boot-time capability table for the STM32F042 variant.
pub fn board_table() -> (t: CapabilityTable)
    ensures
        t@ == spec_board_table(),
{
    let mut names: Vec<String> = Vec::new();
    names.push("a0".to_owned());
    names.push("a1".to_owned());
    names.push("a3".to_owned());
    names.push("a4".to_owned());
    names.push("a5".to_owned());
    names.push("a6".to_owned());
    names.push("a7".to_owned());
    names.push("a8".to_owned());
    names.push("a9".to_owned());
    names.push("a10".to_owned());
    names.push("a11".to_owned());
    names.push("a12".to_owned());
    names.push("a13".to_owned());
    names.push("a14".to_owned());
    names.push("b3".to_owned());
    names.push("b4".to_owned());
    names.push("f0".to_owned());
    names.push("f1".to_owned());
    let t = CapabilityTable::new(names, true);
    proof {
        assert(t@.pins =~= spec_board_table().pins);
        assert(t@ =~= spec_board_table());
    }
    t
}

} // verus!
