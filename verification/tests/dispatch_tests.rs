//! Dispatcher rules: capability gating, bus identity gating, the speed
//! range, and state transitions, on the board's table.

use embedded_bridge::board::board_table;
use embedded_bridge::dispatch::{bus_write_reply, DispatchOutcome};
use embedded_bridge::encoding::{
    clear, gpio_init_pp, gpio_sethigh, gpio_setlow, gpio_toggle, i2c_init, i2c_write, reset,
    spi_init, spi_write, version, Reply, VERSION,
};

fn replied(out: DispatchOutcome) -> Reply {
    match out {
        DispatchOutcome::Replied { reply } => reply,
        other => panic!("expected a direct reply, got {:?}", other),
    }
}

#[test]
fn version_reports_the_build_constant() {
    let mut t = board_table();
    assert_eq!(
        replied(t.dispatch(&version())),
        Reply::Version { version: VERSION }
    );
}

#[test]
fn clear_succeeds_and_reset_is_not_implemented() {
    let mut t = board_table();
    assert_eq!(replied(t.dispatch(&clear())), Reply::Success);
    assert_eq!(replied(t.dispatch(&reset())), Reply::NotImplemented);
}

#[test]
fn gpio_init_then_level_ops_succeed() {
    let mut t = board_table();
    assert_eq!(replied(t.dispatch(&gpio_init_pp("a5"))), Reply::Success);
    assert_eq!(replied(t.dispatch(&gpio_sethigh("a5"))), Reply::Success);
    assert_eq!(replied(t.dispatch(&gpio_setlow("a5"))), Reply::Success);
    assert_eq!(replied(t.dispatch(&gpio_toggle("a5"))), Reply::Success);
}

#[test]
fn gpio_level_op_without_init_is_gated() {
    let mut t = board_table();
    assert_eq!(replied(t.dispatch(&gpio_sethigh("a5"))), Reply::NotImplemented);
    assert_eq!(replied(t.dispatch(&gpio_setlow("b3"))), Reply::NotImplemented);
    assert_eq!(replied(t.dispatch(&gpio_toggle("f0"))), Reply::NotImplemented);
}

#[test]
fn gpio_unknown_pin_is_gated() {
    let mut t = board_table();
    assert_eq!(replied(t.dispatch(&gpio_init_pp("zz"))), Reply::NotImplemented);
    assert_eq!(replied(t.dispatch(&gpio_sethigh("zz"))), Reply::NotImplemented);
    // "a2" is not wired on this variant even though its neighbours are.
    assert_eq!(replied(t.dispatch(&gpio_init_pp("a2"))), Reply::NotImplemented);
}

#[test]
fn i2c_init_accepts_only_the_wired_pair_and_speed_band() {
    let mut t = board_table();
    assert_eq!(replied(t.dispatch(&i2c_init("f1", "f0", 9))), Reply::NotImplemented);
    assert_eq!(replied(t.dispatch(&i2c_init("f1", "f0", 401))), Reply::NotImplemented);
    assert_eq!(replied(t.dispatch(&i2c_init("f0", "f1", 100))), Reply::NotImplemented);
    assert_eq!(replied(t.dispatch(&i2c_init("a5", "a6", 100))), Reply::NotImplemented);
    assert_eq!(replied(t.dispatch(&i2c_init("f1", "f0", 10))), Reply::Success);
    assert_eq!(replied(t.dispatch(&i2c_init("f1", "f0", 400))), Reply::Success);
}

#[test]
fn i2c_write_requires_matching_bus_identity() {
    let mut t = board_table();
    // No successful init yet: gated even under the right identifier.
    assert_eq!(
        replied(t.dispatch(&i2c_write("i2c1", 0x3c, &[1]))),
        Reply::NotImplemented
    );
    assert_eq!(replied(t.dispatch(&i2c_init("f1", "f0", 100))), Reply::Success);
    // Wrong identifier: gated.
    assert_eq!(
        replied(t.dispatch(&i2c_write("i2c2", 0x3c, &[1]))),
        Reply::NotImplemented
    );
    // Matching identifier: the transfer is handed out to the hardware.
    match t.dispatch(&i2c_write("i2c1", 0x3c, &[1, 2])) {
        DispatchOutcome::I2cWrite { address, data } => {
            assert_eq!(address, 0x3c);
            assert_eq!(data, vec![1, 2]);
        }
        other => panic!("expected an I2C transfer, got {:?}", other),
    }
}

#[test]
fn spi_write_requires_matching_bus_identity() {
    let mut t = board_table();
    assert_eq!(
        replied(t.dispatch(&spi_write("spi1", &[1]))),
        Reply::NotImplemented
    );
    assert_eq!(
        replied(t.dispatch(&spi_init("a5", "a6", "a7", 100))),
        Reply::Success
    );
    assert_eq!(
        replied(t.dispatch(&spi_write("spi2", &[1]))),
        Reply::NotImplemented
    );
    match t.dispatch(&spi_write("spi1", &[9, 9, 9])) {
        DispatchOutcome::SpiWrite { data } => assert_eq!(data, vec![9, 9, 9]),
        other => panic!("expected an SPI transfer, got {:?}", other),
    }
}

#[test]
fn spi_init_accepts_only_the_wired_triple() {
    let mut t = board_table();
    assert_eq!(
        replied(t.dispatch(&spi_init("a5", "a6", "a8", 100))),
        Reply::NotImplemented
    );
    assert_eq!(
        replied(t.dispatch(&spi_init("a5", "a7", "a6", 100))),
        Reply::NotImplemented
    );
    assert_eq!(
        replied(t.dispatch(&spi_init("a5", "a6", "a7", 401))),
        Reply::NotImplemented
    );
    assert_eq!(
        replied(t.dispatch(&spi_init("a5", "a6", "a7", 400))),
        Reply::Success
    );
}

#[test]
fn bus_write_reply_reports_hardware_failure() {
    assert_eq!(bus_write_reply(true, 3), Reply::Success);
    assert_eq!(bus_write_reply(false, 3), Reply::Failure { bytes: 3 });
}
