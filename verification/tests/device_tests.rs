//! End-to-end device behaviour: bytes in over the simulated line, reply
//! bytes out, as the firmware loop would drive it.

use embedded_bridge::board::board_table;
use embedded_bridge::codec::{decode_reply, encode_request, Decoded};
use embedded_bridge::device::{transfer_reply, Device, DeviceStep};
use embedded_bridge::encoding::{
    gpio_init_pp, gpio_sethigh, i2c_init, i2c_write, Reply, Request,
};
use embedded_bridge::frame::FRAME_CAPACITY;

/// Feed one whole encoded request; every byte but the last must stay quiet,
/// and the last byte's step is returned.
fn feed_request(d: &mut Device, r: &Request) -> DeviceStep {
    let bytes = encode_request(r);
    let n = bytes.len();
    for (i, b) in bytes.iter().enumerate() {
        let step = d.on_byte(*b);
        if i + 1 < n {
            assert_eq!(step, DeviceStep::Quiet, "early reply at byte {}", i + 1);
        } else {
            return step;
        }
    }
    unreachable!();
}

fn sent_reply(step: DeviceStep) -> Reply {
    match step {
        DeviceStep::Send { bytes } => match decode_reply(bytes.as_slice()) {
            Decoded::Complete { value, used } => {
                assert_eq!(used, bytes.len());
                value
            }
            other => panic!("undecodable reply bytes: {:?}", other),
        },
        other => panic!("expected reply bytes, got {:?}", other),
    }
}

#[test]
fn gpio_init_then_set_high_succeeds() {
    let mut d = Device::new(board_table());
    let step = feed_request(&mut d, &gpio_init_pp("a5"));
    assert_eq!(sent_reply(step), Reply::Success);
    let step = feed_request(&mut d, &gpio_sethigh("a5"));
    assert_eq!(sent_reply(step), Reply::Success);
}

#[test]
fn gpio_set_high_on_unknown_pin_is_not_implemented() {
    let mut d = Device::new(board_table());
    let step = feed_request(&mut d, &gpio_sethigh("zz"));
    assert_eq!(sent_reply(step), Reply::NotImplemented);
}

#[test]
fn i2c_write_streams_bytewise_then_transfers() {
    let mut d = Device::new(board_table());
    let step = feed_request(&mut d, &i2c_init("f1", "f0", 100));
    assert_eq!(sent_reply(step), Reply::Success);

    let req = i2c_write("i2c1", 0x3c, &[1, 2, 3, 4, 5, 6, 7, 8, 9, 10, 11, 12]);
    assert_eq!(encode_request(&req).len(), 20);
    match feed_request(&mut d, &req) {
        DeviceStep::I2cTransfer { address, data } => {
            assert_eq!(address, 0x3c);
            assert_eq!(data.len(), 12);
            // The hardware performed the transfer: one success reply goes out.
            let out = transfer_reply(true, data.len() as u8);
            assert_eq!(
                decode_reply(out.as_slice()),
                Decoded::Complete {
                    value: Reply::Success,
                    used: out.len()
                }
            );
        }
        other => panic!("expected an I2C transfer, got {:?}", other),
    }
}

#[test]
fn i2c_write_without_init_is_not_implemented() {
    let mut d = Device::new(board_table());
    let req = i2c_write("i2c1", 0x3c, &[1, 2, 3, 4, 5, 6, 7, 8, 9, 10, 11, 12]);
    let step = feed_request(&mut d, &req);
    assert_eq!(sent_reply(step), Reply::NotImplemented);
}

#[test]
fn failed_transfer_reports_a_distinct_error() {
    let out = transfer_reply(false, 12);
    assert_eq!(
        decode_reply(out.as_slice()),
        Decoded::Complete {
            value: Reply::Failure { bytes: 12 },
            used: out.len()
        }
    );
}

#[test]
fn overflow_reports_exactly_one_receive_error() {
    let mut d = Device::new(board_table());
    // A GpioInitPP whose pin-name length byte promises more than the frame
    // capacity can hold: every byte keeps the decoder waiting.
    let mut reported = 0usize;
    for i in 0..(FRAME_CAPACITY + 1) {
        match d.on_byte(if i == 0 {
            3
        } else if i == 1 {
            200
        } else {
            b'x'
        }) {
            DeviceStep::Quiet => {}
            DeviceStep::Send { bytes } => {
                reported += 1;
                assert_eq!(i, FRAME_CAPACITY, "report came before the overflow byte");
                assert_eq!(
                    decode_reply(bytes.as_slice()),
                    Decoded::Complete {
                        value: Reply::ReceiveErr {
                            bytes: FRAME_CAPACITY as u8
                        },
                        used: bytes.len()
                    }
                );
            }
            other => panic!("unexpected step {:?}", other),
        }
    }
    assert_eq!(reported, 1);
    // The line has recovered: a whole command goes through afterwards.
    let step = feed_request(&mut d, &gpio_init_pp("a5"));
    assert_eq!(sent_reply(step), Reply::Success);
}

#[test]
fn message_of_exactly_the_capacity_completes() {
    let mut d = Device::new(board_table());
    let step = feed_request(&mut d, &i2c_init("f1", "f0", 100));
    assert_eq!(sent_reply(step), Reply::Success);
    // Tag, identifier, address and length bytes put the payload 8 bytes up:
    // 56 data bytes make a 64-byte frame, filling the buffer exactly.
    let data = [7u8; 56];
    let req = i2c_write("i2c1", 0x10, &data);
    assert_eq!(encode_request(&req).len(), FRAME_CAPACITY);
    match feed_request(&mut d, &req) {
        DeviceStep::I2cTransfer { address, data } => {
            assert_eq!(address, 0x10);
            assert_eq!(data.len(), 56);
        }
        other => panic!("expected an I2C transfer, got {:?}", other),
    }
}

#[test]
fn message_one_byte_over_the_capacity_overflows() {
    let mut d = Device::new(board_table());
    let data = [7u8; 57];
    let req = i2c_write("i2c1", 0x10, &data);
    let bytes = encode_request(&req);
    assert_eq!(bytes.len(), FRAME_CAPACITY + 1);
    let mut reports = Vec::new();
    for b in bytes.iter() {
        match d.on_byte(*b) {
            DeviceStep::Quiet => {}
            DeviceStep::Send { bytes } => reports.push(bytes),
            other => panic!("unexpected step {:?}", other),
        }
    }
    assert_eq!(reports.len(), 1);
    assert_eq!(
        decode_reply(reports[0].as_slice()),
        Decoded::Complete {
            value: Reply::ReceiveErr {
                bytes: FRAME_CAPACITY as u8
            },
            used: reports[0].len()
        }
    );
}

#[test]
fn malformed_frame_gets_a_verbose_error() {
    let mut d = Device::new(board_table());
    match d.on_byte(255) {
        DeviceStep::Send { bytes } => match decode_reply(bytes.as_slice()) {
            Decoded::Complete { value, .. } => match value {
                Reply::VerboseErr { err } => assert_eq!(err, "decode error"),
                other => panic!("expected a verbose error, got {:?}", other),
            },
            other => panic!("undecodable reply bytes: {:?}", other),
        },
        other => panic!("expected reply bytes, got {:?}", other),
    }
    // And the device keeps working.
    let step = feed_request(&mut d, &gpio_init_pp("b4"));
    assert_eq!(sent_reply(step), Reply::Success);
}
