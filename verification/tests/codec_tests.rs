//! Wire codec: exact encodings, round trips, prefix handling, and malformed
//! input.

use embedded_bridge::codec::{decode_reply, decode_request, encode_reply, encode_request, Decoded};
use embedded_bridge::encoding::{
    clear, current_version, gpio_init_pp, gpio_sethigh, gpio_setlow, gpio_toggle, i2c_init,
    i2c_write, reset, spi_init, spi_write, version, Reply, Request, VERSION,
};

fn round_trip_request(r: Request) {
    let e = encode_request(&r);
    match decode_request(e.as_slice()) {
        Decoded::Complete { value, used } => {
            assert_eq!(value, r);
            assert_eq!(used, e.len());
        }
        other => panic!("expected a complete decode, got {:?}", other),
    }
}

fn round_trip_reply(r: Reply) {
    let e = encode_reply(&r);
    match decode_reply(e.as_slice()) {
        Decoded::Complete { value, used } => {
            assert_eq!(value, r);
            assert_eq!(used, e.len());
        }
        other => panic!("expected a complete decode, got {:?}", other),
    }
}

#[test]
fn request_round_trips() {
    round_trip_request(version());
    round_trip_request(clear());
    round_trip_request(reset());
    round_trip_request(gpio_init_pp("a5"));
    round_trip_request(gpio_sethigh("a14"));
    round_trip_request(gpio_setlow(""));
    round_trip_request(gpio_toggle("b3"));
    round_trip_request(i2c_init("f1", "f0", 400));
    round_trip_request(i2c_write("i2c1", 0x3c, &[1, 2, 3, 255, 0]));
    round_trip_request(spi_init("a5", "a6", "a7", 10));
    round_trip_request(spi_write("spi1", &[]));
}

#[test]
fn request_round_trip_largest_payload() {
    let data = [0xabu8; 255];
    round_trip_request(i2c_write("i2c1", 0x77, &data));
    round_trip_request(spi_write("spi1", &data));
}

#[test]
fn reply_round_trips() {
    round_trip_reply(Reply::Success);
    round_trip_reply(Reply::Incomplete);
    round_trip_reply(Reply::NotImplemented);
    round_trip_reply(Reply::Version { version: 5 });
    round_trip_reply(Reply::VerboseErr {
        err: "decode error".to_string(),
    });
    round_trip_reply(Reply::ReceiveErr { bytes: 64 });
    round_trip_reply(Reply::Failure { bytes: 17 });
    round_trip_reply(current_version());
}

#[test]
fn exact_request_encodings() {
    assert_eq!(encode_request(&version()), vec![0]);
    assert_eq!(encode_request(&clear()), vec![1]);
    assert_eq!(encode_request(&reset()), vec![2]);
    assert_eq!(encode_request(&gpio_init_pp("a5")), vec![3, 2, b'a', b'5']);
    assert_eq!(encode_request(&gpio_sethigh("a5")), vec![4, 2, b'a', b'5']);
    assert_eq!(encode_request(&gpio_setlow("a5")), vec![5, 2, b'a', b'5']);
    assert_eq!(encode_request(&gpio_toggle("a5")), vec![6, 2, b'a', b'5']);
    assert_eq!(
        encode_request(&i2c_init("f1", "f0", 100)),
        vec![7, 2, b'f', b'1', 2, b'f', b'0', 100, 0, 0, 0]
    );
    assert_eq!(
        encode_request(&i2c_write("i2c1", 0x3c, &[9, 8])),
        vec![8, 4, b'i', b'2', b'c', b'1', 0x3c, 2, 9, 8]
    );
    assert_eq!(
        encode_request(&spi_init("a5", "a6", "a7", 0x01020304)),
        vec![9, 2, b'a', b'5', 2, b'a', b'6', 2, b'a', b'7', 4, 3, 2, 1]
    );
    assert_eq!(
        encode_request(&spi_write("spi1", &[7])),
        vec![10, 4, b's', b'p', b'i', b'1', 1, 7]
    );
}

#[test]
fn exact_reply_encodings() {
    assert_eq!(encode_reply(&Reply::Success), vec![0]);
    assert_eq!(encode_reply(&Reply::Incomplete), vec![1]);
    assert_eq!(encode_reply(&Reply::NotImplemented), vec![2]);
    assert_eq!(
        encode_reply(&Reply::Version { version: VERSION }),
        vec![3, 5]
    );
    assert_eq!(
        encode_reply(&Reply::VerboseErr {
            err: "hi".to_string()
        }),
        vec![4, 2, b'h', b'i']
    );
    assert_eq!(encode_reply(&Reply::ReceiveErr { bytes: 64 }), vec![5, 64]);
    assert_eq!(encode_reply(&Reply::Failure { bytes: 9 }), vec![6, 9]);
}

#[test]
fn every_proper_prefix_is_incomplete() {
    let e = encode_request(&i2c_write("i2c1", 0x50, &[1, 2, 3, 4, 5, 6, 7, 8, 9, 10, 11, 12]));
    assert_eq!(e.len(), 20);
    for k in 0..e.len() {
        match decode_request(&e[..k]) {
            Decoded::Incomplete => {}
            other => panic!("prefix of {} bytes gave {:?}", k, other),
        }
    }
    let r = encode_reply(&Reply::VerboseErr {
        err: "decode error".to_string(),
    });
    for k in 0..r.len() {
        match decode_reply(&r[..k]) {
            Decoded::Incomplete => {}
            other => panic!("prefix of {} bytes gave {:?}", k, other),
        }
    }
}

#[test]
fn unknown_tag_is_malformed() {
    assert_eq!(decode_request(&[11]), Decoded::Malformed);
    assert_eq!(decode_request(&[255]), Decoded::Malformed);
    assert_eq!(decode_reply(&[7]), Decoded::Malformed);
}

#[test]
fn non_ascii_identifier_is_malformed() {
    // GpioInitPP with a two-byte pin name whose second byte is not ASCII.
    assert_eq!(decode_request(&[3, 2, b'a', 0x80]), Decoded::Malformed);
}

#[test]
fn trailing_bytes_belong_to_the_next_message() {
    let mut e = encode_request(&gpio_init_pp("a5"));
    let first = e.len();
    e.extend_from_slice(&encode_request(&clear()));
    match decode_request(e.as_slice()) {
        Decoded::Complete { value, used } => {
            assert_eq!(value, gpio_init_pp("a5"));
            assert_eq!(used, first);
        }
        other => panic!("expected a complete decode, got {:?}", other),
    }
}

#[test]
fn empty_buffer_is_incomplete() {
    assert_eq!(decode_request(&[]), Decoded::Incomplete);
    assert_eq!(decode_reply(&[]), Decoded::Incomplete);
}
