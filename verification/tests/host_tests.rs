//! Host-side session bring-up, the version gate, and the capability
//! wrappers' planned requests, driven against the device model end to end.

use embedded_bridge::board::board_table;
use embedded_bridge::codec::{decode_reply, encode_request, Decoded};
use embedded_bridge::device::{Device, DeviceStep};
use embedded_bridge::encoding::{Reply, Request, VERSION};
use embedded_bridge::gpio::PushPullPin;
use embedded_bridge::host::{assert_version, reply_is_success, version_of_reply, Session};
use embedded_bridge::i2c::I2C;
use embedded_bridge::spi::SPI;

/// Exchange one request with the device model and decode its reply.
fn exchange(d: &mut Device, r: &Request) -> Reply {
    let bytes = encode_request(r);
    let mut reply: Option<Reply> = None;
    for b in bytes.iter() {
        match d.on_byte(*b) {
            DeviceStep::Quiet => {}
            DeviceStep::Send { bytes } => match decode_reply(bytes.as_slice()) {
                Decoded::Complete { value, .. } => reply = Some(value),
                other => panic!("undecodable reply bytes: {:?}", other),
            },
            other => panic!("unexpected step {:?}", other),
        }
    }
    reply.expect("no reply to a whole request")
}

#[test]
fn session_establishes_against_a_matching_device() {
    let mut d = Device::new(board_table());
    let mut s = Session::new();
    let mut sent: Vec<Request> = Vec::new();

    let first = s.begin();
    sent.push(first.clone());
    let mut reply = exchange(&mut d, &first);
    while let Some(next) = s.on_reply(&reply) {
        sent.push(next.clone());
        reply = exchange(&mut d, &next);
        if s.on_reply(&reply).is_none() {
            break;
        }
    }
    assert!(s.ready());
    assert!(!s.aborted());
    assert_eq!(sent, vec![Request::Clear, Request::Version]);
}

#[test]
fn version_mismatch_aborts_before_any_peripheral_request() {
    let mut s = Session::new();
    let mut sent: Vec<Request> = Vec::new();

    sent.push(s.begin());
    // The device acknowledges the clear.
    let next = s.on_reply(&Reply::Success);
    assert_eq!(next, Some(Request::Version));
    sent.push(next.unwrap());
    // The device reports a different protocol version.
    let next = s.on_reply(&Reply::Version { version: VERSION + 1 });
    assert_eq!(next, None);
    assert!(s.aborted());
    assert!(!s.ready());
    // Nothing beyond Clear and Version was ever issued, and nothing more
    // will be: further replies keep the session aborted and silent.
    assert_eq!(sent, vec![Request::Clear, Request::Version]);
    assert_eq!(s.on_reply(&Reply::Success), None);
    assert!(s.aborted());
}

#[test]
fn non_version_reply_to_version_also_aborts() {
    let mut s = Session::new();
    s.begin();
    assert_eq!(s.on_reply(&Reply::NotImplemented), Some(Request::Version));
    assert_eq!(s.on_reply(&Reply::Success), None);
    assert!(s.aborted());
}

#[test]
fn assert_version_compares_the_build_constant() {
    assert!(assert_version(VERSION));
    assert!(!assert_version(VERSION + 1));
    assert!(!assert_version(0));
}

#[test]
fn reply_classifiers() {
    assert!(reply_is_success(&Reply::Success));
    assert!(!reply_is_success(&Reply::NotImplemented));
    assert!(!reply_is_success(&Reply::Version { version: VERSION }));
    assert_eq!(version_of_reply(&Reply::Version { version: 5 }), Some(5));
    assert_eq!(version_of_reply(&Reply::Success), None);
    assert_eq!(version_of_reply(&Reply::ReceiveErr { bytes: 64 }), None);
}

#[test]
fn pin_wrapper_plans_its_requests() {
    let pin = PushPullPin::new("a5".to_string());
    let (c, init) = pin.init_requests();
    assert_eq!(c, Request::Clear);
    assert_eq!(
        init,
        Request::GpioInitPP {
            pin: "a5".to_string()
        }
    );
    assert_eq!(
        pin.set_high_request(),
        Request::GpioSetHigh {
            pin: "a5".to_string()
        }
    );
    assert_eq!(
        pin.set_low_request(),
        Request::GpioSetLow {
            pin: "a5".to_string()
        }
    );
    assert_eq!(
        pin.toggle_request(),
        Request::GpioToggle {
            pin: "a5".to_string()
        }
    );
}

#[test]
fn i2c_wrapper_plans_its_requests() {
    let bus = I2C::new(
        "i2c1".to_string(),
        "f1".to_string(),
        "f0".to_string(),
        100,
    );
    let (c, init) = bus.init_requests();
    assert_eq!(c, Request::Clear);
    assert_eq!(
        init,
        Request::I2CInit {
            scl_pin: "f1".to_string(),
            sda_pin: "f0".to_string(),
            speed: 100
        }
    );
    assert_eq!(
        bus.write_request(0x3c, &[1, 2]),
        Request::I2CWrite {
            ident: "i2c1".to_string(),
            address: 0x3c,
            data: vec![1, 2]
        }
    );
}

#[test]
fn spi_wrapper_plans_its_requests() {
    let bus = SPI::new(
        "spi1".to_string(),
        "a5".to_string(),
        "a6".to_string(),
        "a7".to_string(),
        200,
    );
    let (c, init) = bus.init_requests();
    assert_eq!(c, Request::Clear);
    assert_eq!(
        init,
        Request::SPIInit {
            sck_pin: "a5".to_string(),
            miso_pin: "a6".to_string(),
            mosi_pin: "a7".to_string(),
            speed: 200
        }
    );
    assert_eq!(
        bus.write_request(&[5]),
        Request::SPIWrite {
            ident: "spi1".to_string(),
            data: vec![5]
        }
    );
}

#[test]
fn wrapper_construction_succeeds_against_the_device() {
    let mut d = Device::new(board_table());
    let pin = PushPullPin::new("a5".to_string());
    let (c, init) = pin.init_requests();
    assert!(matches!(exchange(&mut d, &c), Reply::Success));
    let reply = exchange(&mut d, &init);
    assert!(reply_is_success(&reply));
    let reply = exchange(&mut d, &pin.set_high_request());
    assert!(reply_is_success(&reply));
}
