//! Remote control of a microcontroller's GPIO, I2C and SPI peripherals over a
//! byte-oriented serial link.
//!
//! The crate holds the protocol engine: the wire codec for requests and
//! replies, the device-side frame accumulator and command dispatcher, and the
//! host-side session and capability wrappers. All I/O stays with the caller;
//! every function here is pure data transformation over bytes and protocol
//! values.

pub mod board;
pub mod codec;
pub mod codec_laws;
pub mod device;
pub mod dispatch;
pub mod encoding;
pub mod frame;
pub mod frame_laws;
pub mod gpio;
pub mod host;
pub mod i2c;
pub mod spi;
