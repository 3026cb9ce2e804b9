//! The device-side command dispatcher: routes a decoded request to the
//! capability table, transitions pin and bus state, and produces the reply —
//! or hands a gated bus write back to the caller to perform on the hardware.
//!
//! The table is the per-hardware-variant configuration: a fixed set of named
//! pins, whether an I2C bus is wired at all, and whether each bus has been
//! initialised. A write, set or toggle is valid only when its target is in
//! the state the operation requires; anything else answers `NotImplemented`
//! and changes nothing.

use vstd::prelude::*;

use crate::encoding::{Reply, ReplyView, Request, RequestView, VERSION};

verus! {

/// Slowest accepted bus clock, in kHz.
pub const SPEED_MIN_KHZ: u32 = 10;

/// Fastest accepted bus clock, in kHz.
pub const SPEED_MAX_KHZ: u32 = 400;

/// A bus clock the device accepts, bounds included.
pub open spec fn speed_ok(speed: u32) -> bool {
    SPEED_MIN_KHZ <= speed <= SPEED_MAX_KHZ
}

/// The SCL pin of the one electrically wired I2C combination.
pub open spec fn i2c_scl_name() -> Seq<char> {
    "f1"@
}

/// The SDA pin of the one electrically wired I2C combination.
pub open spec fn i2c_sda_name() -> Seq<char> {
    "f0"@
}

/// The identifier of the one I2C bus instance.
pub open spec fn i2c_bus_name() -> Seq<char> {
    "i2c1"@
}

/// The SCK pin of the one electrically wired SPI combination.
pub open spec fn spi_sck_name() -> Seq<char> {
    "a5"@
}

/// The MISO pin of the one electrically wired SPI combination.
pub open spec fn spi_miso_name() -> Seq<char> {
    "a6"@
}

/// The MOSI pin of the one electrically wired SPI combination.
pub open spec fn spi_mosi_name() -> Seq<char> {
    "a7"@
}

/// The identifier of the one SPI bus instance.
pub open spec fn spi_bus_name() -> Seq<char> {
    "spi1"@
}

/// The capability state of one named pin.
#[derive(Debug, Clone, Copy, PartialEq, Eq, Structural)]
pub enum PinState {
    /// Present on the hardware but not yet configured.
    Unconfigured,
    /// Configured as a push-pull output, currently driven to `high`.
    Output { high: bool },
}

/// One named pin and its capability state.
struct PinEntry {
    name: String,
    state: PinState,
}

/// The mathematical value of a [`CapabilityTable`]: the pins in table order
/// with their states, the variant's I2C wiring flag, and whether each bus
/// holds an initialised handle.
#[verifier::ext_equal]
pub struct TableView {
    pub pins: Seq<(Seq<char>, PinState)>,
    pub has_i2c: bool,
    pub i2c_on: bool,
    pub spi_on: bool,
}

/// The state of the first pin named `name`, if the table has one.
pub open spec fn lookup_pin(pins: Seq<(Seq<char>, PinState)>, name: Seq<char>) -> Option<PinState>
    decreases pins.len(),
{
    if pins.len() == 0 {
        None
    } else if pins[0].0 == name {
        Some(pins[0].1)
    } else {
        lookup_pin(pins.drop_first(), name)
    }
}

/// The table with the first pin named `name` moved to state `st`; unchanged
/// when no pin has that name.
pub open spec fn set_pin(
    pins: Seq<(Seq<char>, PinState)>,
    name: Seq<char>,
    st: PinState,
) -> Seq<(Seq<char>, PinState)>
    decreases pins.len(),
{
    if pins.len() == 0 {
        pins
    } else if pins[0].0 == name {
        seq![(name, st)] + pins.drop_first()
    } else {
        seq![pins[0]] + set_pin(pins.drop_first(), name, st)
    }
}

impl TableView {
    /// The state of the pin named `name`, if the variant has one.
    pub open spec fn pin_state(self, name: Seq<char>) -> Option<PinState> {
        lookup_pin(self.pins, name)
    }

    /// This table with the pin named `name` moved to state `st`.
    pub open spec fn with_pin(self, name: Seq<char>, st: PinState) -> TableView {
        TableView { pins: set_pin(self.pins, name, st), ..self }
    }
}

/// What the dispatcher decided for one request.
#[derive(Debug, Clone, PartialEq, Eq)]
pub enum DispatchOutcome {
    /// The request was answered outright.
    Replied { reply: Reply },
    /// Gating passed for an I2C write: the caller performs the transfer on
    /// the hardware, then builds the reply with [`bus_write_reply`].
    I2cWrite { address: u8, data: Vec<u8> },
    /// Gating passed for an SPI write: the caller performs the transfer.
    SpiWrite { data: Vec<u8> },
}

/// The mathematical value of a [`DispatchOutcome`].
#[verifier::ext_equal]
pub enum DispatchOutcomeView {
    Replied { reply: ReplyView },
    I2cWrite { address: u8, data: Seq<u8> },
    SpiWrite { data: Seq<u8> },
}

impl View for DispatchOutcome {
    type V = DispatchOutcomeView;

    open spec fn view(&self) -> DispatchOutcomeView {
        match self {
            DispatchOutcome::Replied { reply } => DispatchOutcomeView::Replied { reply: reply@ },
            DispatchOutcome::I2cWrite { address, data } => DispatchOutcomeView::I2cWrite {
                address: *address,
                data: data@,
            },
            DispatchOutcome::SpiWrite { data } => DispatchOutcomeView::SpiWrite { data: data@ },
        }
    }
}

/// A replied outcome, for brevity in the dispatch rules.
pub open spec fn replied(r: ReplyView) -> DispatchOutcomeView {
    DispatchOutcomeView::Replied { reply: r }
}

/// The dispatch rules: what one request does to the table, and the outcome.
/// A pure function of the pair, exactly as the device applies it.
pub open spec fn spec_dispatch(t: TableView, r: RequestView) -> (TableView, DispatchOutcomeView) {
    match r {
        RequestView::Version => (t, replied(ReplyView::Version { version: VERSION })),
        RequestView::Clear => (t, replied(ReplyView::Success)),
        RequestView::Reset => (t, replied(ReplyView::NotImplemented)),
        RequestView::GpioInitPP { pin } => {
            if t.pin_state(pin) is Some {
                (t.with_pin(pin, PinState::Output { high: false }), replied(ReplyView::Success))
            } else {
                (t, replied(ReplyView::NotImplemented))
            }
        },
        RequestView::GpioSetHigh { pin } => {
            if t.pin_state(pin) matches Some(PinState::Output { .. }) {
                (t.with_pin(pin, PinState::Output { high: true }), replied(ReplyView::Success))
            } else {
                (t, replied(ReplyView::NotImplemented))
            }
        },
        RequestView::GpioSetLow { pin } => {
            if t.pin_state(pin) matches Some(PinState::Output { .. }) {
                (t.with_pin(pin, PinState::Output { high: false }), replied(ReplyView::Success))
            } else {
                (t, replied(ReplyView::NotImplemented))
            }
        },
        RequestView::GpioToggle { pin } => {
            match t.pin_state(pin) {
                Some(PinState::Output { high }) => (
                    t.with_pin(pin, PinState::Output { high: !high }),
                    replied(ReplyView::Success),
                ),
                _ => (t, replied(ReplyView::NotImplemented)),
            }
        },
        RequestView::I2CInit { scl_pin, sda_pin, speed } => {
            if t.has_i2c && scl_pin == i2c_scl_name() && sda_pin == i2c_sda_name() && speed_ok(
                speed,
            ) {
                (TableView { i2c_on: true, ..t }, replied(ReplyView::Success))
            } else {
                (t, replied(ReplyView::NotImplemented))
            }
        },
        RequestView::I2CWrite { ident, address, data } => {
            if t.has_i2c && ident == i2c_bus_name() && t.i2c_on {
                (t, DispatchOutcomeView::I2cWrite { address, data })
            } else {
                (t, replied(ReplyView::NotImplemented))
            }
        },
        RequestView::SPIInit { sck_pin, miso_pin, mosi_pin, speed } => {
            if sck_pin == spi_sck_name() && miso_pin == spi_miso_name() && mosi_pin
                == spi_mosi_name() && speed_ok(speed) {
                (TableView { spi_on: true, ..t }, replied(ReplyView::Success))
            } else {
                (t, replied(ReplyView::NotImplemented))
            }
        },
        RequestView::SPIWrite { ident, data } => {
            if ident == spi_bus_name() && t.spi_on {
                (t, DispatchOutcomeView::SpiWrite { data })
            } else {
                (t, replied(ReplyView::NotImplemented))
            }
        },
    }
}

/// Looking a name up after skipping `i` entries that do not carry it finds
/// the same answer as looking it up in the whole table.
proof fn lemma_lookup_at(pins: Seq<(Seq<char>, PinState)>, name: Seq<char>, i: int)
    requires
        0 <= i < pins.len(),
        forall|j: int| 0 <= j < i ==> (#[trigger] pins[j]).0 != name,
        pins[i].0 == name,
    ensures
        lookup_pin(pins, name) == Some(pins[i].1),
    decreases i,
{
    if i > 0 {
        lemma_lookup_at(pins.drop_first(), name, i - 1);
    }
}

/// A name carried by no entry is not in the table.
proof fn lemma_lookup_none(pins: Seq<(Seq<char>, PinState)>, name: Seq<char>)
    requires
        forall|j: int| 0 <= j < pins.len() ==> (#[trigger] pins[j]).0 != name,
    ensures
        lookup_pin(pins, name) is None,
    decreases pins.len(),
{
    if pins.len() > 0 {
        lemma_lookup_none(pins.drop_first(), name);
    }
}

/// Setting a pin whose first occurrence is at `i` updates exactly that entry.
proof fn lemma_set_pin_at(pins: Seq<(Seq<char>, PinState)>, name: Seq<char>, st: PinState, i: int)
    requires
        0 <= i < pins.len(),
        forall|j: int| 0 <= j < i ==> (#[trigger] pins[j]).0 != name,
        pins[i].0 == name,
    ensures
        set_pin(pins, name, st) == pins.update(i, (name, st)),
    decreases i,
{
    if i == 0 {
        assert(set_pin(pins, name, st) =~= pins.update(0, (name, st)));
    } else {
        lemma_set_pin_at(pins.drop_first(), name, st, i - 1);
        assert(set_pin(pins, name, st) =~= pins.update(i, (name, st)));
    }
}

/// Setting a name carried by no entry changes nothing.
proof fn lemma_set_pin_none(pins: Seq<(Seq<char>, PinState)>, name: Seq<char>, st: PinState)
    requires
        forall|j: int| 0 <= j < pins.len() ==> (#[trigger] pins[j]).0 != name,
    ensures
        set_pin(pins, name, st) == pins,
    decreases pins.len(),
{
    if pins.len() > 0 {
        lemma_set_pin_none(pins.drop_first(), name, st);
        assert(set_pin(pins, name, st) =~= pins);
    } else {
        assert(set_pin(pins, name, st) =~= pins);
    }
}

/// Whether a string holds exactly the given identifier.
fn string_is(s: &String, lit: &str) -> (r: bool)
    ensures
        r == (s@ == lit@),
{
    let t: String = lit.to_owned();
    *s == t
}

/// The device-resident capability table: each hardware pin with its state,
/// and the at-most-one handle per bus.
pub struct CapabilityTable {
    pins: Vec<PinEntry>,
    has_i2c: bool,
    i2c_on: bool,
    spi_on: bool,
}

impl View for CapabilityTable {
    type V = TableView;

    closed spec fn view(&self) -> TableView {
        TableView {
            pins: Seq::new(self.pins@.len(), |i: int| (self.pins@[i].name@, self.pins@[i].state)),
            has_i2c: self.has_i2c,
            i2c_on: self.i2c_on,
            spi_on: self.spi_on,
        }
    }
}

impl CapabilityTable {
    /// A table for a hardware variant with the given pins, all present but
    /// unconfigured, no bus handle yet, and I2C wired or not.
    pub fn new(pin_names: Vec<String>, has_i2c: bool) -> (t: CapabilityTable)
        ensures
            t@.pins.len() == pin_names@.len(),
            forall|i: int|
                0 <= i < pin_names@.len() ==> t@.pins[i] == (
                    pin_names@[i]@,
                    PinState::Unconfigured,
                ),
            t@.has_i2c == has_i2c,
            !t@.i2c_on,
            !t@.spi_on,
    {
        let mut pins: Vec<PinEntry> = Vec::new();
        let mut k: usize = 0;
        while k < pin_names.len()
            invariant
                k <= pin_names@.len(),
                pins@.len() == k,
                forall|i: int|
                    0 <= i < k ==> (#[trigger] pins@[i]).name@ == pin_names@[i]@ && pins@[i].state
                        == PinState::Unconfigured,
            decreases pin_names@.len() - k,
        {
            let name = pin_names[k].clone();
            pins.push(PinEntry { name, state: PinState::Unconfigured });
            k += 1;
        }
        CapabilityTable { pins, has_i2c, i2c_on: false, spi_on: false }
    }

    /// The index of the pin named `name`, scanning in table order.
    fn find_pin(&self, name: &String) -> (r: Option<usize>)
        ensures
            match r {
                Some(i) => i < self@.pins.len() && self@.pins[i as int].0 == name@
                    && self@.pin_state(name@) == Some(self@.pins[i as int].1) && forall|j: int|
                    0 <= j < i ==> (#[trigger] self@.pins[j]).0 != name@,
                None => self@.pin_state(name@) is None,
            },
    {
        let n = self.pins.len();
        let mut k: usize = 0;
        while k < n
            invariant
                n == self.pins@.len(),
                k <= n,
                forall|j: int| 0 <= j < k ==> (#[trigger] self@.pins[j]).0 != name@,
            decreases n - k,
        {
            if self.pins[k].name == *name {
                proof {
                    lemma_lookup_at(self@.pins, name@, k as int);
                }
                return Some(k);
            }
            k += 1;
        }
        proof {
            lemma_lookup_none(self@.pins, name@);
        }
        None
    }

    /// Move the pin at `i` to state `st`.
    fn set_state(&mut self, i: usize, st: PinState)
        requires
            i < old(self)@.pins.len(),
        ensures
            final(self)@.pins == old(self)@.pins.update(
                i as int,
                (old(self)@.pins[i as int].0, st),
            ),
            final(self)@.has_i2c == old(self)@.has_i2c,
            final(self)@.i2c_on == old(self)@.i2c_on,
            final(self)@.spi_on == old(self)@.spi_on,
    {
        let entry = self.pins.remove(i);
        self.pins.insert(i, PinEntry { name: entry.name, state: st });
        proof {
            assert(final(self)@.pins =~= old(self)@.pins.update(
                i as int,
                (old(self)@.pins[i as int].0, st),
            ));
        }
    }

    /// Apply one decoded request to the table, exactly as [`spec_dispatch`]
    /// rules, and return the outcome. A returned bus write has passed all
    /// gating; the caller performs it and answers with [`bus_write_reply`].
    #[verifier::rlimit(100)]
    #[verifier::spinoff_prover]
    pub fn dispatch(&mut self, req: &Request) -> (out: DispatchOutcome)
        ensures
            final(self)@ == spec_dispatch(old(self)@, req@).0,
            out@ == spec_dispatch(old(self)@, req@).1,
    {
        match req {
            Request::Version => DispatchOutcome::Replied {
                reply: Reply::Version { version: VERSION },
            },
            Request::Clear => DispatchOutcome::Replied { reply: Reply::Success },
            Request::Reset => DispatchOutcome::Replied { reply: Reply::NotImplemented },
            Request::GpioInitPP { pin } => {
                match self.find_pin(pin) {
                    Some(i) => {
                        proof {
                            lemma_set_pin_at(
                                self@.pins,
                                pin@,
                                PinState::Output { high: false },
                                i as int,
                            );
                        }
                        self.set_state(i, PinState::Output { high: false });
                        proof {
                            assert(final(self)@ =~= spec_dispatch(old(self)@, req@).0);
                        }
                        DispatchOutcome::Replied { reply: Reply::Success }
                    },
                    None => DispatchOutcome::Replied { reply: Reply::NotImplemented },
                }
            },
            Request::GpioSetHigh { pin } => {
                match self.find_pin(pin) {
                    Some(i) => {
                        match self.pins[i].state {
                            PinState::Output { .. } => {
                                proof {
                                    lemma_set_pin_at(
                                        self@.pins,
                                        pin@,
                                        PinState::Output { high: true },
                                        i as int,
                                    );
                                }
                                self.set_state(i, PinState::Output { high: true });
                                proof {
                                    assert(final(self)@ =~= spec_dispatch(old(self)@, req@).0);
                                }
                                DispatchOutcome::Replied { reply: Reply::Success }
                            },
                            PinState::Unconfigured => DispatchOutcome::Replied {
                                reply: Reply::NotImplemented,
                            },
                        }
                    },
                    None => DispatchOutcome::Replied { reply: Reply::NotImplemented },
                }
            },
            Request::GpioSetLow { pin } => {
                match self.find_pin(pin) {
                    Some(i) => {
                        match self.pins[i].state {
                            PinState::Output { .. } => {
                                proof {
                                    lemma_set_pin_at(
                                        self@.pins,
                                        pin@,
                                        PinState::Output { high: false },
                                        i as int,
                                    );
                                }
                                self.set_state(i, PinState::Output { high: false });
                                proof {
                                    assert(final(self)@ =~= spec_dispatch(old(self)@, req@).0);
                                }
                                DispatchOutcome::Replied { reply: Reply::Success }
                            },
                            PinState::Unconfigured => DispatchOutcome::Replied {
                                reply: Reply::NotImplemented,
                            },
                        }
                    },
                    None => DispatchOutcome::Replied { reply: Reply::NotImplemented },
                }
            },
            Request::GpioToggle { pin } => {
                match self.find_pin(pin) {
                    Some(i) => {
                        match self.pins[i].state {
                            PinState::Output { high } => {
                                proof {
                                    lemma_set_pin_at(
                                        self@.pins,
                                        pin@,
                                        PinState::Output { high: !high },
                                        i as int,
                                    );
                                }
                                self.set_state(i, PinState::Output { high: !high });
                                proof {
                                    assert(final(self)@ =~= spec_dispatch(old(self)@, req@).0);
                                }
                                DispatchOutcome::Replied { reply: Reply::Success }
                            },
                            PinState::Unconfigured => DispatchOutcome::Replied {
                                reply: Reply::NotImplemented,
                            },
                        }
                    },
                    None => DispatchOutcome::Replied { reply: Reply::NotImplemented },
                }
            },
            Request::I2CInit { scl_pin, sda_pin, speed } => {
                if self.has_i2c && string_is(scl_pin, "f1") && string_is(sda_pin, "f0")
                    && SPEED_MIN_KHZ <= *speed && *speed <= SPEED_MAX_KHZ {
                    self.i2c_on = true;
                    DispatchOutcome::Replied { reply: Reply::Success }
                } else {
                    DispatchOutcome::Replied { reply: Reply::NotImplemented }
                }
            },
            Request::I2CWrite { ident, address, data } => {
                if self.has_i2c && string_is(ident, "i2c1") && self.i2c_on {
                    DispatchOutcome::I2cWrite {
                        address: *address,
                        data: vstd::slice::slice_to_vec(data.as_slice()),
                    }
                } else {
                    DispatchOutcome::Replied { reply: Reply::NotImplemented }
                }
            },
            Request::SPIInit { sck_pin, miso_pin, mosi_pin, speed } => {
                if string_is(sck_pin, "a5") && string_is(miso_pin, "a6") && string_is(
                    mosi_pin,
                    "a7",
                ) && SPEED_MIN_KHZ <= *speed && *speed <= SPEED_MAX_KHZ {
                    self.spi_on = true;
                    DispatchOutcome::Replied { reply: Reply::Success }
                } else {
                    DispatchOutcome::Replied { reply: Reply::NotImplemented }
                }
            },
            Request::SPIWrite { ident, data } => {
                if string_is(ident, "spi1") && self.spi_on {
                    DispatchOutcome::SpiWrite { data: vstd::slice::slice_to_vec(data.as_slice()) }
                } else {
                    DispatchOutcome::Replied { reply: Reply::NotImplemented }
                }
            },
        }
    }
}

/// Which pin a GPIO level or toggle command drives, if it is one.
pub open spec fn gpio_level_target(r: RequestView) -> Option<Seq<char>> {
    match r {
        RequestView::GpioSetHigh { pin } => Some(pin),
        RequestView::GpioSetLow { pin } => Some(pin),
        RequestView::GpioToggle { pin } => Some(pin),
        _ => None,
    }
}

/// Capability gating law: a GPIO level or toggle command against a pin not
/// configured as a push-pull output — unknown to the board, or never
/// initialised — answers `NotImplemented` and changes no state.
pub proof fn lemma_gpio_gating(t: TableView, r: RequestView, pin: Seq<char>)
    requires
        gpio_level_target(r) == Some(pin),
        !(t.pin_state(pin) matches Some(PinState::Output { .. })),
    ensures
        spec_dispatch(t, r).0 == t,
        spec_dispatch(t, r).1 == replied(ReplyView::NotImplemented),
{
}

/// Bus identity gating law for I2C: a write against a bus identifier other
/// than the wired bus's, or before a successful initialisation, answers
/// `NotImplemented` and changes no state.
pub proof fn lemma_i2c_identity_gating(t: TableView, ident: Seq<char>, address: u8, data: Seq<u8>)
    requires
        ident != i2c_bus_name() || !t.i2c_on || !t.has_i2c,
    ensures
        spec_dispatch(t, RequestView::I2CWrite { ident, address, data }).0 == t,
        spec_dispatch(t, RequestView::I2CWrite { ident, address, data }).1 == replied(
            ReplyView::NotImplemented,
        ),
{
}

/// Bus identity gating law for SPI: a write against a bus identifier other
/// than the wired bus's, or before a successful initialisation, answers
/// `NotImplemented` and changes no state.
pub proof fn lemma_spi_identity_gating(t: TableView, ident: Seq<char>, data: Seq<u8>)
    requires
        ident != spi_bus_name() || !t.spi_on,
    ensures
        spec_dispatch(t, RequestView::SPIWrite { ident, data }).0 == t,
        spec_dispatch(t, RequestView::SPIWrite { ident, data }).1 == replied(
            ReplyView::NotImplemented,
        ),
{
}

/// The reply for a bus write the caller performed: success, or a generic
/// failure carrying how many bytes the transfer attempted.
pub fn bus_write_reply(ok: bool, bytes_attempted: u8) -> (r: Reply)
    ensures
        ok ==> r@ == ReplyView::Success,
        !ok ==> r@ == (ReplyView::Failure { bytes: bytes_attempted }),
{
    if ok {
        Reply::Success
    } else {
        Reply::Failure { bytes: bytes_attempted }
    }
}

} // verus!
