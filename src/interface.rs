//! The write-only transport: a shadow copy of every register, and the timed handshake
//! that clocks each byte into the chip through the shift register.
use vstd::prelude::*;

verus! {

/// Number of byte addresses that the shadow image covers.
pub const REGISTER_SPACE: usize = 256;

/// Number of zero bytes that a reset pushes to the chip, starting at address 0.
pub const RESET_WRITE_LEN: usize = 255;

/// A failure of one of the physical lines, named after the line.
#[derive(Debug, Clone, Copy, PartialEq, Eq, Structural)]
pub enum InterfaceError {
    AddressPinError,
    LatchPinError,
    ResetPinError,
    CommunicationError,
}

/// One step of the physical protocol.
#[derive(Debug, Clone, Copy, PartialEq, Eq, Structural)]
pub enum BusOp {
    /// Drive the address-select line (low selects the address, high the data).
    Address(bool),
    /// Drive the latch line of the shift register.
    Latch(bool),
    /// Drive the chip's reset line (active low).
    Reset(bool),
    /// Shift one byte out over the byte stream.
    Send(u8),
    /// Wait this many microseconds.
    DelayUs(u8),
    /// Wait this many milliseconds.
    DelayMs(u8),
}

/// The error that a failing step reports; waits cannot fail.
pub open spec fn fault_of(op: BusOp) -> Option<InterfaceError> {
    match op {
        BusOp::Address(_) => Some(InterfaceError::AddressPinError),
        BusOp::Latch(_) => Some(InterfaceError::LatchPinError),
        BusOp::Reset(_) => Some(InterfaceError::ResetPinError),
        BusOp::Send(_) => Some(InterfaceError::CommunicationError),
        BusOp::DelayUs(_) => None,
        BusOp::DelayMs(_) => None,
    }
}

/// The physical capabilities the transport is built on: three output lines, a byte
/// stream and a delay provider. A setter returns `Err(())` when the line could not be
/// driven; the transport turns that into the matching [`InterfaceError`].
pub trait ShiftBus {
    fn set_address_pin(&mut self, high: bool) -> Result<(), ()>;

    fn set_latch_pin(&mut self, high: bool) -> Result<(), ()>;

    fn set_reset_pin(&mut self, high: bool) -> Result<(), ()>;

    fn send_byte(&mut self, byte: u8) -> Result<(), ()>;

    fn delay_us(&mut self, us: u8);

    fn delay_ms(&mut self, ms: u8);
}

/// The steps that clock one data byte into one register: the address phase, then the
/// data phase, each closed by a latch pulse and the chip's settle time.
pub open spec fn byte_ops(address: u8, value: u8) -> Seq<BusOp> {
    seq![
        BusOp::Address(false),
        BusOp::Send(address),
        BusOp::Latch(false),
        BusOp::DelayUs(1),
        BusOp::Latch(true),
        BusOp::DelayUs(4),
        BusOp::Address(true),
        BusOp::Send(value),
        BusOp::Latch(false),
        BusOp::DelayUs(1),
        BusOp::Latch(true),
        BusOp::DelayUs(23),
    ]
}

/// The steps that write `values` to consecutive registers from `address` on.
pub open spec fn write_ops(address: int, values: Seq<u8>) -> Seq<BusOp>
    decreases values.len(),
{
    if values.len() == 0 {
        Seq::empty()
    } else {
        write_ops(address, values.drop_last()) + byte_ops(
            (address + values.len() - 1) as u8,
            values.last(),
        )
    }
}

/// The steps of the reset pulse that precede the zero fill.
pub open spec fn reset_pulse_ops() -> Seq<BusOp> {
    seq![
        BusOp::Latch(true),
        BusOp::Reset(true),
        BusOp::Address(false),
        BusOp::Reset(false),
        BusOp::DelayMs(1),
        BusOp::Reset(true),
    ]
}

/// `len` zero bytes.
pub open spec fn zeros(len: nat) -> Seq<u8> {
    Seq::new(len, |i: int| 0u8)
}

/// The steps of a full reset: the pulse, then zeros written from address 0.
pub open spec fn reset_ops() -> Seq<BusOp> {
    reset_pulse_ops() + write_ops(0, zeros(RESET_WRITE_LEN as nat))
}

/// `s` with `bytes` laid over it from `address` on.
pub open spec fn spliced(s: Seq<u8>, address: int, bytes: Seq<u8>) -> Seq<u8> {
    Seq::new(
        s.len(),
        |i: int|
            if address <= i < address + bytes.len() {
                bytes[i - address]
            } else {
                s[i]
            },
    )
}

/// `after` is `before` followed by a non-empty prefix of `ops` whose last step failed
/// with `e`: the sequence was abandoned at its first failure.
pub open spec fn aborted_within(
    after: Seq<BusOp>,
    before: Seq<BusOp>,
    ops: Seq<BusOp>,
    e: InterfaceError,
) -> bool {
    exists|k: int|
        0 < k <= ops.len() && after == before + ops.take(k) && fault_of(ops[k - 1]) == Some(e)
}

/// `write_ops` of a prefix is a prefix of `write_ops`.
proof fn lemma_write_ops_prefix(address: int, values: Seq<u8>, n: int)
    requires
        0 <= n <= values.len(),
    ensures
        write_ops(address, values).len() == 12 * values.len(),
        write_ops(address, values.take(n)) == write_ops(address, values).take(12 * n),
    decreases values.len(),
{
    if values.len() == 0 {
        assert(values.take(n) =~= values);
    } else {
        let init = values.drop_last();
        if n == values.len() {
            lemma_write_ops_prefix(address, init, n - 1);
            assert(values.take(n) =~= values);
            assert(write_ops(address, values).take(12 * n) =~= write_ops(address, values));
        } else {
            lemma_write_ops_prefix(address, init, n);
            assert(init.take(n) =~= values.take(n));
            assert(write_ops(address, values).take(12 * n) =~= write_ops(address, init).take(
                12 * n,
            ));
        }
    }
}

/// Extending a written prefix by one byte extends its steps by that byte's steps.
proof fn lemma_write_ops_step(address: int, values: Seq<u8>, i: int)
    requires
        0 <= i < values.len(),
    ensures
        write_ops(address, values.take(i + 1)) == write_ops(address, values.take(i)) + byte_ops(
            (address + i) as u8,
            values[i],
        ),
{
    assert(values.take(i + 1).drop_last() =~= values.take(i));
}

/// Reading back the bytes just laid over an image returns them.
pub proof fn lemma_read_after_write(s: Seq<u8>, address: int, bytes: Seq<u8>)
    requires
        0 <= address,
        address + bytes.len() <= s.len(),
    ensures
        spliced(s, address, bytes).subrange(address, address + bytes.len()) == bytes,
{
    assert(spliced(s, address, bytes).subrange(address, address + bytes.len()) =~= bytes);
}

/// The transport of the OPL2 board: the shadow register image, and the bus that reaches
/// the chip.
///
/// The chip's registers cannot be read back, so every read is answered from the shadow
/// image, which holds the last value written to each address.
pub struct ShiftInterface<B: ShiftBus> {
    bus: B,
    registers: [u8; 256],
    trace: Ghost<Seq<BusOp>>,
}

impl<B: ShiftBus> ShiftInterface<B> {
    /// The shadow register image, one byte per address.
    pub closed spec fn shadow(&self) -> Seq<u8> {
        self.registers@
    }

    /// Every bus step issued so far, in order.
    pub closed spec fn trace(&self) -> Seq<BusOp> {
        self.trace@
    }

    /// Wraps the bus; the shadow image starts zeroed and no step has been issued.
    pub fn new(bus: B) -> (r: Self)
        ensures
            r.shadow() == zeros(REGISTER_SPACE as nat),
            r.trace() == Seq::<BusOp>::empty(),
    {
        let r = ShiftInterface { bus, registers: [0u8; 256], trace: Ghost(Seq::empty()) };
        assert(r.shadow() =~= zeros(REGISTER_SPACE as nat));
        r
    }

    /// Gives the bus back.
    pub fn free(self) -> B {
        self.bus
    }

    /// The shadow image has one byte for each address.
    pub proof fn lemma_shadow_len(&self)
        ensures
            self.shadow().len() == REGISTER_SPACE,
    {
    }

    /// Issues one step on the bus and records it.
    fn perform(&mut self, op: BusOp) -> (r: Result<(), InterfaceError>)
        ensures
            final(self).shadow() == old(self).shadow(),
            final(self).trace() == old(self).trace().push(op),
            r matches Err(e) ==> fault_of(op) == Some(e),
    {
        let outcome = match op {
            BusOp::Address(high) => match self.bus.set_address_pin(high) {
                Ok(()) => Ok(()),
                Err(()) => Err(InterfaceError::AddressPinError),
            },
            BusOp::Latch(high) => match self.bus.set_latch_pin(high) {
                Ok(()) => Ok(()),
                Err(()) => Err(InterfaceError::LatchPinError),
            },
            BusOp::Reset(high) => match self.bus.set_reset_pin(high) {
                Ok(()) => Ok(()),
                Err(()) => Err(InterfaceError::ResetPinError),
            },
            BusOp::Send(byte) => match self.bus.send_byte(byte) {
                Ok(()) => Ok(()),
                Err(()) => Err(InterfaceError::CommunicationError),
            },
            BusOp::DelayUs(us) => {
                self.bus.delay_us(us);
                Ok(())
            },
            BusOp::DelayMs(ms) => {
                self.bus.delay_ms(ms);
                Ok(())
            },
        };
        self.trace = Ghost(self.trace@.push(op));
        outcome
    }

    /// Issues `ops` in order, stopping at the first that fails.
    fn perform_all(&mut self, ops: &[BusOp]) -> (r: Result<(), InterfaceError>)
        ensures
            final(self).shadow() == old(self).shadow(),
            r is Ok ==> final(self).trace() == old(self).trace() + ops@,
            r matches Err(e) ==> aborted_within(final(self).trace(), old(self).trace(), ops@, e),
    {
        let mut k: usize = 0;
        while k < ops.len()
            invariant
                0 <= k <= ops@.len(),
                self.shadow() == old(self).shadow(),
                self.trace() == old(self).trace() + ops@.take(k as int),
            decreases ops@.len() - k,
        {
            let op = ops[k];
            let step = self.perform(op);
            assert(ops@.take(k + 1) =~= ops@.take(k as int).push(op));
            if let Err(e) = step {
                return Err(e);
            }
            k = k + 1;
        }
        assert(ops@.take(ops@.len() as int) =~= ops@);
        Ok(())
    }

    /// Clocks one byte into one register: the steps of [`byte_ops`], stopping at the
    /// first that fails.
    fn write_byte(&mut self, address: u8, value: u8) -> (r: Result<(), InterfaceError>)
        ensures
            final(self).shadow() == old(self).shadow(),
            r is Ok ==> final(self).trace() == old(self).trace() + byte_ops(address, value),
            r matches Err(e) ==> aborted_within(
                final(self).trace(),
                old(self).trace(),
                byte_ops(address, value),
                e,
            ),
    {
        let ops = [
            BusOp::Address(false),
            BusOp::Send(address),
            BusOp::Latch(false),
            BusOp::DelayUs(1),
            BusOp::Latch(true),
            BusOp::DelayUs(4),
            BusOp::Address(true),
            BusOp::Send(value),
            BusOp::Latch(false),
            BusOp::DelayUs(1),
            BusOp::Latch(true),
            BusOp::DelayUs(23),
        ];
        assert(ops@ =~= byte_ops(address, value));
        self.perform_all(ops.as_slice())
    }

    /// Writes `value` to consecutive registers from `address` on.
    ///
    /// The shadow image is updated first, for every byte; then each byte is clocked into
    /// the chip in turn. The first line failure abandons the rest of the write and is
    /// returned; the shadow image then still holds every byte of `value`.
    pub fn write_register(&mut self, address: u8, value: &[u8]) -> (r: Result<
        (),
        InterfaceError,
    >)
        requires
            address + value@.len() <= REGISTER_SPACE,
        ensures
            final(self).shadow() == spliced(old(self).shadow(), address as int, value@),
            r is Ok ==> final(self).trace() == old(self).trace() + write_ops(
                address as int,
                value@,
            ),
            r matches Err(e) ==> aborted_within(
                final(self).trace(),
                old(self).trace(),
                write_ops(address as int, value@),
                e,
            ),
    {
        let len = value.len();
        let mut i: usize = 0;
        while i < len
            invariant
                0 <= i <= len,
                len == value@.len(),
                address + len <= REGISTER_SPACE,
                self.registers@ == spliced(old(self).registers@, address as int, value@.take(i as int)),
                self.trace() == old(self).trace(),
            decreases len - i,
        {
            let at: usize = address as usize + i;
            self.registers[at] = value[i];
            assert(self.registers@ =~= spliced(
                old(self).registers@,
                address as int,
                value@.take(i + 1),
            ));
            i = i + 1;
        }
        assert(value@.take(len as int) =~= value@);
        let ghost full = write_ops(address as int, value@);
        proof {
            lemma_write_ops_prefix(address as int, value@, 0);
            assert(value@.take(0) =~= Seq::<u8>::empty());
        }
        let mut j: usize = 0;
        while j < len
            invariant
                0 <= j <= len,
                len == value@.len(),
                address + len <= REGISTER_SPACE,
                full == write_ops(address as int, value@),
                self.shadow() == spliced(old(self).shadow(), address as int, value@),
                self.trace() == old(self).trace() + write_ops(address as int, value@.take(j as int)),
            decreases len - j,
        {
            let at: u8 = (address as usize + j) as u8;
            let before = Ghost(self.trace());
            let step = self.write_byte(at, value[j]);
            proof {
                lemma_write_ops_step(address as int, value@, j as int);
                lemma_write_ops_prefix(address as int, value@, j as int);
                lemma_write_ops_prefix(address as int, value@, j + 1);
            }
            if let Err(e) = step {
                proof {
                    let prior = write_ops(address as int, value@.take(j as int));
                    let ops = byte_ops(at, value@[j as int]);
                    let k = choose|k: int|
                        0 < k <= ops.len() && self.trace() == before@ + ops.take(k) && fault_of(
                            ops[k - 1],
                        ) == Some(e);
                    lemma_write_ops_prefix(address as int, value@.take(j as int), 0);
                    assert(prior.len() == 12 * j);
                    assert(full.take(12 * j + k) =~= prior + ops.take(k));
                    assert(full.take(12 * j + k)[12 * j + k - 1] == ops[k - 1]);
                    assert(self.trace() =~= old(self).trace() + full.take(12 * j + k));
                    assert(full[12 * j + k - 1] == ops[k - 1]);
                }
                return Err(e);
            }
            j = j + 1;
        }
        assert(value@.take(len as int) =~= value@);
        Ok(())
    }

    /// Resets the chip: a reset pulse of at least a millisecond, then a zeroed shadow
    /// image and zeros written to the chip from address 0 on.
    ///
    /// A failure in the pulse leaves the shadow image as it was; one in the zero fill
    /// leaves it zeroed.
    pub fn reset(&mut self) -> (r: Result<(), InterfaceError>)
        ensures
            r is Ok ==> final(self).shadow() == zeros(REGISTER_SPACE as nat),
            r is Ok ==> final(self).trace() == old(self).trace() + reset_ops(),
            r matches Err(e) ==> aborted_within(
                final(self).trace(),
                old(self).trace(),
                reset_ops(),
                e,
            ),
            r is Err ==> final(self).shadow() == if final(self).trace().len() <= old(
                self,
            ).trace().len() + reset_pulse_ops().len() {
                old(self).shadow()
            } else {
                zeros(REGISTER_SPACE as nat)
            },
    {
        let pulse = [
            BusOp::Latch(true),
            BusOp::Reset(true),
            BusOp::Address(false),
            BusOp::Reset(false),
            BusOp::DelayMs(1),
            BusOp::Reset(true),
        ];
        assert(pulse@ =~= reset_pulse_ops());
        let ghost fill = write_ops(0, zeros(RESET_WRITE_LEN as nat));
        let started = self.perform_all(pulse.as_slice());
        if let Err(e) = started {
            proof {
                let k = choose|k: int|
                    0 < k <= pulse@.len() && self.trace() == old(self).trace() + pulse@.take(k)
                        && fault_of(pulse@[k - 1]) == Some(e);
                assert(reset_ops().take(k) =~= pulse@.take(k));
            }
            return Err(e);
        }
        let ghost middle = self.trace();
        self.registers = [0u8; 256];
        assert(self.registers@ =~= zeros(REGISTER_SPACE as nat));
        let fill_bytes = [0u8; 255];
        assert(fill_bytes@ =~= zeros(RESET_WRITE_LEN as nat));
        let filled = self.write_register(0, fill_bytes.as_slice());
        assert(self.shadow() =~= zeros(REGISTER_SPACE as nat));
        if let Err(e) = filled {
            proof {
                let k = choose|k: int|
                    0 < k <= fill.len() && self.trace() == middle + fill.take(k) && fault_of(
                        fill[k - 1],
                    ) == Some(e);
                assert(reset_ops().take(6 + k) =~= reset_pulse_ops() + fill.take(k));
                assert(self.trace() =~= old(self).trace() + reset_ops().take(6 + k));
                assert(reset_ops()[6 + k - 1] == fill[k - 1]);
            }
            return Err(e);
        }
        assert(self.trace() =~= old(self).trace() + reset_ops());
        Ok(())
    }

    /// Returns `len` bytes of the shadow image from `address` on. The chip is not touched.
    pub fn read_register(&self, address: u8, len: usize) -> (r: Vec<u8>)
        requires
            address + len <= REGISTER_SPACE,
        ensures
            r@ == self.shadow().subrange(address as int, address + len),
    {
        let mut r: Vec<u8> = Vec::new();
        let mut i: usize = 0;
        while i < len
            invariant
                0 <= i <= len,
                address + len <= REGISTER_SPACE,
                r@ == self.shadow().subrange(address as int, address + i),
            decreases len - i,
        {
            r.push(self.registers[address as usize + i]);
            assert(r@ =~= self.shadow().subrange(address as int, address + i + 1));
            i = i + 1;
        }
        r
    }
}

} // verus!
