use vstd::prelude::*;
use crate::error::Error;

verus! {

#[verifier::external_type_specification]
pub struct ExMode(ad9959::Mode);

/// Bits `2k` and `2k + 1` of `b`, placed at bit 0 and bit 4 of one byte: two clock cycles of
/// a single-bit transfer carried on IO0 of a four-bit bus.
pub open spec fn bit_pair(b: u8, k: u8) -> u8 {
    ((b >> (2 * k)) & 1) | (((b >> (2 * k + 1)) & 1) << 4)
}

/// The four bus bytes that carry one byte in two-wire mode, most significant pair first.
pub open spec fn encode_byte(b: u8) -> Seq<u8> {
    seq![bit_pair(b, 3), bit_pair(b, 2), bit_pair(b, 1), bit_pair(b, 0)]
}

/// The bus bytes that carry a byte sequence in two-wire mode.
pub open spec fn encode_bytes(s: Seq<u8>) -> Seq<u8>
    decreases s.len(),
{
    if s.len() == 0 {
        Seq::empty()
    } else {
        encode_byte(s[0]) + encode_bytes(s.drop_first())
    }
}

/// The byte that four bus bytes carry in two-wire mode: the bits read on IO0 (bit 0) and
/// on the next clock (bit 4), most significant first.
pub open spec fn decode_byte(e0: u8, e1: u8, e2: u8, e3: u8) -> u8 {
    ((e0 & 1) << 6) | (((e0 >> 4) & 1) << 7) | ((e1 & 1) << 4) | (((e1 >> 4) & 1) << 5) | ((e2
        & 1) << 2) | (((e2 >> 4) & 1) << 3) | (e3 & 1) | (((e3 >> 4) & 1) << 1)
}

/// The byte sequence that a two-wire bus pattern carries, four bus bytes per byte.
pub open spec fn decode_bytes(e: Seq<u8>) -> Seq<u8>
    decreases e.len(),
{
    if e.len() < 4 {
        Seq::empty()
    } else {
        seq![decode_byte(e[0], e[1], e[2], e[3])] + decode_bytes(e.subrange(4, e.len() as int))
    }
}

/// The bus pattern of a two-wire register write: the address byte, then the payload.
pub open spec fn two_wire_frame(addr: u8, data: Seq<u8>) -> Seq<u8> {
    encode_bytes(seq![addr] + data)
}

proof fn lemma_decode_encode_byte(b: u8)
    ensures
        decode_byte(bit_pair(b, 3), bit_pair(b, 2), bit_pair(b, 1), bit_pair(b, 0)) == b,
{
    assert(decode_byte(
        ((b >> 6u8) & 1) | (((b >> 7u8) & 1) << 4),
        ((b >> 4u8) & 1) | (((b >> 5u8) & 1) << 4),
        ((b >> 2u8) & 1) | (((b >> 3u8) & 1) << 4),
        ((b >> 0u8) & 1) | (((b >> 1u8) & 1) << 4),
    ) == b) by (bit_vector);
}

/// Decoding the two-wire pattern of a byte sequence gives the sequence back.
pub proof fn lemma_decode_encode(s: Seq<u8>)
    ensures
        decode_bytes(encode_bytes(s)) == s,
        encode_bytes(s).len() == 4 * s.len(),
    decreases s.len(),
{
    if s.len() > 0 {
        let e = encode_bytes(s);
        let rest = encode_bytes(s.drop_first());
        lemma_decode_encode(s.drop_first());
        assert(e.subrange(4, e.len() as int) =~= rest);
        lemma_decode_encode_byte(s[0]);
        assert(decode_bytes(e) =~= s);
    }
}

/// A two-wire register write round-trips: the first four bus bytes decode to the address
/// and the rest to the payload, and a one- or two-byte payload fills eight or twelve bus
/// bytes.
pub proof fn lemma_two_wire_frame_round_trip(addr: u8, data: Seq<u8>)
    ensures
        two_wire_frame(addr, data).len() == 4 * (data.len() + 1),
        decode_bytes(two_wire_frame(addr, data)) == seq![addr] + data,
        decode_bytes(two_wire_frame(addr, data))[0] == addr,
        decode_bytes(two_wire_frame(addr, data)).drop_first() == data,
{
    lemma_decode_encode(seq![addr] + data);
    assert((seq![addr] + data).drop_first() =~= data);
}

/// One QSPI transaction: the byte sent in the address phase and the bytes of the data phase.
#[derive(Debug, PartialEq, Eq)]
pub struct QspiTransfer {
    pub address: u8,
    pub payload: Vec<u8>,
}

/// The protocol state of the QSPI link to the DDS: the serial mode that the DDS is in, and
/// whether the peripheral has been switched to addressless streaming.
///
/// The peripheral itself always runs four bits wide; in the DDS's two-wire mode each bit is
/// carried on IO0 of a four-bit transfer so that IO3 (the DDS's SYNC_IO) stays low.
#[derive(Copy, Clone)]
pub struct QspiInterface {
    mode: ad9959::Mode,
    streaming: bool,
}

fn bit_pair_of(b: u8, k: u8) -> (r: u8)
    requires
        k < 4,
    ensures
        r == bit_pair(b, k),
{
    ((b >> (2 * k)) & 1) | (((b >> (2 * k + 1)) & 1) << 4)
}

fn push_encoded(out: &mut Vec<u8>, b: u8)
    ensures
        final(out)@ == old(out)@ + encode_byte(b),
{
    out.push(bit_pair_of(b, 3));
    out.push(bit_pair_of(b, 2));
    out.push(bit_pair_of(b, 1));
    out.push(bit_pair_of(b, 0));
    assert(final(out)@ =~= old(out)@ + encode_byte(b));
}

fn copy_bytes(data: &[u8]) -> (r: Vec<u8>)
    ensures
        r@ == data@,
{
    let mut r: Vec<u8> = Vec::new();
    let mut i: usize = 0;
    while i < data.len()
        invariant
            i <= data@.len(),
            r@ == data@.subrange(0, i as int),
        decreases data@.len() - i,
    {
        r.push(data[i]);
        i = i + 1;
        assert(r@ =~= data@.subrange(0, i as int));
    }
    assert(r@ =~= data@);
    r
}

proof fn lemma_encode_bytes_push(s: Seq<u8>, b: u8)
    ensures
        encode_bytes(s.push(b)) == encode_bytes(s) + encode_byte(b),
    decreases s.len(),
{
    if s.len() == 0 {
        assert(s.push(b).drop_first() =~= s);
        assert(encode_bytes(s.push(b)) =~= encode_bytes(s) + encode_byte(b));
    } else {
        assert(s.push(b).drop_first() =~= s.drop_first().push(b));
        lemma_encode_bytes_push(s.drop_first(), b);
        assert(encode_bytes(s.push(b)) =~= encode_bytes(s) + encode_byte(b));
    }
}

impl QspiInterface {
    /// The serial mode the DDS is currently configured for.
    pub closed spec fn mode(&self) -> ad9959::Mode {
        self.mode
    }

    /// Whether the peripheral runs the infinite, data-only streaming transaction.
    pub closed spec fn streaming(&self) -> bool {
        self.streaming
    }

    /// The state after power-up: the DDS listens in single-bit two-wire mode and nothing
    /// streams.
    pub fn new() -> (r: Self)
        ensures
            r.mode() == ad9959::Mode::SingleBitTwoWire,
            !r.streaming(),
    {
        QspiInterface { mode: ad9959::Mode::SingleBitTwoWire, streaming: false }
    }

    /// Record that the DDS now talks in `mode`.
    pub fn configure_mode(&mut self, mode: ad9959::Mode) -> (r: Result<(), Error>)
        ensures
            r == Ok::<(), Error>(()),
            final(self).mode() == mode,
            final(self).streaming() == old(self).streaming(),
    {
        self.mode = mode;
        Ok(())
    }

    /// Switch to the addressless infinite streaming transaction. A peripheral that is still
    /// busy with a transaction is left alone and the request fails.
    pub fn start_stream(&mut self, busy: bool) -> (r: Result<(), Error>)
        ensures
            busy ==> r == Err::<(), Error>(Error::Qspi) && *final(self) == *old(self),
            !busy ==> r == Ok::<(), Error>(()) && final(self).streaming() && final(self).mode()
                == old(self).mode(),
    {
        if busy {
            return Err(Error::Qspi);
        }
        self.streaming = true;
        Ok(())
    }

    /// The transaction that writes `data` to the DDS register `addr`.
    ///
    /// No write is possible while the peripheral streams. Otherwise, in two-wire mode
    /// address and payload are spread over four bus bytes each and the first bus byte goes
    /// out in the address phase; at most two payload bytes fit. In four-bit mode the write
    /// passes through unchanged. Other modes are not supported.
    pub fn write(&self, addr: u8, data: &[u8]) -> (r: Result<QspiTransfer, Error>)
        ensures
            self.streaming() ==> r == Err::<QspiTransfer, Error>(Error::InvalidState),
            !self.streaming() && self.mode() == ad9959::Mode::SingleBitTwoWire ==> match r {
                Ok(t) => data@.len() <= 2 && seq![t.address] + t.payload@ == two_wire_frame(
                    addr,
                    data@,
                ),
                Err(e) => data@.len() > 2 && e == Error::Bounds,
            },
            !self.streaming() && self.mode() == ad9959::Mode::FourBitSerial ==> (r matches Ok(t)
                && t.address == addr && t.payload@ == data@),
            !self.streaming() && self.mode() != ad9959::Mode::SingleBitTwoWire && self.mode()
                != ad9959::Mode::FourBitSerial ==> r == Err::<QspiTransfer, Error>(
                Error::InvalidState,
            ),
    {
        if self.streaming {
            return Err(Error::InvalidState);
        }
        match self.mode {
            ad9959::Mode::SingleBitTwoWire => {
                if data.len() > 2 {
                    return Err(Error::Bounds);
                }
                let mut encoded: Vec<u8> = Vec::new();
                push_encoded(&mut encoded, addr);
                proof {
                    lemma_encode_bytes_push(Seq::empty(), addr);
                    assert(Seq::<u8>::empty().push(addr) =~= seq![addr] + data@.subrange(0, 0));
                    assert(encoded@ =~= encode_bytes(Seq::<u8>::empty()) + encode_byte(addr));
                }
                let mut i: usize = 0;
                while i < data.len()
                    invariant
                        i <= data@.len() <= 2,
                        encoded@ == encode_bytes(seq![addr] + data@.subrange(0, i as int)),
                    decreases data@.len() - i,
                {
                    proof {
                        lemma_encode_bytes_push(seq![addr] + data@.subrange(0, i as int), data@[i as int]);
                        assert((seq![addr] + data@.subrange(0, i as int)).push(data@[i as int])
                            =~= seq![addr] + data@.subrange(0, i + 1));
                    }
                    push_encoded(&mut encoded, data[i]);
                    i = i + 1;
                }
                assert(data@.subrange(0, data@.len() as int) =~= data@);
                proof {
                    lemma_decode_encode(seq![addr] + data@);
                }
                let address = encoded[0];
                let payload = encoded.split_off(1);
                assert(seq![address] + payload@ =~= two_wire_frame(addr, data@));
                Ok(QspiTransfer { address, payload })
            },
            ad9959::Mode::FourBitSerial => Ok(
                QspiTransfer { address: addr, payload: copy_bytes(data) },
            ),
            _ => Err(Error::InvalidState),
        }
    }

    /// The bus address that reads DDS register `addr`: its top bit marks a read. Reads are
    /// only possible in four-bit mode.
    pub fn read(&self, addr: u8) -> (r: Result<u8, Error>)
        ensures
            self.mode() == ad9959::Mode::FourBitSerial ==> r == Ok::<u8, Error>(addr | 0x80),
            self.mode() != ad9959::Mode::FourBitSerial ==> r == Err::<u8, Error>(
                Error::InvalidState,
            ),
    {
        match self.mode {
            ad9959::Mode::FourBitSerial => Ok(addr | 0x80),
            _ => Err(Error::InvalidState),
        }
    }
}

} // verus!
