//! Packet framing: the checksum and the header/length/checksum envelope.

use crate::protocol::command::{DecodeError, EncodeError, FromRef, Response, ResponseView};
use vstd::prelude::*;

verus! {

/// Seed of the checksum accumulator.
pub const CHECKSUM_SEED: u16 = 7439;

/// First byte of every framed packet.
pub const PACKET_HEADER: u8 = 0x0d;

/// Largest payload that still lets the length byte hold `len + 3`.
pub const MAX_PAYLOAD_LEN: usize = 252;

/// One round of the checksum: folds the byte `x` into the accumulator `acc`.
pub open spec fn checksum_step(acc: u16, x: u8) -> u16 {
    let i3 = ((acc << 8) | (acc >> 8)) ^ (x as u16);
    let i4 = i3 ^ ((i3 & 255) >> 4);
    let i5 = i4 ^ (i4 << 12);
    i5 ^ ((i5 & 255) << 5)
}

/// The accumulator after all bytes of `buffer` were folded in, front to back.
pub open spec fn checksum_state(buffer: Seq<u8>) -> u16
    decreases buffer.len(),
{
    if buffer.len() == 0 {
        CHECKSUM_SEED
    } else {
        checksum_step(checksum_state(buffer.drop_last()), buffer.last())
    }
}

/// The two checksum bytes of `buffer`, high byte first.
pub open spec fn checksum_spec(buffer: Seq<u8>) -> Seq<u8> {
    let acc = checksum_state(buffer);
    seq![(acc >> 8) as u8, (acc & 0xff) as u8]
}

/// Computes the 16-bit checksum of `buffer`, high byte first.
pub fn checksum(buffer: &[u8]) -> (sum: [u8; 2])
    ensures
        sum@ == checksum_spec(buffer@),
{
    let mut acc: u16 = CHECKSUM_SEED;
    let mut n: usize = 0;
    while n < buffer.len()
        invariant
            n <= buffer.len(),
            acc == checksum_state(buffer@.take(n as int)),
        decreases buffer.len() - n,
    {
        let x: u8 = buffer[n];
        let i3: u16 = ((acc << 8) | (acc >> 8)) ^ (x as u16);
        let i4: u16 = i3 ^ ((i3 & 255) >> 4);
        let i5: u16 = i4 ^ (i4 << 12);
        proof {
            let next = buffer@.take(n + 1);
            assert(next.drop_last() == buffer@.take(n as int));
            assert(next.last() == x);
        }
        acc = i5 ^ ((i5 & 255) << 5);
        n = n + 1;
    }
    proof {
        assert(buffer@.take(n as int) == buffer@);
    }
    let hi: u8 = (acc >> 8) as u8;
    let lo: u8 = (acc & 0xff) as u8;
    let sum: [u8; 2] = [hi, lo];
    assert(sum@ =~= checksum_spec(buffer@));
    sum
}

/// The framed form of `payload`: header byte, length byte, the payload, then the
/// checksum of everything before it.
pub open spec fn packetize_spec(payload: Seq<u8>) -> Seq<u8> {
    let framed = seq![PACKET_HEADER, (payload.len() + 3) as u8] + payload;
    framed + checksum_spec(framed)
}

/// Appends the bytes of `src` to `out`.
fn append_bytes(out: &mut Vec<u8>, src: &[u8])
    ensures
        final(out)@ == old(out)@ + src@,
{
    let mut n: usize = 0;
    while n < src.len()
        invariant
            n <= src.len(),
            out@ == old(out)@ + src@.take(n as int),
        decreases src.len() - n,
    {
        out.push(src[n]);
        proof {
            assert(src@.take(n + 1) == src@.take(n as int).push(src@[n as int]));
        }
        n = n + 1;
    }
    proof {
        assert(src@.take(n as int) == src@);
    }
}

/// Wraps `buffer` in the transport envelope
/// `[0x0d][len + 3][payload...][checksum_hi][checksum_lo]`.
///
/// The length byte must hold `len + 3`, so the payload is at most
/// [`MAX_PAYLOAD_LEN`] bytes long.
pub fn packetize(buffer: &[u8]) -> (out: Vec<u8>)
    requires
        buffer@.len() <= MAX_PAYLOAD_LEN,
    ensures
        out@ == packetize_spec(buffer@),
        out@.len() == buffer@.len() + 4,
        out@[0] == PACKET_HEADER,
        out@[1] == buffer@.len() + 3,
        out@.subrange(2, buffer@.len() as int + 2) == buffer@,
        out@.subrange(buffer@.len() as int + 2, buffer@.len() as int + 4) == checksum_spec(
            out@.subrange(0, buffer@.len() as int + 2),
        ),
{
    let length: u8 = (buffer.len() + 3) as u8;
    let mut out: Vec<u8> = Vec::new();
    out.push(PACKET_HEADER);
    out.push(length);
    append_bytes(&mut out, buffer);
    let ghost framed = out@;
    let sum = checksum(out.as_slice());
    append_bytes(&mut out, sum.as_slice());
    proof {
        assert(framed == seq![PACKET_HEADER, (buffer@.len() + 3) as u8] + buffer@);
        assert(out@ == framed + checksum_spec(framed));
        assert(out@.subrange(2, buffer@.len() as int + 2) == buffer@);
        assert(out@.subrange(0, buffer@.len() as int + 2) == framed);
        assert(out@.subrange(buffer@.len() as int + 2, buffer@.len() as int + 4) == checksum_spec(framed));
    }
    out
}

/// The lower-case hexadecimal digit of a value below 16.
pub open spec fn hex_digit_spec(nibble: u8) -> char {
    if nibble < 10 {
        (48 + nibble) as char
    } else {
        (87 + nibble) as char
    }
}

/// Lower-case hexadecimal text of `buffer`: two digits per byte, no separators.
pub open spec fn stringify_spec(buffer: Seq<u8>) -> Seq<char> {
    Seq::new(
        2 * buffer.len(),
        |i: int|
            if i % 2 == 0 {
                hex_digit_spec(buffer[i / 2] / 16)
            } else {
                hex_digit_spec(buffer[i / 2] % 16)
            },
    )
}

/// The lower-case hexadecimal digit of `nibble`.
fn hex_digit(nibble: u8) -> (c: char)
    requires
        nibble < 16,
    ensures
        c == hex_digit_spec(nibble),
{
    if nibble < 10 {
        (48 + nibble) as char
    } else {
        (87 + nibble) as char
    }
}

/// `String::push`: appends one character to the end of the string.
#[verifier::external_body]
fn push_char(text: &mut String, c: char)
    ensures
        final(text)@ == old(text)@.push(c),
{
    text.push(c)
}

/// Renders `buffer` as lower-case hexadecimal text without separators.
pub fn stringify(buffer: &[u8]) -> (text: String)
    ensures
        text@ == stringify_spec(buffer@),
{
    let mut text = String::new();
    let mut n: usize = 0;
    while n < buffer.len()
        invariant
            n <= buffer.len(),
            text@ == stringify_spec(buffer@.take(n as int)),
        decreases buffer.len() - n,
    {
        let x: u8 = buffer[n];
        push_char(&mut text, hex_digit(x / 16));
        push_char(&mut text, hex_digit(x % 16));
        proof {
            assert(text@ =~= stringify_spec(buffer@.take(n + 1)));
        }
        n = n + 1;
    }
    proof {
        assert(buffer@.take(n as int) == buffer@);
    }
    text
}

/// A raw packet as exchanged with the transport.
#[derive(Clone, Debug, PartialEq)]
pub struct EcamDriverPacket {
    pub bytes: Vec<u8>,
}

impl EcamDriverPacket {
    /// A packet holding a copy of `bytes`.
    pub fn from_slice(bytes: &[u8]) -> (packet: Self)
        ensures
            packet.bytes@ == bytes@,
    {
        let mut copy: Vec<u8> = Vec::new();
        append_bytes(&mut copy, bytes);
        EcamDriverPacket { bytes: copy }
    }

    /// A packet that takes ownership of `bytes`.
    pub fn from_vec(bytes: Vec<u8>) -> (packet: Self)
        ensures
            packet.bytes == bytes,
    {
        EcamDriverPacket { bytes }
    }

    /// Lower-case hexadecimal text of the packet's bytes.
    pub fn stringify(&self) -> (text: String)
        ensures
            text@ == stringify_spec(self.bytes@),
    {
        stringify(self.bytes.as_slice())
    }

    /// The packet's bytes in the transport envelope.
    pub fn packetize(&self) -> (out: Vec<u8>)
        requires
            self.bytes@.len() <= MAX_PAYLOAD_LEN,
        ensures
            out@ == packetize_spec(self.bytes@),
    {
        packetize(self.bytes.as_slice())
    }
}

/// A packet in both of its forms: what it means, and its bytes.
#[derive(Clone, Debug, PartialEq)]
pub struct EcamPacket<T> {
    pub representation: T,
    pub bytes: Vec<u8>,
}

impl EcamPacket<Response> {
    /// Decodes `bytes` and keeps them beside what they decode to. Fails where
    /// decoding fails.
    pub fn from_bytes(bytes: &[u8]) -> (packet: Result<EcamPacket<Response>, DecodeError>)
        ensures
            match packet {
                Ok(packet) => packet.bytes@ == bytes@ && Response::decode_spec(bytes@) == Ok::<
                    ResponseView,
                    DecodeError,
                >(packet.representation@),
                Err(e) => Response::decode_spec(bytes@) == Err::<ResponseView, DecodeError>(e),
            },
    {
        match Response::decode(bytes) {
            Ok(representation) => {
                let mut copy: Vec<u8> = Vec::new();
                append_bytes(&mut copy, bytes);
                Ok(EcamPacket { representation, bytes: copy })
            },
            Err(e) => Err(e),
        }
    }
}

impl<T> EcamPacket<T> where Result<Vec<u8>, EncodeError>: FromRef<T> {
    /// Encodes `representation` and keeps it beside its bytes. Fails where
    /// encoding fails.
    pub fn from_represenation(representation: T) -> (packet: Result<EcamPacket<T>, EncodeError>)
        ensures
            match packet {
                Ok(packet) => packet.representation == representation && <Result<
                    Vec<u8>,
                    EncodeError,
                > as FromRef<T>>::from_ref_spec(&representation, Ok(packet.bytes)),
                Err(e) => <Result<Vec<u8>, EncodeError> as FromRef<T>>::from_ref_spec(
                    &representation,
                    Err(e),
                ),
            },
    {
        let made: Result<Vec<u8>, EncodeError> = FromRef::from_ref(&representation);
        match made {
            Ok(bytes) => Ok(EcamPacket { representation, bytes }),
            Err(e) => Err(e),
        }
    }
}

} // verus!
