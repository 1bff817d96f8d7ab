//! The four-byte length that opens every frame.
//!
//! The peer runs on the same machine, so the field is written as the machine
//! holds a `u32` in memory and is never turned into a fixed wire order. Which
//! order that is, is found out once, when the program runs; everything here
//! takes the order as a value and holds for both.

use byteorder::{BigEndian, ByteOrder, LittleEndian, NativeEndian};
use vstd::prelude::*;

verus! {

/// The order of the four bytes of a length field.
#[derive(Clone, Copy, Debug, PartialEq, Eq, Structural)]
pub enum Endianness {
    /// The byte that weighs least comes first.
    Little,
    /// The byte that weighs most comes first.
    Big,
}

/// The number that the first four bytes of `b` spell in the given order.
pub open spec fn prefix_value(order: Endianness, b: Seq<u8>) -> int
    recommends
        b.len() >= 4,
{
    match order {
        Endianness::Little => b[0] + 256 * b[1] + 65536 * b[2] + 16777216 * b[3],
        Endianness::Big => 16777216 * b[0] + 65536 * b[1] + 256 * b[2] + b[3],
    }
}

/// The four bytes that spell `n` in the given order.
pub open spec fn prefix_bytes(order: Endianness, n: int) -> Seq<u8>
    recommends
        0 <= n <= u32::MAX,
{
    match order {
        Endianness::Little => seq![
            (n % 256) as u8,
            (n / 256 % 256) as u8,
            (n / 65536 % 256) as u8,
            (n / 16777216 % 256) as u8,
        ],
        Endianness::Big => seq![
            (n / 16777216 % 256) as u8,
            (n / 65536 % 256) as u8,
            (n / 256 % 256) as u8,
            (n % 256) as u8,
        ],
    }
}

/// A length field is four bytes long, and reading it gives the length back.
pub proof fn lemma_prefix_round_trip(order: Endianness, n: int)
    requires
        0 <= n <= u32::MAX,
    ensures
        prefix_bytes(order, n).len() == 4,
        prefix_value(order, prefix_bytes(order, n)) == n,
{
}

/// Four bytes always declare a length that fits the field, and writing that
/// length gives the same four bytes: no two length fields declare one length.
pub proof fn lemma_prefix_canonical(order: Endianness, b: Seq<u8>)
    requires
        b.len() >= 4,
    ensures
        0 <= prefix_value(order, b) <= u32::MAX,
        prefix_bytes(order, prefix_value(order, b)) == b.subrange(0, 4),
{
    match order {
        Endianness::Little => {
            lemma_digits(b[0] as int, b[1] as int, b[2] as int, b[3] as int);
        },
        Endianness::Big => {
            lemma_digits(b[3] as int, b[2] as int, b[1] as int, b[0] as int);
        },
    }
    assert(prefix_bytes(order, prefix_value(order, b)) =~= b.subrange(0, 4));
}

/// The digits of a number written to the base 256 are found again by dividing.
proof fn lemma_digits(d0: int, d1: int, d2: int, d3: int)
    requires
        0 <= d0 < 256,
        0 <= d1 < 256,
        0 <= d2 < 256,
        0 <= d3 < 256,
    ensures
        ({
            let n = d0 + 256 * d1 + 65536 * d2 + 16777216 * d3;
            &&& 0 <= n <= u32::MAX
            &&& n % 256 == d0
            &&& n / 256 % 256 == d1
            &&& n / 65536 % 256 == d2
            &&& n / 16777216 % 256 == d3
        }),
{
    let n = d0 + 256 * d1 + 65536 * d2 + 16777216 * d3;
    assert(n / 256 == d1 + 256 * d2 + 65536 * d3);
    assert(n / 65536 == d2 + 256 * d3);
    assert(n / 16777216 == d3);
}

/// `byteorder::LittleEndian::read_u32`: the first four bytes of the buffer as
/// a number, the first byte weighing least. It panics on a shorter buffer.
#[verifier::external_body]
fn read_u32_little(buf: &[u8]) -> (n: u32)
    requires
        buf@.len() >= 4,
    ensures
        n == prefix_value(Endianness::Little, buf@),
{
    LittleEndian::read_u32(buf)
}

/// `byteorder::BigEndian::read_u32`: the first four bytes of the buffer as a
/// number, the first byte weighing most. It panics on a shorter buffer.
#[verifier::external_body]
fn read_u32_big(buf: &[u8]) -> (n: u32)
    requires
        buf@.len() >= 4,
    ensures
        n == prefix_value(Endianness::Big, buf@),
{
    BigEndian::read_u32(buf)
}

/// `byteorder::NativeEndian::read_u32`: one of the two above, whichever the
/// machine that this was built for goes by.
#[verifier::external_body]
fn read_u32_native(buf: &[u8]) -> (n: u32)
    requires
        buf@.len() >= 4,
    ensures
        n == prefix_value(Endianness::Little, buf@) || n == prefix_value(Endianness::Big, buf@),
{
    NativeEndian::read_u32(buf)
}

/// `byteorder::LittleEndian::write_u32`, on a buffer of four bytes: the
/// number's bytes, the one that weighs least first.
#[verifier::external_body]
fn write_u32_little(n: u32) -> (out: [u8; 4])
    ensures
        out@ == prefix_bytes(Endianness::Little, n as int),
{
    let mut out = [0u8; 4];
    LittleEndian::write_u32(&mut out, n);
    out
}

/// `byteorder::BigEndian::write_u32`, on a buffer of four bytes: the number's
/// bytes, the one that weighs most first.
#[verifier::external_body]
fn write_u32_big(n: u32) -> (out: [u8; 4])
    ensures
        out@ == prefix_bytes(Endianness::Big, n as int),
{
    let mut out = [0u8; 4];
    BigEndian::write_u32(&mut out, n);
    out
}

impl Endianness {
    /// The byte order of the machine that runs this: the order in which the
    /// machine reads the bytes of `probe`. Nothing is known of it beforehand.
    pub fn native() -> Endianness {
        let bytes: [u8; 4] = [1, 0, 0, 0];
        Endianness::that_reads(read_u32_native(bytes.as_slice()))
    }

    /// The order in which the bytes of `probe` spell `n`: the little one for
    /// the number one, else the big one.
    pub fn that_reads(n: u32) -> (order: Endianness)
        ensures
            order == order_that_reads(n as int),
    {
        if n == 1 {
            Endianness::Little
        } else {
            Endianness::Big
        }
    }
}

/// Four bytes that the two orders read differently, so that the number read
/// tells the order: 1, 0, 0, 0.
pub open spec fn probe() -> Seq<u8> {
    seq![1u8, 0u8, 0u8, 0u8]
}

/// The order in which `probe` spells `n`; the big one where it spells `n` in
/// neither.
pub open spec fn order_that_reads(n: int) -> Endianness {
    if n == prefix_value(Endianness::Little, probe()) {
        Endianness::Little
    } else {
        Endianness::Big
    }
}

/// Whichever order the probe is read in, the number read tells that order.
pub proof fn lemma_probe_tells_the_order(order: Endianness)
    ensures
        order_that_reads(prefix_value(order, probe())) == order,
        prefix_value(Endianness::Little, probe()) == 1,
        prefix_value(Endianness::Big, probe()) == 16777216,
{
}

/// The length that the first four bytes of `buf` declare.
pub fn decode_prefix(order: Endianness, buf: &[u8]) -> (n: u32)
    requires
        buf@.len() >= 4,
    ensures
        n == prefix_value(order, buf@),
{
    match order {
        Endianness::Little => read_u32_little(buf),
        Endianness::Big => read_u32_big(buf),
    }
}

/// The length field that declares `n`.
pub fn encode_prefix(order: Endianness, n: u32) -> (out: [u8; 4])
    ensures
        out@ == prefix_bytes(order, n as int),
{
    match order {
        Endianness::Little => write_u32_little(n),
        Endianness::Big => write_u32_big(n),
    }
}

} // verus!
