//! IPv4 and IPv6 addresses and their Winsock layouts (`IN_ADDR`, `in6_addr`).

use vstd::prelude::*;
use vstd::endian::{endianness, Endian};

verus! {

/// The `u32` whose little-endian bytes are `b[0..4]`.
pub open spec fn u32_from_le(b: Seq<u8>) -> u32 {
    (b[0] + b[1] * 0x100 + b[2] * 0x1_0000 + b[3] * 0x100_0000) as u32
}

/// The four little-endian bytes of `x`.
pub open spec fn u32_to_le(x: u32) -> Seq<u8> {
    seq![
        (x % 0x100) as u8,
        ((x / 0x100) % 0x100) as u8,
        ((x / 0x1_0000) % 0x100) as u8,
        (x / 0x100_0000) as u8,
    ]
}

/// The `u16` whose little-endian bytes are `b[0..2]`.
pub open spec fn u16_from_le(b: Seq<u8>) -> u16 {
    (b[0] + b[1] * 0x100) as u16
}

/// The two little-endian bytes of `x`.
pub open spec fn u16_to_le(x: u16) -> Seq<u8> {
    seq![(x % 0x100) as u8, (x / 0x100) as u8]
}

/// The `u32` whose memory representation on this machine is the four bytes
/// `b`: little-endian or big-endian, as the machine is.
pub open spec fn spec_u32_from_ne_bytes(b: Seq<u8>) -> u32 {
    match endianness() {
        Endian::Little => u32_from_le(b),
        Endian::Big => u32_from_le(b.reverse()),
    }
}

/// The memory representation of `x` on this machine.
pub open spec fn spec_u32_to_ne_bytes(x: u32) -> Seq<u8> {
    match endianness() {
        Endian::Little => u32_to_le(x),
        Endian::Big => u32_to_le(x).reverse(),
    }
}

/// The `u16` whose memory representation on this machine is the two bytes `b`.
pub open spec fn spec_u16_from_ne_bytes(b: Seq<u8>) -> u16 {
    match endianness() {
        Endian::Little => u16_from_le(b),
        Endian::Big => u16_from_le(b.reverse()),
    }
}

/// The memory representation of `x` on this machine.
pub open spec fn spec_u16_to_ne_bytes(x: u16) -> Seq<u8> {
    match endianness() {
        Endian::Little => u16_to_le(x),
        Endian::Big => u16_to_le(x).reverse(),
    }
}

/// Little-endian bytes of a `u32` read back give the `u32`; a `u32` read
/// from four bytes written back gives the bytes.
proof fn lemma_u32_le_roundtrip(x: u32, b: Seq<u8>)
    requires
        b.len() == 4,
    ensures
        u32_from_le(u32_to_le(x)) == x,
        u32_to_le(u32_from_le(b)) == b,
{
    assert(x == x % 0x100 + ((x / 0x100) % 0x100) * 0x100 + ((x / 0x1_0000) % 0x100) * 0x1_0000
        + (x / 0x100_0000) * 0x100_0000) by (bit_vector);
    assert(x / 0x100_0000 < 0x100) by (bit_vector);
    let b0 = b[0] as u32;
    let b1 = b[1] as u32;
    let b2 = b[2] as u32;
    let b3 = b[3] as u32;
    assert(b0 < 0x100 && b1 < 0x100 && b2 < 0x100 && b3 < 0x100 ==> {
        let v = b0 + b1 * 0x100 + b2 * 0x1_0000 + b3 * 0x100_0000;
        &&& v < 0x1_0000_0000
        &&& v % 0x100 == b0
        &&& (v / 0x100) % 0x100 == b1
        &&& (v / 0x1_0000) % 0x100 == b2
        &&& v / 0x100_0000 == b3
    }) by (bit_vector);
    assert(u32_to_le(u32_from_le(b)) =~= b);
}

/// Little-endian bytes of a `u16` read back give the `u16`; a `u16` read
/// from two bytes written back gives the bytes.
proof fn lemma_u16_le_roundtrip(x: u16, b: Seq<u8>)
    requires
        b.len() == 2,
    ensures
        u16_from_le(u16_to_le(x)) == x,
        u16_to_le(u16_from_le(b)) == b,
{
    let t = u16_to_le(x);
    assert(t[0] + t[1] * 0x100 == x);
    assert(u16_to_le(u16_from_le(b)) =~= b);
}

/// Calls `u32::from_ne_bytes`, which reads the four bytes as a `u32` in the
/// machine's byte order. Claimed: the result is little-endian or big-endian
/// reading of `bytes`, after vstd's `endianness()`.
#[verifier::external_body]
fn u32_from_ne_bytes(bytes: [u8; 4]) -> (x: u32)
    ensures
        x == spec_u32_from_ne_bytes(bytes@),
{
    u32::from_ne_bytes(bytes)
}

/// Calls `u32::to_ne_bytes`, the memory representation of `x` in the
/// machine's byte order. Claimed: the bytes are those of `x` in little-endian
/// or big-endian order, after vstd's `endianness()`.
#[verifier::external_body]
fn u32_to_ne_bytes(x: u32) -> (bytes: [u8; 4])
    ensures
        bytes@ == spec_u32_to_ne_bytes(x),
{
    x.to_ne_bytes()
}

/// Calls `u16::from_ne_bytes`. Claimed as for `u32_from_ne_bytes`.
#[verifier::external_body]
fn u16_from_ne_bytes(bytes: [u8; 2]) -> (x: u16)
    ensures
        x == spec_u16_from_ne_bytes(bytes@),
{
    u16::from_ne_bytes(bytes)
}

/// Calls `u16::to_ne_bytes`. Claimed as for `u32_to_ne_bytes`.
#[verifier::external_body]
fn u16_to_ne_bytes(x: u16) -> (bytes: [u8; 2])
    ensures
        bytes@ == spec_u16_to_ne_bytes(x),
{
    x.to_ne_bytes()
}

/// Reading the machine representation of a `u32` gives the `u32` back, and
/// writing a read value gives the four bytes back.
pub proof fn lemma_u32_ne_roundtrip(x: u32, b: Seq<u8>)
    requires
        b.len() == 4,
    ensures
        spec_u32_from_ne_bytes(spec_u32_to_ne_bytes(x)) == x,
        spec_u32_to_ne_bytes(spec_u32_from_ne_bytes(b)) == b,
        spec_u32_to_ne_bytes(x).len() == 4,
{
    lemma_u32_le_roundtrip(x, b);
    lemma_u32_le_roundtrip(x, b.reverse());
    let le = u32_to_le(x);
    assert(le.reverse().reverse() =~= le);
    assert(b.reverse().reverse() =~= b);
    assert(b.reverse().len() == 4);
}

/// Reading the machine representation of a `u16` gives the `u16` back, and
/// writing a read value gives the two bytes back.
pub proof fn lemma_u16_ne_roundtrip(x: u16, b: Seq<u8>)
    requires
        b.len() == 2,
    ensures
        spec_u16_from_ne_bytes(spec_u16_to_ne_bytes(x)) == x,
        spec_u16_to_ne_bytes(spec_u16_from_ne_bytes(b)) == b,
        spec_u16_to_ne_bytes(x).len() == 2,
{
    lemma_u16_le_roundtrip(x, b);
    lemma_u16_le_roundtrip(x, b.reverse());
    let le = u16_to_le(x);
    assert(le.reverse().reverse() =~= le);
    assert(b.reverse().reverse() =~= b);
    assert(b.reverse().len() == 2);
}

/// An IPv4 address; its view is its four octets in network order.
#[derive(Clone, Copy, Debug, PartialEq, Eq)]
pub struct Ipv4Addr {
    octets: [u8; 4],
}

impl View for Ipv4Addr {
    type V = Seq<u8>;

    closed spec fn view(&self) -> Seq<u8> {
        self.octets@
    }
}

impl Ipv4Addr {
    /// The address `a.b.c.d`.
    pub fn new(a: u8, b: u8, c: u8, d: u8) -> (r: Ipv4Addr)
        ensures
            r@ == seq![a, b, c, d],
    {
        let r = Ipv4Addr { octets: [a, b, c, d] };
        assert(r@ =~= seq![a, b, c, d]);
        r
    }

    /// The address with these four octets.
    pub fn from_octets(octets: [u8; 4]) -> (r: Ipv4Addr)
        ensures
            r@ == octets@,
    {
        Ipv4Addr { octets }
    }

    /// The four octets of the address.
    pub fn octets(&self) -> (r: [u8; 4])
        ensures
            r@ == self@,
    {
        self.octets
    }
}

/// The Winsock `IN_ADDR`, seen through its `S_addr` member: the address as a
/// `u32` whose memory holds the octets in network order.
#[derive(Clone, Copy, Debug, PartialEq, Eq, Structural)]
pub struct InAddr {
    pub s_addr: u32,
}

/// Lays an IPv4 address out as an `IN_ADDR`: the octets stay in network
/// order in memory, so `S_addr` is the octets read in the machine's order.
pub fn to_in_addr(addr: &Ipv4Addr) -> (r: InAddr)
    ensures
        r.s_addr == spec_u32_from_ne_bytes(addr@),
{
    InAddr { s_addr: u32_from_ne_bytes(addr.octets()) }
}

/// Reads the IPv4 address held by an `IN_ADDR`.
pub fn from_in_addr(in_addr: InAddr) -> (r: Ipv4Addr)
    ensures
        r@ == spec_u32_to_ne_bytes(in_addr.s_addr),
{
    Ipv4Addr::from_octets(u32_to_ne_bytes(in_addr.s_addr))
}

/// An address laid out as an `IN_ADDR` and read back is the same address;
/// an `IN_ADDR` read as an address and laid out again is the same `IN_ADDR`.
pub proof fn lemma_in_addr_roundtrip(addr: Ipv4Addr, in_addr: InAddr)
    ensures
        spec_u32_to_ne_bytes(spec_u32_from_ne_bytes(addr@)) == addr@,
        spec_u32_from_ne_bytes(spec_u32_to_ne_bytes(in_addr.s_addr)) == in_addr.s_addr,
{
    lemma_u32_ne_roundtrip(in_addr.s_addr, addr@);
}

/// The sixteen octets of an IPv6 address with segments `s`, each segment
/// most significant byte first.
pub open spec fn segments_to_octets(s: Seq<u16>) -> Seq<u8> {
    Seq::new(
        16,
        |i: int|
            if i % 2 == 0 {
                (s[i / 2] / 256) as u8
            } else {
                (s[i / 2] % 256) as u8
            },
    )
}

/// An IPv6 address; its view is its sixteen octets in network order.
#[derive(Clone, Copy, Debug, PartialEq, Eq)]
pub struct Ipv6Addr {
    octets: [u8; 16],
}

impl View for Ipv6Addr {
    type V = Seq<u8>;

    closed spec fn view(&self) -> Seq<u8> {
        self.octets@
    }
}

impl Ipv6Addr {
    /// The address with the eight 16-bit segments `a:b:c:d:e:f:g:h`.
    pub fn new(a: u16, b: u16, c: u16, d: u16, e: u16, f: u16, g: u16, h: u16) -> (r: Ipv6Addr)
        ensures
            r@ == segments_to_octets(seq![a, b, c, d, e, f, g, h]),
    {
        let r = Ipv6Addr {
            octets: [
                (a / 256) as u8,
                (a % 256) as u8,
                (b / 256) as u8,
                (b % 256) as u8,
                (c / 256) as u8,
                (c % 256) as u8,
                (d / 256) as u8,
                (d % 256) as u8,
                (e / 256) as u8,
                (e % 256) as u8,
                (f / 256) as u8,
                (f % 256) as u8,
                (g / 256) as u8,
                (g % 256) as u8,
                (h / 256) as u8,
                (h % 256) as u8,
            ],
        };
        assert(r@ =~= segments_to_octets(seq![a, b, c, d, e, f, g, h]));
        r
    }

    /// The address with these sixteen octets.
    pub fn from_octets(octets: [u8; 16]) -> (r: Ipv6Addr)
        ensures
            r@ == octets@,
    {
        Ipv6Addr { octets }
    }

    /// The sixteen octets of the address.
    pub fn octets(&self) -> (r: [u8; 16])
        ensures
            r@ == self@,
    {
        self.octets
    }
}

/// The Winsock `in6_addr`, held as its sixteen bytes (its `Byte` member).
#[derive(Clone, Copy, Debug, PartialEq, Eq)]
pub struct In6Addr {
    pub bytes: [u8; 16],
}

/// The `Word` member of an `in6_addr` whose bytes are `b`: eight `u16`, each
/// read from two consecutive bytes in the machine's order.
pub open spec fn words_of(b: Seq<u8>) -> Seq<u16> {
    Seq::new(8, |i: int| spec_u16_from_ne_bytes(b.subrange(2 * i, 2 * i + 2)))
}

/// The bytes of an `in6_addr` whose `Word` member is `w`.
pub open spec fn bytes_of_words(w: Seq<u16>) -> Seq<u8> {
    Seq::new(16, |i: int| spec_u16_to_ne_bytes(w[i / 2])[i % 2])
}

/// The `u16` stored at bytes `2 * i` and `2 * i + 1` of `bytes`.
fn word_at(bytes: &[u8; 16], i: usize) -> (w: u16)
    requires
        i < 8,
    ensures
        w == spec_u16_from_ne_bytes(bytes@.subrange(2 * i as int, 2 * i + 2)),
{
    let pair = [bytes[2 * i], bytes[2 * i + 1]];
    assert(pair@ =~= bytes@.subrange(2 * i as int, 2 * i + 2));
    u16_from_ne_bytes(pair)
}

impl In6Addr {
    /// The `Word` member: the address as eight `u16` in memory order.
    pub fn words(&self) -> (r: [u16; 8])
        ensures
            r@ == words_of(self.bytes@),
    {
        let b = &self.bytes;
        let r = [
            word_at(b, 0),
            word_at(b, 1),
            word_at(b, 2),
            word_at(b, 3),
            word_at(b, 4),
            word_at(b, 5),
            word_at(b, 6),
            word_at(b, 7),
        ];
        assert(r@ =~= words_of(self.bytes@));
        r
    }

    /// The `in6_addr` whose `Word` member is `words`.
    pub fn from_words(words: [u16; 8]) -> (r: In6Addr)
        ensures
            r.bytes@ == bytes_of_words(words@),
    {
        let p0 = u16_to_ne_bytes(words[0]);
        let p1 = u16_to_ne_bytes(words[1]);
        let p2 = u16_to_ne_bytes(words[2]);
        let p3 = u16_to_ne_bytes(words[3]);
        let p4 = u16_to_ne_bytes(words[4]);
        let p5 = u16_to_ne_bytes(words[5]);
        let p6 = u16_to_ne_bytes(words[6]);
        let p7 = u16_to_ne_bytes(words[7]);
        let r = In6Addr {
            bytes: [
                p0[0],
                p0[1],
                p1[0],
                p1[1],
                p2[0],
                p2[1],
                p3[0],
                p3[1],
                p4[0],
                p4[1],
                p5[0],
                p5[1],
                p6[0],
                p6[1],
                p7[0],
                p7[1],
            ],
        };
        assert(r.bytes@ =~= bytes_of_words(words@));
        r
    }
}

/// Lays an IPv6 address out as an `in6_addr`: its bytes are the octets.
pub fn to_in6_addr(addr: &Ipv6Addr) -> (r: In6Addr)
    ensures
        r.bytes@ == addr@,
{
    In6Addr { bytes: addr.octets() }
}

/// Reads the IPv6 address held by an `in6_addr`.
pub fn from_in6_addr(in6_addr: In6Addr) -> (r: Ipv6Addr)
    ensures
        r@ == in6_addr.bytes@,
{
    Ipv6Addr::from_octets(in6_addr.bytes)
}

/// The `Word` and `Byte` members of an `in6_addr` describe the same memory:
/// bytes read as words and written back are the same bytes, and words
/// written as bytes and read back are the same words.
pub proof fn lemma_in6_words_roundtrip(b: Seq<u8>, w: Seq<u16>)
    requires
        b.len() == 16,
        w.len() == 8,
    ensures
        bytes_of_words(words_of(b)) == b,
        words_of(bytes_of_words(w)) == w,
{
    let ws = words_of(b);
    assert forall|i: int| 0 <= i < 16 implies #[trigger] bytes_of_words(ws)[i] == b[i] by {
        let k = i / 2;
        let pair = b.subrange(2 * k, 2 * k + 2);
        lemma_u16_ne_roundtrip(0, pair);
        assert(i == 2 * k + i % 2);
    }
    assert(bytes_of_words(ws) =~= b);
    let bs = bytes_of_words(w);
    assert forall|k: int| 0 <= k < 8 implies #[trigger] words_of(bs)[k] == w[k] by {
        lemma_u16_ne_roundtrip(w[k], seq![0u8, 0u8]);
        assert(bs.subrange(2 * k, 2 * k + 2) =~= spec_u16_to_ne_bytes(w[k]));
    }
    assert(words_of(bs) =~= w);
}

} // verus!
