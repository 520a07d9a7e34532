//! The fixed-layout control-request record handed to the kernel when the
//! tunnel interface is attached and configured, together with its exact
//! byte encoding and the decoders used to read a reply back.

use vstd::prelude::*;
use vstd::string::StringSliceAdditionalSpecFns;

verus! {

/// Size of the interface-name field, trailing NUL bytes included.
pub const IFNAMSIZ: usize = 16;

/// Size of the request's payload area (the largest member of the
/// kernel's union, padded to an 8-byte boundary on 64-bit targets).
pub const IFR_PAYLOAD_SIZE: usize = 24;

/// Size of one whole encoded request.
pub const IFREQ_SIZE: usize = 40;

/// Address family tag of an IPv4 socket address.
pub const AF_INET: u16 = 2;

/// Hardware description of an interface, as the kernel reports it.
/// One member of the request's payload union; carried for completeness,
/// the bring-up sequence never reads it.
#[allow(non_camel_case_types)]
#[derive(Clone, Copy, PartialEq, Eq, Structural, Debug)]
pub struct ifmap {
    pub mem_start: u64,
    pub mem_end: u64,
    pub base_addr: u16,
    pub irq: u8,
    pub dma: u8,
    pub port: u8,
}

/// An IPv4 socket address as the kernel's control channel sees it:
/// a host address and a port, both in host integer form here; the
/// encoder writes them in the wire layout.
#[derive(Clone, Copy, PartialEq, Eq, Structural, Debug)]
pub struct SockAddrIn {
    pub addr: u32,
    pub port: u16,
}

/// The payload area of a control request: which member of the kernel's
/// union is live, and its value.
#[derive(Clone, Copy, PartialEq, Eq, Structural, Debug)]
pub enum IfrPayload {
    /// No member set; the whole area is zero.
    Zero,
    /// Interface flag bits.
    Flags(u16),
    /// The interface's IPv4 address.
    Addr(SockAddrIn),
    /// The interface's IPv4 netmask.
    Netmask(SockAddrIn),
}

/// One control request: an interface name of exactly `IFNAMSIZ` bytes
/// (NUL-padded) followed by the payload area.
#[allow(non_camel_case_types)]
#[derive(Debug)]
pub struct ifreq {
    pub ifr_name: Vec<u8>,
    pub ifr_ifru: IfrPayload,
}

/// The name field a request carries for the given name bytes: truncated
/// at `IFNAMSIZ` bytes, padded with NUL bytes up to `IFNAMSIZ`.
pub open spec fn name_field_spec(name: Seq<u8>) -> Seq<u8> {
    if name.len() >= IFNAMSIZ {
        name.take(IFNAMSIZ as int)
    } else {
        name + zero_bytes((IFNAMSIZ - name.len()) as nat)
    }
}

/// `n` zero bytes.
pub open spec fn zero_bytes(n: nat) -> Seq<u8> {
    Seq::new(n, |i: int| 0u8)
}

impl ifreq {
    /// A request is well formed when its name field has exactly the
    /// platform's fixed width.
    pub open spec fn wf(self) -> bool {
        self.ifr_name@.len() == IFNAMSIZ
    }

    /// Build a request that names `iface` and carries a zeroed payload.
    /// The name's bytes are copied, truncated at `IFNAMSIZ`, and padded
    /// with NUL bytes.
    pub fn with_if_name(iface: &str) -> (r: ifreq)
        ensures
            r.wf(),
            r.ifr_name@ == name_field_spec(iface.spec_bytes()),
            r.ifr_ifru == IfrPayload::Zero,
    {
        let bytes: &[u8] = iface.as_bytes();
        let n: usize = if bytes.len() < IFNAMSIZ {
            bytes.len()
        } else {
            IFNAMSIZ
        };
        let mut name: Vec<u8> = Vec::new();
        let mut i: usize = 0;
        while i < n
            invariant
                i <= n,
                n <= bytes@.len(),
                name@.len() == i,
                forall|j: int| 0 <= j < i ==> name@[j] == bytes@[j],
            decreases n - i,
        {
            name.push(bytes[i]);
            i = i + 1;
        }
        while name.len() < IFNAMSIZ
            invariant
                n <= name@.len() <= IFNAMSIZ,
                forall|j: int| 0 <= j < n ==> name@[j] == bytes@[j],
                forall|j: int| n <= j < name@.len() ==> name@[j] == 0u8,
            decreases IFNAMSIZ - name@.len(),
        {
            name.push(0u8);
        }
        proof {
            let target = name_field_spec(iface.spec_bytes());
            assert(bytes@ == iface.spec_bytes());
            if bytes@.len() >= IFNAMSIZ {
                assert forall|j: int| 0 <= j < IFNAMSIZ implies name@[j] == target[j] by {
                    assert(target[j] == bytes@[j]);
                }
            } else {
                assert forall|j: int| 0 <= j < IFNAMSIZ implies name@[j] == target[j] by {
                    if j < n {
                        assert(target[j] == bytes@[j]);
                    } else {
                        assert(target[j] == 0u8);
                    }
                }
            }
            assert(name@ =~= target);
        }
        ifreq { ifr_name: name, ifr_ifru: IfrPayload::Zero }
    }
}

/// Little-endian bytes of a 16-bit value (host order on the targets the
/// control channel serves).
pub open spec fn u16_le_spec(x: u16) -> Seq<u8> {
    seq![(x & 0xff) as u8, ((x >> 8) & 0xff) as u8]
}

/// Big-endian (network order) bytes of a 16-bit value.
pub open spec fn u16_be_spec(x: u16) -> Seq<u8> {
    seq![((x >> 8) & 0xff) as u8, (x & 0xff) as u8]
}

/// Big-endian (network order) bytes of a 32-bit value.
pub open spec fn u32_be_spec(x: u32) -> Seq<u8> {
    seq![
        ((x >> 24) & 0xff) as u8,
        ((x >> 16) & 0xff) as u8,
        ((x >> 8) & 0xff) as u8,
        (x & 0xff) as u8,
    ]
}

/// Wire layout of an IPv4 socket address, 16 bytes: the family tag in
/// host order, then port and address in network order, then padding.
pub open spec fn sockaddr_in_spec(s: SockAddrIn) -> Seq<u8> {
    u16_le_spec(AF_INET) + u16_be_spec(s.port) + u32_be_spec(s.addr) + zero_bytes(8)
}

/// Byte layout of the payload area, always `IFR_PAYLOAD_SIZE` bytes:
/// the live member's bytes, zero-padded to the area's full width.
pub open spec fn payload_spec(p: IfrPayload) -> Seq<u8> {
    match p {
        IfrPayload::Zero => zero_bytes(IFR_PAYLOAD_SIZE as nat),
        IfrPayload::Flags(f) => u16_le_spec(f) + zero_bytes(22),
        IfrPayload::Addr(s) => sockaddr_in_spec(s) + zero_bytes(8),
        IfrPayload::Netmask(s) => sockaddr_in_spec(s) + zero_bytes(8),
    }
}

/// Byte layout of a whole request: the name field followed by the
/// payload area, `IFREQ_SIZE` bytes in all.
pub open spec fn encoding_of(name: Seq<u8>, p: IfrPayload) -> Seq<u8> {
    name + payload_spec(p)
}

/// The flag bits carried by an encoded request: the first two payload
/// bytes, read in host order.
pub open spec fn flags_of(enc: Seq<u8>) -> u16 {
    (enc[16] as u16) | ((enc[17] as u16) << 8)
}

/// The IPv4 address carried by an encoded request whose payload is a
/// socket address: four network-order bytes after the family and port.
pub open spec fn addr_of(enc: Seq<u8>) -> u32 {
    ((enc[20] as u32) << 24) | ((enc[21] as u32) << 16) | ((enc[22] as u32) << 8) | (enc[23] as u32)
}

/// Append `n` zero bytes.
fn push_zero_bytes(out: &mut Vec<u8>, n: usize)
    ensures
        final(out)@ == old(out)@ + zero_bytes(n as nat),
{
    let mut i: usize = 0;
    while i < n
        invariant
            i <= n,
            out@ == old(out)@ + zero_bytes(i as nat),
        decreases n - i,
    {
        out.push(0u8);
        i = i + 1;
        assert(out@ =~= old(out)@ + zero_bytes(i as nat));
    }
}

/// Append a 16-bit value in little-endian order.
fn push_u16_le(out: &mut Vec<u8>, x: u16)
    ensures
        final(out)@ == old(out)@ + u16_le_spec(x),
{
    out.push((x & 0xff) as u8);
    out.push(((x >> 8) & 0xff) as u8);
    assert(out@ =~= old(out)@ + u16_le_spec(x));
}

/// Append a 16-bit value in big-endian order.
fn push_u16_be(out: &mut Vec<u8>, x: u16)
    ensures
        final(out)@ == old(out)@ + u16_be_spec(x),
{
    out.push(((x >> 8) & 0xff) as u8);
    out.push((x & 0xff) as u8);
    assert(out@ =~= old(out)@ + u16_be_spec(x));
}

/// Append a 32-bit value in big-endian order.
fn push_u32_be(out: &mut Vec<u8>, x: u32)
    ensures
        final(out)@ == old(out)@ + u32_be_spec(x),
{
    out.push(((x >> 24) & 0xff) as u8);
    out.push(((x >> 16) & 0xff) as u8);
    out.push(((x >> 8) & 0xff) as u8);
    out.push((x & 0xff) as u8);
    assert(out@ =~= old(out)@ + u32_be_spec(x));
}

/// Append the wire layout of an IPv4 socket address.
fn push_sockaddr_in(out: &mut Vec<u8>, s: SockAddrIn)
    ensures
        final(out)@ == old(out)@ + sockaddr_in_spec(s),
{
    push_u16_le(out, AF_INET);
    push_u16_be(out, s.port);
    push_u32_be(out, s.addr);
    push_zero_bytes(out, 8);
    assert(out@ =~= old(out)@ + sockaddr_in_spec(s));
}

impl ifreq {
    /// Encode the request byte-for-byte as the kernel's control channel
    /// expects it.
    pub fn encode(&self) -> (out: Vec<u8>)
        requires
            self.wf(),
        ensures
            out@ == encoding_of(self.ifr_name@, self.ifr_ifru),
            out@.len() == IFREQ_SIZE,
    {
        let mut out: Vec<u8> = Vec::new();
        let mut i: usize = 0;
        while i < self.ifr_name.len()
            invariant
                i <= self.ifr_name@.len(),
                out@ == self.ifr_name@.take(i as int),
            decreases self.ifr_name@.len() - i,
        {
            out.push(self.ifr_name[i]);
            i = i + 1;
            assert(out@ =~= self.ifr_name@.take(i as int));
        }
        assert(out@ =~= self.ifr_name@);
        match &self.ifr_ifru {
            IfrPayload::Zero => {
                push_zero_bytes(&mut out, IFR_PAYLOAD_SIZE);
            },
            IfrPayload::Flags(f) => {
                push_u16_le(&mut out, *f);
                push_zero_bytes(&mut out, 22);
            },
            IfrPayload::Addr(s) => {
                push_sockaddr_in(&mut out, *s);
                push_zero_bytes(&mut out, 8);
            },
            IfrPayload::Netmask(s) => {
                push_sockaddr_in(&mut out, *s);
                push_zero_bytes(&mut out, 8);
            },
        }
        assert(out@ =~= encoding_of(self.ifr_name@, self.ifr_ifru));
        out
    }
}

/// Read the flag bits back out of an encoded request.
pub fn decode_flags(enc: &[u8]) -> (r: u16)
    requires
        enc@.len() == IFREQ_SIZE,
    ensures
        r == flags_of(enc@),
{
    (enc[16] as u16) | ((enc[17] as u16) << 8)
}

/// Read the IPv4 address back out of an encoded request whose payload
/// is a socket address.
pub fn decode_addr(enc: &[u8]) -> (r: u32)
    requires
        enc@.len() == IFREQ_SIZE,
    ensures
        r == addr_of(enc@),
{
    ((enc[20] as u32) << 24) | ((enc[21] as u32) << 16) | ((enc[22] as u32) << 8) | (enc[23] as u32)
}

/// Encoding then decoding a flags request yields the flag bits that
/// were put in.
pub proof fn lemma_flags_round_trip(name: Seq<u8>, f: u16)
    requires
        name.len() == IFNAMSIZ,
    ensures
        flags_of(encoding_of(name, IfrPayload::Flags(f))) == f,
{
    let enc = encoding_of(name, IfrPayload::Flags(f));
    assert(enc[16] == (f & 0xff) as u8);
    assert(enc[17] == ((f >> 8) & 0xff) as u8);
    assert(((f & 0xff) as u8 as u16) | ((((f >> 8) & 0xff) as u8 as u16) << 8) == f)
        by (bit_vector);
}

/// Encoding then decoding an address or netmask request yields the
/// address that was put in.
pub proof fn lemma_addr_round_trip(name: Seq<u8>, s: SockAddrIn)
    requires
        name.len() == IFNAMSIZ,
    ensures
        addr_of(encoding_of(name, IfrPayload::Addr(s))) == s.addr,
        addr_of(encoding_of(name, IfrPayload::Netmask(s))) == s.addr,
{
    let a = s.addr;
    let enc = encoding_of(name, IfrPayload::Addr(s));
    assert(enc[20] == ((a >> 24) & 0xff) as u8);
    assert(enc[21] == ((a >> 16) & 0xff) as u8);
    assert(enc[22] == ((a >> 8) & 0xff) as u8);
    assert(enc[23] == (a & 0xff) as u8);
    let encm = encoding_of(name, IfrPayload::Netmask(s));
    assert(encm[20] == ((a >> 24) & 0xff) as u8);
    assert(encm[21] == ((a >> 16) & 0xff) as u8);
    assert(encm[22] == ((a >> 8) & 0xff) as u8);
    assert(encm[23] == (a & 0xff) as u8);
    assert((((a >> 24) & 0xff) as u8 as u32) << 24 | (((a >> 16) & 0xff) as u8 as u32) << 16
        | (((a >> 8) & 0xff) as u8 as u32) << 8 | ((a & 0xff) as u8 as u32) == a) by (bit_vector);
}

impl Default for ifreq {
    /// An all-zero request: blank name, zeroed payload.
    fn default() -> (r: ifreq)
        ensures
            r.wf(),
            r.ifr_name@ == zero_bytes(IFNAMSIZ as nat),
            r.ifr_ifru == IfrPayload::Zero,
    {
        let mut name: Vec<u8> = Vec::new();
        while name.len() < IFNAMSIZ
            invariant
                name@.len() <= IFNAMSIZ,
                name@ == zero_bytes(name@.len()),
            decreases IFNAMSIZ - name@.len(),
        {
            name.push(0u8);
            assert(name@ =~= zero_bytes(name@.len()));
        }
        ifreq { ifr_name: name, ifr_ifru: IfrPayload::Zero }
    }
}

} // verus!
