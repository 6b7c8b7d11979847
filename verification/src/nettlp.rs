//! NetTLP datagrams: the transport header, the port of a session, the size
//! of a request, and the datagram of a memory request.
//!
//! A datagram is the NetTLP header followed by one TLP. A transfer is cut
//! into requests that neither exceed the maximum read request size nor cross
//! a 4 KB boundary.

use crate::packet::packet_bytes;
use crate::pci::Bdf;
use crate::tlp::{dw_length, lemma_mr_hdr_round_trip, TlpMrHdr, TlpType};
use crate::wire::{be16, be32, put_be16, put_be32};
use bytes::BytesMut;
use vstd::prelude::*;

verus! {

/// Length of the NetTLP header.
pub const NETTLP_HDR_LEN: usize = 6;

/// Base port of the mode in which this library issues the DMA.
pub const NETTLP_LIBTLP_PORT_BASE: u16 = 0x3000;

/// Base port of the mode in which the adapter issues the DMA.
pub const NETTLP_ADAPTER_PORT_BASE: u16 = 0x4000;

/// Milliseconds to wait for a completion.
pub const LIBTLP_CPL_TIMEOUT_MS: u64 = 500;

/// No request crosses a boundary of this many bytes.
pub const PAGE_LEN: usize = 0x1000;

/// The header that precedes the TLP in every datagram. Its fields are not
/// used for now.
#[derive(Clone, Copy, Debug, PartialEq, Eq, Structural)]
pub struct NetTlpHdr {
    /// Sequence number
    pub seq: u16,
    /// Timestamp
    pub timestamp: u32,
}

impl NetTlpHdr {
    /// The header as it goes on the wire.
    pub open spec fn wire(&self) -> Seq<u8> {
        be16(self.seq) + be32(self.timestamp)
    }

    pub fn new() -> (hdr: Self)
        ensures
            hdr == (NetTlpHdr { seq: 0, timestamp: 0 }),
    {
        NetTlpHdr { seq: 0, timestamp: 0 }
    }

    /// The header as it goes on the wire: six bytes.
    pub fn to_bytes(&self) -> (out: Vec<u8>)
        ensures
            out@ == self.wire(),
            out@.len() == NETTLP_HDR_LEN,
    {
        let mut out: Vec<u8> = Vec::new();
        put_be16(&mut out, self.seq);
        put_be32(&mut out, self.timestamp);
        out
    }
}

/// Which side issues the DMA. It decides the UDP port and nothing else.
#[derive(Copy, Clone, Debug, PartialEq, Eq, Structural)]
pub enum DmaDirection {
    DmaIssuedByLibTLP,
    DmaIssuedByAdapter,
}

impl DmaDirection {
    /// The UDP port of a session with this direction and tag.
    pub open spec fn port_of(&self, tag: u8) -> int {
        match *self {
            DmaDirection::DmaIssuedByLibTLP => NETTLP_LIBTLP_PORT_BASE + tag,
            DmaDirection::DmaIssuedByAdapter => NETTLP_ADAPTER_PORT_BASE + tag % 16,
        }
    }

    /// The UDP port that a session with this direction and tag binds and
    /// connects to.
    pub fn port(&self, tag: u8) -> (port: u16)
        ensures
            port == self.port_of(tag),
    {
        match *self {
            DmaDirection::DmaIssuedByLibTLP => NETTLP_LIBTLP_PORT_BASE + (tag as u16),
            DmaDirection::DmaIssuedByAdapter => {
                assert(tag & 0x0F == tag % 16) by (bit_vector);
                NETTLP_ADAPTER_PORT_BASE + ((tag & 0x0F) as u16)
            },
        }
    }
}

/// The smaller of two numbers.
pub open spec fn min2(a: int, b: int) -> int {
    if a <= b {
        a
    } else {
        b
    }
}

/// The most bytes that one request at `addr` may ask for: what is left,
/// the maximum read request size, or the distance to the next 4 KB
/// boundary, whichever is least.
pub open spec fn chunk_size(addr: u64, remain: usize, mrrs: usize) -> int {
    min2(min2(remain as int, mrrs as int), PAGE_LEN - addr % 0x1000)
}

/// Length of the next request of a transfer that has `remain` bytes to go
/// from `addr` on.
pub fn max_chunk_len(addr: u64, remain: usize, mrrs: usize) -> (len: usize)
    ensures
        len == chunk_size(addr, remain, mrrs),
        len <= remain,
        len <= mrrs,
        addr % 0x1000 + len <= PAGE_LEN,
        remain > 0 && mrrs > 0 ==> len >= 1,
{
    assert(addr & 0xFFF == addr % 0x1000) by (bit_vector);
    let max_len: usize = PAGE_LEN - (addr & 0xFFF) as usize;
    let len: usize = if remain < mrrs {
        remain
    } else {
        mrrs
    };
    if len < max_len {
        len
    } else {
        max_len
    }
}

/// The datagram of a memory request: NetTLP header, TLP header, and the
/// data of a write.
pub open spec fn request_datagram(
    tlp_type: TlpType,
    requester: Bdf,
    tag: u8,
    addr: u64,
    len: usize,
    data: Seq<u8>,
) -> Seq<u8> {
    (NetTlpHdr { seq: 0, timestamp: 0 }).wire() + TlpMrHdr::request(
        tlp_type,
        requester,
        tag,
        addr,
        len,
    ).wire() + data
}

/// A request datagram reads back as what was put into it: behind the
/// NetTLP header stands the header of the request, and behind that the
/// data.
pub proof fn lemma_request_datagram_round_trip(
    tlp_type: TlpType,
    requester: Bdf,
    tag: u8,
    addr: u64,
    len: usize,
    data: Seq<u8>,
)
    ensures
        ({
            let d = request_datagram(tlp_type, requester, tag, addr, len, data);
            let hdr = TlpMrHdr::request(tlp_type, requester, tag, addr, len);
            &&& hdr.wf()
            &&& TlpMrHdr::decode(d.skip(NETTLP_HDR_LEN as int)) == Some(hdr)
            &&& d.skip(NETTLP_HDR_LEN + hdr.wire().len()) == data
        }),
{
    let d = request_datagram(tlp_type, requester, tag, addr, len, data);
    let hdr = TlpMrHdr::request(tlp_type, requester, tag, addr, len);
    lemma_mr_hdr_round_trip(hdr, data);
    assert(d.skip(NETTLP_HDR_LEN as int) =~= hdr.wire() + data);
    assert(d.skip(NETTLP_HDR_LEN + hdr.wire().len()) =~= data);
}

/// Builds the datagram of a memory request for `len` bytes at `addr`, with
/// the data of a write appended.
pub fn encode_mr(
    requester: Bdf,
    tag: u8,
    addr: u64,
    len: usize,
    t: TlpType,
    data: Option<&[u8]>,
) -> (packet: BytesMut)
    requires
        addr + len <= u64::MAX,
        dw_length(addr, len as u64) <= u16::MAX,
        data matches Some(d) ==> d@.len() + NETTLP_HDR_LEN + 16 <= isize::MAX,
    ensures
        packet_bytes(packet) == request_datagram(
            t,
            requester,
            tag,
            addr,
            len,
            match data {
                Some(d) => d@,
                None => Seq::<u8>::empty(),
            },
        ),
{
    let nh = NetTlpHdr::new();
    let mut packet = BytesMut::new();
    let nh_bytes = nh.to_bytes();
    packet.extend_from_slice(nh_bytes.as_slice());
    let mh = TlpMrHdr::new(t, requester, tag, addr, len);
    let mh_bytes = mh.to_bytes();
    packet.extend_from_slice(mh_bytes.as_slice());
    if let Some(data) = data {
        packet.extend_from_slice(data);
    }
    assert(packet_bytes(packet) =~= request_datagram(
        t,
        requester,
        tag,
        addr,
        len,
        match data {
            Some(d) => d@,
            None => Seq::<u8>::empty(),
        },
    ));
    packet
}

/// Builds the datagram of a memory read request for `len` bytes at `addr`.
pub fn encode_mrd(requester: Bdf, tag: u8, addr: u64, len: usize) -> (packet: BytesMut)
    requires
        addr + len <= u64::MAX,
        dw_length(addr, len as u64) <= u16::MAX,
    ensures
        packet_bytes(packet) == request_datagram(
            TlpType::Mrd,
            requester,
            tag,
            addr,
            len,
            Seq::<u8>::empty(),
        ),
{
    encode_mr(requester, tag, addr, len, TlpType::Mrd, None)
}

/// Builds the datagram of a memory write request that carries `data`, the
/// `len` bytes to write at `addr`.
pub fn encode_mwr(requester: Bdf, tag: u8, addr: u64, len: usize, data: &[u8]) -> (packet:
    BytesMut)
    requires
        addr + len <= u64::MAX,
        dw_length(addr, len as u64) <= u16::MAX,
        data@.len() + NETTLP_HDR_LEN + 16 <= isize::MAX,
    ensures
        packet_bytes(packet) == request_datagram(TlpType::Mwr, requester, tag, addr, len, data@),
{
    encode_mr(requester, tag, addr, len, TlpType::Mwr, Some(data))
}

} // verus!
