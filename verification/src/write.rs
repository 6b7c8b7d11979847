//! The DMA write: the requests that carry the data.
//!
//! A write request has no completion, so the whole write can be laid out
//! before the first datagram is sent.

use crate::nettlp::{chunk_size, encode_mwr, max_chunk_len, request_datagram, NETTLP_HDR_LEN, PAGE_LEN};
use crate::packet::packet_bytes;
use crate::pci::Bdf;
use crate::tlp::TlpType;
use bytes::BytesMut;
use vstd::prelude::*;

verus! {

/// Whether a write of `len` bytes at `addr` is aligned to doublewords at
/// both ends. Other writes are not implemented.
pub fn is_dw_aligned(addr: u64, len: usize) -> (aligned: bool)
    ensures
        aligned == (addr % 4 == 0 && len % 4 == 0),
{
    assert(addr & 0x3 == addr % 4) by (bit_vector);
    addr & 0x3 == 0 && len % 4 == 0
}

/// The requests of a write of `data` at `addr`, in the order in which they
/// are sent, each with its address and its data: each carries the largest
/// chunk allowed at its address, and the next begins where it ends.
pub open spec fn write_chunks(mrrs: usize, addr: u64, data: Seq<u8>) -> Seq<(u64, Seq<u8>)>
    decreases data.len(),
{
    let n = chunk_size(addr, data.len() as usize, mrrs);
    if data.len() == 0 || n <= 0 || n > data.len() {
        Seq::empty()
    } else {
        seq![(addr, data.subrange(0, n))] + write_chunks(
            mrrs,
            (addr + n) as u64,
            data.subrange(n, data.len() as int),
        )
    }
}

/// The data of the chunks, one behind the other.
pub open spec fn joined(chunks: Seq<(u64, Seq<u8>)>) -> Seq<u8>
    decreases chunks.len(),
{
    if chunks.len() == 0 {
        Seq::empty()
    } else {
        chunks[0].1 + joined(chunks.subrange(1, chunks.len() as int))
    }
}

/// The datagrams of a write of `data` at `addr`, in the order in which they
/// are sent: one memory write request for each chunk.
pub open spec fn write_plan(requester: Bdf, tag: u8, mrrs: usize, addr: u64, data: Seq<u8>) -> Seq<
    Seq<u8>,
> {
    write_chunks(mrrs, addr, data).map_values(
        |c: (u64, Seq<u8>)|
            request_datagram(TlpType::Mwr, requester, tag, c.0, c.1.len() as usize, c.1),
    )
}

/// The requests of a write carry the data whole and in order: the first
/// begins at `addr`, each begins where the one before it ends, and their
/// data joined is the data of the write. None is empty, none carries more
/// than the maximum read request size, and none crosses a 4 KB boundary.
pub proof fn lemma_write_chunks_cover(mrrs: usize, addr: u64, data: Seq<u8>)
    requires
        mrrs > 0,
        data.len() <= usize::MAX,
        addr + data.len() <= u64::MAX,
    ensures
        joined(write_chunks(mrrs, addr, data)) == data,
        data.len() > 0 ==> write_chunks(mrrs, addr, data).len() > 0 && write_chunks(
            mrrs,
            addr,
            data,
        )[0].0 == addr,
        forall|i: int|
            0 <= i < write_chunks(mrrs, addr, data).len() ==> {
                let c = #[trigger] write_chunks(mrrs, addr, data)[i];
                &&& 1 <= c.1.len() <= mrrs
                &&& c.0 % 0x1000 + c.1.len() <= PAGE_LEN
                &&& i + 1 < write_chunks(mrrs, addr, data).len() ==> write_chunks(
                    mrrs,
                    addr,
                    data,
                )[i + 1].0 == c.0 + c.1.len()
            },
    decreases data.len(),
{
    let chunks = write_chunks(mrrs, addr, data);
    if data.len() == 0 {
        assert(joined(chunks) =~= data);
    } else {
        let n = chunk_size(addr, data.len() as usize, mrrs);
        let tail = data.subrange(n, data.len() as int);
        let rest = write_chunks(mrrs, (addr + n) as u64, tail);
        lemma_write_chunks_cover(mrrs, (addr + n) as u64, tail);
        assert(chunks.subrange(1, chunks.len() as int) =~= rest);
        assert(data.subrange(0, n) + tail =~= data);
        assert forall|i: int| 0 <= i < chunks.len() implies {
            let c = #[trigger] chunks[i];
            &&& 1 <= c.1.len() <= mrrs
            &&& c.0 % 0x1000 + c.1.len() <= PAGE_LEN
            &&& i + 1 < chunks.len() ==> chunks[i + 1].0 == c.0 + c.1.len()
        } by {
            if i > 0 {
                assert(chunks[i] == rest[i - 1]);
                if i + 1 < chunks.len() {
                    assert(chunks[i + 1] == rest[i]);
                }
            } else if 1 < chunks.len() {
                assert(chunks[1] == rest[0]);
            }
        }
    }
}

/// The plan of a write begins with the request for its first chunk, and
/// goes on as the plan of what is left.
proof fn lemma_write_plan_unfold(requester: Bdf, tag: u8, mrrs: usize, addr: u64, data: Seq<u8>)
    requires
        mrrs > 0,
        0 < data.len() <= usize::MAX,
    ensures
        ({
            let n = chunk_size(addr, data.len() as usize, mrrs);
            write_plan(requester, tag, mrrs, addr, data) == seq![
                request_datagram(
                    TlpType::Mwr,
                    requester,
                    tag,
                    addr,
                    n as usize,
                    data.subrange(0, n),
                ),
            ] + write_plan(
                requester,
                tag,
                mrrs,
                (addr + n) as u64,
                data.subrange(n, data.len() as int),
            )
        }),
{
    let n = chunk_size(addr, data.len() as usize, mrrs);
    assert(write_plan(requester, tag, mrrs, addr, data) =~= seq![
        request_datagram(TlpType::Mwr, requester, tag, addr, n as usize, data.subrange(0, n)),
    ] + write_plan(
        requester,
        tag,
        mrrs,
        (addr + n) as u64,
        data.subrange(n, data.len() as int),
    ));
}

/// What each of the buffers holds.
pub open spec fn packets_bytes(packets: Seq<BytesMut>) -> Seq<Seq<u8>> {
    packets.map_values(|p: BytesMut| packet_bytes(p))
}

/// Builds the datagrams of a write of `buf` at `addr`, in the order in
/// which to send them. A write of no bytes sends nothing.
pub fn dma_write_requests(requester: Bdf, tag: u8, mrrs: usize, addr: u64, buf: &[u8]) -> (packets:
    Vec<BytesMut>)
    requires
        mrrs > 0,
        addr % 4 == 0,
        buf@.len() % 4 == 0,
        addr + buf@.len() <= u64::MAX,
        buf@.len() + NETTLP_HDR_LEN + 16 <= isize::MAX,
    ensures
        packets_bytes(packets@) == write_plan(requester, tag, mrrs, addr, buf@),
{
    let total_len: usize = buf.len();
    let mut packets: Vec<BytesMut> = Vec::new();
    let mut p: u64 = addr;
    let mut sent: usize = 0;
    assert(buf@.subrange(0, total_len as int) =~= buf@);
    assert(packets_bytes(packets@) =~= Seq::<Seq<u8>>::empty());
    while sent < total_len
        invariant
            mrrs > 0,
            total_len == buf.len(),
            sent <= total_len,
            p == addr + sent,
            addr + total_len <= u64::MAX,
            total_len + NETTLP_HDR_LEN + 16 <= isize::MAX,
            packets_bytes(packets@) + write_plan(
                requester,
                tag,
                mrrs,
                p,
                buf@.subrange(sent as int, total_len as int),
            ) == write_plan(requester, tag, mrrs, addr, buf@),
        decreases total_len - sent,
    {
        let remain: usize = total_len - sent;
        let len: usize = max_chunk_len(p, remain, mrrs);
        let end: usize = sent + len;
        let ghost rest = buf@.subrange(sent as int, total_len as int);
        let ghost before = packets_bytes(packets@);
        proof {
            lemma_write_plan_unfold(requester, tag, mrrs, p, rest);
        }
        let packet = encode_mwr(requester, tag, p, len, &buf[sent..end]);
        packets.push(packet);
        proof {
            assert(rest.subrange(0, len as int) =~= buf@.subrange(sent as int, end as int));
            assert(rest.subrange(len as int, rest.len() as int) =~= buf@.subrange(
                end as int,
                total_len as int,
            ));
            assert(packets_bytes(packets@) =~= before + seq![packet_bytes(packet)]);
        }
        sent = sent + len;
        p = p + len as u64;
    }
    assert(write_plan(
        requester,
        tag,
        mrrs,
        p,
        buf@.subrange(total_len as int, total_len as int),
    ) =~= Seq::<Seq<u8>>::empty());
    packets
}

} // verus!
