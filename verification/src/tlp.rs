//! TLP headers and the arithmetic of lengths and byte enables.
//!
//! TLPs are big endian on the wire and addressed in doublewords (DW, four
//! bytes). The first and last byte-enable nibbles say which bytes of the
//! first and of the last doubleword of a request are meant.

use crate::pci::Bdf;
use crate::wire::{be16, be32, be64, from_be16, from_be32, from_be64, get_be16, get_be32, get_be64, put_be16, put_be32, put_be64, lemma_be16_round_trip, lemma_be32_round_trip, lemma_be64_round_trip};
use vstd::prelude::*;

verus! {

/// A nibble given by its four bits, lowest first.
pub open spec fn nibble(b0: bool, b1: bool, b2: bool, b3: bool) -> int {
    (if b0 { 1int } else { 0 }) + (if b1 { 2int } else { 0 }) + (if b2 { 4int } else { 0 }) + (if b3 {
        8int
    } else {
        0
    })
}

/// The byte-enable nibble whose set bits are the lanes `i` with `lo <= i < hi`.
pub open spec fn lanes(lo: int, hi: int) -> int {
    nibble(lo <= 0 < hi, lo <= 1 < hi, lo <= 2 < hi, lo <= 3 < hi)
}

/// Number of bytes from the doubleword boundary at or below `addr` to the end
/// of a transfer of `count` bytes that starts at `addr`.
pub open spec fn dw_span(addr: u64, count: u64) -> int {
    addr % 4 + count
}

/// Number of doublewords that a transfer of `count` bytes at `addr` touches.
pub open spec fn dw_length(addr: u64, count: u64) -> int {
    (dw_span(addr, count) + 3) / 4
}

/// First byte enable: the lanes of the first doubleword that the transfer
/// covers.
pub open spec fn first_be(addr: u64, count: u64) -> int {
    lanes((addr % 4) as int, dw_span(addr, count))
}

/// Last byte enable: zero for a transfer within one doubleword, else the
/// lanes of the last doubleword that the transfer covers.
pub open spec fn last_be(addr: u64, count: u64) -> int {
    if dw_span(addr, count) <= 4 {
        0
    } else {
        lanes(0, dw_span(addr, count) - 4 * (dw_length(addr, count) - 1))
    }
}

/// Both byte enables in one byte: the last in the high nibble, the first in
/// the low one.
pub open spec fn byte_enables(addr: u64, count: u64) -> int {
    16 * last_be(addr, count) + first_be(addr, count)
}

/// Whether lane `i` is set in the byte-enable nibble `be`.
pub open spec fn lane_set(be: int, i: int) -> bool {
    (be / (if i == 0 {
        1int
    } else if i == 1 {
        2
    } else if i == 2 {
        4
    } else {
        8
    })) % 2 == 1
}

/// The lowest lane that is set in `be`; four where none is.
pub open spec fn first_lane(be: int) -> int {
    if lane_set(be, 0) {
        0
    } else if lane_set(be, 1) {
        1
    } else if lane_set(be, 2) {
        2
    } else if lane_set(be, 3) {
        3
    } else {
        4
    }
}

/// One more than the highest lane that is set in `be`; zero where none is.
pub open spec fn end_lane(be: int) -> int {
    if lane_set(be, 3) {
        4
    } else if lane_set(be, 2) {
        3
    } else if lane_set(be, 1) {
        2
    } else if lane_set(be, 0) {
        1
    } else {
        0
    }
}

/// The number of bytes that a request of `length` doublewords with these
/// byte enables asks for: from the first lane set in the first doubleword to
/// the last lane set in the last one.
pub open spec fn enabled_count(first: int, last: int, length: int) -> int {
    if length <= 1 {
        end_lane(first) - first_lane(first)
    } else {
        4 * (length - 1) + end_lane(last) - first_lane(first)
    }
}

/// The set bits of the byte enables cover exactly the bytes asked for: lane
/// `i` of the first doubleword is set just where byte `i` of it lies in the
/// transfer, and lane `i` of the last doubleword just where the transfer
/// has more than one doubleword and reaches byte `i` of its last.
pub proof fn lemma_byte_enables_cover(addr: u64, count: u64, i: int)
    requires
        0 <= i < 4,
    ensures
        lane_set(first_be(addr, count), i) == (addr % 4 <= i < dw_span(addr, count)),
        lane_set(last_be(addr, count), i) == (dw_span(addr, count) > 4 && 4 * (dw_length(
            addr,
            count,
        ) - 1) + i < dw_span(addr, count)),
        0 <= first_be(addr, count) <= 15,
        0 <= last_be(addr, count) <= 15,
{
}

/// The byte enables and the length of a request for at least one byte give
/// back where in the first doubleword it begins and how many bytes it asks
/// for.
pub proof fn lemma_byte_enables_round_trip(addr: u64, count: u64)
    requires
        count > 0,
    ensures
        first_lane(first_be(addr, count)) == addr % 4,
        enabled_count(first_be(addr, count), last_be(addr, count), dw_length(addr, count))
            == count,
{
    let span = dw_span(addr, count);
    let length = dw_length(addr, count);
    if span > 4 {
        assert(1 <= span - 4 * (length - 1) <= 4);
    }
}

/// Byte enables of a request for `count` bytes at `addr`.
pub fn calc_be(addr: u64, count: u64) -> (be: u8)
    requires
        addr + count <= u64::MAX,
    ensures
        be == byte_enables(addr, count),
{
    let lastbe: u8 = calc_lastbe(addr, count);
    let firstbe: u8 = calc_firstbe(addr, count);
    assert(((lastbe << 4) | firstbe) == 16 * lastbe + firstbe) by (bit_vector)
        requires
            lastbe <= 15,
            firstbe <= 15,
    ;
    (lastbe << 4) | firstbe
}

/// Last byte enable of a request for `count` bytes at `addr`.
pub fn calc_lastbe(addr: u64, count: u64) -> (be: u8)
    requires
        addr + count <= u64::MAX,
    ensures
        be == last_be(addr, count),
        be <= 15,
{
    let start: u64 = (addr >> 2) << 2;
    let end: u64 = addr + count;
    assert(start == addr - addr % 4) by (bit_vector)
        requires
            start == (addr >> 2) << 2,
    ;
    if end - start <= 4 {
        return 0;
    }
    let end_start: u64 = if (end & 0x3) == 0 {
        end - 4
    } else {
        (end >> 2) << 2
    };
    assert(end & 0x3 == end % 4 && (end >> 2) << 2 == end - end % 4) by (bit_vector);
    let tail: u64 = end - end_start;
    let be: u8 = !(0xFu8 << tail) & 0xF;
    assert(tail == 1 ==> be == 1) by (bit_vector)
        requires
            be == !(0xFu8 << tail) & 0xF,
    ;
    assert(tail == 2 ==> be == 3) by (bit_vector)
        requires
            be == !(0xFu8 << tail) & 0xF,
    ;
    assert(tail == 3 ==> be == 7) by (bit_vector)
        requires
            be == !(0xFu8 << tail) & 0xF,
    ;
    assert(tail == 4 ==> be == 15) by (bit_vector)
        requires
            be == !(0xFu8 << tail) & 0xF,
    ;
    be
}

/// First byte enable of a request for `count` bytes at `addr`.
pub fn calc_firstbe(addr: u64, count: u64) -> (be: u8)
    ensures
        be == first_be(addr, count),
        be <= 15,
{
    let low: u8 = if count < 4 {
        !(0xFu8 << count) & 0xF
    } else {
        0xF
    };
    let off: u64 = addr & 0x3;
    assert(off == addr % 4) by (bit_vector)
        requires
            off == addr & 0x3,
    ;
    let be: u8 = (low << off) & 0xF;
    assert(low == if count == 0 {
        0u8
    } else if count == 1 {
        1u8
    } else if count == 2 {
        3u8
    } else if count == 3 {
        7u8
    } else {
        15u8
    }) by (bit_vector)
        requires
            low == if count < 4 {
                !(0xFu8 << count) & 0xF
            } else {
                0xFu8
            },
    ;
    assert(be == if off == 0 {
        (1 * low) % 16
    } else if off == 1 {
        (2 * low) % 16
    } else if off == 2 {
        (4 * low) % 16
    } else {
        (8 * low) % 16
    }) by (bit_vector)
        requires
            be == (low << off) & 0xF,
            low <= 15,
            off <= 3,
    ;
    be
}

/// Number of doublewords read or written by a request for `count` bytes at
/// `addr`.
pub fn calc_length(addr: u64, count: u64) -> (len: u16)
    requires
        addr + count <= u64::MAX,
        dw_length(addr, count) <= u16::MAX,
    ensures
        len == dw_length(addr, count),
        4 * (len - 1) < (addr + count) - (addr - addr % 4) <= 4 * len,
{
    let start: u64 = addr & !0x3;
    let end: u64 = addr + count;
    assert(start == addr - addr % 4) by (bit_vector)
        requires
            start == addr & !0x3,
    ;
    let span: u64 = end - start;
    assert(span >> 2 == span / 4 && span & 0x3 == span % 4) by (bit_vector);
    let len: u16 = (span >> 2) as u16;
    if span & 0x3 > 0 {
        len + 1
    } else {
        len
    }
}

/// A number of either address width as a 64-bit number.
pub trait To64 {
    spec fn as_64(&self) -> u64;

    fn to_64(&self) -> (v: u64)
        ensures
            v == self.as_64(),
    ;
}

impl To64 for u32 {
    open spec fn as_64(&self) -> u64 {
        *self as u64
    }

    fn to_64(&self) -> (v: u64) {
        *self as u64
    }
}

impl To64 for u64 {
    open spec fn as_64(&self) -> u64 {
        *self
    }

    fn to_64(&self) -> (v: u64) {
        *self
    }
}

/// An address aligned down to a doubleword.
pub trait AlignDW: Sized {
    spec fn aligned_dw(&self) -> Self;

    fn align_dw(&self) -> (a: Self)
        ensures
            a == self.aligned_dw(),
    ;
}

impl AlignDW for u32 {
    open spec fn aligned_dw(&self) -> u32 {
        (*self - *self % 4) as u32
    }

    fn align_dw(&self) -> (a: u32) {
        let x: u32 = *self;
        assert(x & !0x3 == x - x % 4) by (bit_vector);
        x & !0x3
    }
}

impl AlignDW for u64 {
    open spec fn aligned_dw(&self) -> u64 {
        (*self - *self % 4) as u64
    }

    fn align_dw(&self) -> (a: u64) {
        let x: u64 = *self;
        assert(x & !0x3 == x - x % 4) by (bit_vector);
        x & !0x3
    }
}

/// The largest address of an address width.
pub trait MaxValue {
    spec fn largest(&self) -> u64;

    fn max_value(&self) -> (m: u64)
        ensures
            m == self.largest(),
    ;
}

impl MaxValue for u32 {
    open spec fn largest(&self) -> u64 {
        u32::MAX as u64
    }

    fn max_value(&self) -> (m: u64) {
        u32::MAX as u64
    }
}

impl MaxValue for u64 {
    open spec fn largest(&self) -> u64 {
        u64::MAX
    }

    fn max_value(&self) -> (m: u64) {
        u64::MAX
    }
}

/// Format and type of a memory read with a 32-bit address.
pub const MRD_32: u8 = 0b0000_0000;

/// Format and type of a memory read with a 64-bit address.
pub const MRD_64: u8 = 0b0010_0000;

/// Format and type of a memory write with a 32-bit address.
pub const MWR_32: u8 = 0b0100_0000;

/// Format and type of a memory write with a 64-bit address.
pub const MWR_64: u8 = 0b0110_0000;

/// Length of a memory request header with a 32-bit address.
pub const MR_HDR_LEN_32: usize = 12;

/// Length of a memory request header with a 64-bit address.
pub const MR_HDR_LEN_64: usize = 16;

/// The kinds of memory request.
#[derive(Clone, Copy, Debug, PartialEq, Eq, Structural)]
pub enum TlpType {
    /// Memory read
    Mrd,
    /// Memory write
    Mwr,
}

/// The address of a memory request. Addresses below 4 GB must use the
/// 32-bit form.
#[derive(Clone, Copy, Debug, PartialEq, Eq, Structural)]
pub enum TlpAddr {
    Addr32(u32),
    Addr64(u64),
}

impl TlpAddr {
    pub open spec fn value(&self) -> u64 {
        match *self {
            TlpAddr::Addr32(a) => a as u64,
            TlpAddr::Addr64(a) => a,
        }
    }

    pub open spec fn is_wide(&self) -> bool {
        self is Addr64
    }

    pub open spec fn wire(&self) -> Seq<u8> {
        match *self {
            TlpAddr::Addr32(a) => be32(a),
            TlpAddr::Addr64(a) => be64(a),
        }
    }

    /// The form that an address must take: the wide one only above the
    /// 32-bit range.
    pub open spec fn of(addr: u64) -> TlpAddr {
        if addr > u32::MAX {
            TlpAddr::Addr64(addr)
        } else {
            TlpAddr::Addr32(addr as u32)
        }
    }

    pub fn to_64(&self) -> (a: u64)
        ensures
            a == self.value(),
    {
        match *self {
            TlpAddr::Addr32(a) => a.to_64(),
            TlpAddr::Addr64(a) => a.to_64(),
        }
    }
}

/// Format and type of a memory request.
pub open spec fn mr_fmt_type(tlp_type: TlpType, wide: bool) -> u8 {
    match tlp_type {
        TlpType::Mrd => if wide {
            MRD_64
        } else {
            MRD_32
        },
        TlpType::Mwr => if wide {
            MWR_64
        } else {
            MWR_32
        },
    }
}

/// Whether a format and type byte announces a header with a 64-bit address.
pub open spec fn fmt_is_wide(fmt_type: u8) -> bool {
    (fmt_type / 32) % 2 == 1
}

/// Memory request header.
///
/// ```text
/// +---------------+---------------+---------------+---------------+
/// |       0       |       1       |       2       |       3       |
/// +---------------+---------------+---------------+---------------+
/// |R|Fmt|  Type   |R| TC  |   R   |T|E|Atr| R |      Length       |
/// +---------------+---------------+---------------+---------------+
/// |         Requester ID          |      Tag      | LastDW| 1stDW |
/// +---------------+---------------+---------------+---------------+
/// |                            Address                        | R |
/// +---------------+---------------+---------------+---------------+
/// ```
///
/// With a 64-bit address the header has a fourth doubleword, and the address
/// fills the last two.
#[derive(Clone, Copy, Debug, PartialEq, Eq, Structural)]
pub struct TlpMrHdr {
    /// Format and type
    pub fmt_type: u8,
    /// Traffic class
    pub tclass: u8,
    /// Flags, attributes and, in the low ten bits, the length in doublewords
    pub falen: u16,
    /// Requester id
    pub requester: u16,
    /// Tag
    pub tag: u8,
    /// Last byte enable in the high nibble, first byte enable in the low one
    pub dw: u8,
    /// Address of the first doubleword
    pub addr: TlpAddr,
}

impl TlpMrHdr {
    /// The format announces the address form that the header holds.
    pub open spec fn wf(&self) -> bool {
        fmt_is_wide(self.fmt_type) == self.addr.is_wide()
    }

    /// The header of a request for `count` bytes at `addr`.
    pub open spec fn request(
        tlp_type: TlpType,
        requester: Bdf,
        tag: u8,
        addr: u64,
        count: usize,
    ) -> TlpMrHdr {
        TlpMrHdr {
            fmt_type: mr_fmt_type(tlp_type, addr > u32::MAX),
            tclass: 0,
            falen: dw_length(addr, count as u64) as u16,
            requester: requester.id(),
            tag,
            dw: byte_enables(addr, count as u64) as u8,
            addr: TlpAddr::of((addr - addr % 4) as u64),
        }
    }

    /// The header as it goes on the wire.
    pub open spec fn wire(&self) -> Seq<u8> {
        seq![self.fmt_type, self.tclass] + be16(self.falen) + be16(self.requester) + seq![
            self.tag,
            self.dw,
        ] + self.addr.wire()
    }

    /// The header that the bytes `b` begin with, if they hold a whole one.
    pub open spec fn decode(b: Seq<u8>) -> Option<TlpMrHdr> {
        if b.len() < MR_HDR_LEN_32 {
            None
        } else if fmt_is_wide(b[0]) && b.len() < MR_HDR_LEN_64 {
            None
        } else {
            Some(
                TlpMrHdr {
                    fmt_type: b[0],
                    tclass: b[1],
                    falen: from_be16(b, 2),
                    requester: from_be16(b, 4),
                    tag: b[6],
                    dw: b[7],
                    addr: if fmt_is_wide(b[0]) {
                        TlpAddr::Addr64(from_be64(b, 8))
                    } else {
                        TlpAddr::Addr32(from_be32(b, 8))
                    },
                },
            )
        }
    }

    /// Creates the header of a memory request for `count` bytes at `addr`.
    /// The address goes into the header aligned down to a doubleword; the
    /// byte enables say where in it the transfer begins.
    pub fn new(tlp_type: TlpType, requester: Bdf, tag: u8, addr: u64, count: usize) -> (hdr: Self)
        requires
            addr + count <= u64::MAX,
            dw_length(addr, count as u64) <= u16::MAX,
        ensures
            hdr == Self::request(tlp_type, requester, tag, addr, count),
            hdr.wf(),
            hdr.addr.value() % 4 == 0,
            hdr.addr.value() <= addr < hdr.addr.value() + 4,
    {
        let addr64: bool = addr > 0u32.max_value();
        let fmt_type: u8 = match tlp_type {
            TlpType::Mrd => {
                if addr64 {
                    MRD_64
                } else {
                    MRD_32
                }
            },
            TlpType::Mwr => {
                if addr64 {
                    MWR_64
                } else {
                    MWR_32
                }
            },
        };
        let falen: u16 = calc_length(addr, count as u64);
        let dw: u8 = calc_be(addr, count as u64);
        let aligned: u64 = addr.align_dw();
        let addr = if addr64 {
            TlpAddr::Addr64(aligned)
        } else {
            TlpAddr::Addr32(aligned as u32)
        };
        TlpMrHdr { fmt_type, tclass: 0, falen, requester: requester.to_u16(), tag, dw, addr }
    }

    /// The length of the request in doublewords.
    pub fn length(&self) -> (len: u16)
        ensures
            len == self.falen % 1024,
    {
        let falen: u16 = self.falen;
        assert(falen & 0x03FF == falen % 1024) by (bit_vector);
        falen & 0x03FF
    }

    /// The header as it goes on the wire: twelve bytes, or sixteen with a
    /// 64-bit address.
    pub fn to_bytes(&self) -> (out: Vec<u8>)
        ensures
            out@ == self.wire(),
            out@.len() == if self.addr.is_wide() {
                MR_HDR_LEN_64
            } else {
                MR_HDR_LEN_32
            },
    {
        let mut out: Vec<u8> = Vec::new();
        out.push(self.fmt_type);
        out.push(self.tclass);
        put_be16(&mut out, self.falen);
        put_be16(&mut out, self.requester);
        out.push(self.tag);
        out.push(self.dw);
        match self.addr {
            TlpAddr::Addr32(a) => put_be32(&mut out, a),
            TlpAddr::Addr64(a) => put_be64(&mut out, a),
        }
        assert(out@ =~= self.wire());
        out
    }

    /// Reads the memory request header that `b` begins with. There is none
    /// where `b` is shorter than the header that its first byte announces.
    pub fn parse(b: &[u8]) -> (hdr: Option<Self>)
        ensures
            hdr == Self::decode(b@),
    {
        if b.len() < MR_HDR_LEN_32 {
            return None;
        }
        let fmt_type: u8 = b[0];
        assert((fmt_type & 0b0010_0000 != 0) == fmt_is_wide(fmt_type)) by (bit_vector);
        let wide: bool = fmt_type & 0b0010_0000 != 0;
        if wide && b.len() < MR_HDR_LEN_64 {
            return None;
        }
        let addr = if wide {
            TlpAddr::Addr64(get_be64(b, 8))
        } else {
            TlpAddr::Addr32(get_be32(b, 8))
        };
        Some(
            TlpMrHdr {
                fmt_type,
                tclass: b[1],
                falen: get_be16(b, 2),
                requester: get_be16(b, 4),
                tag: b[6],
                dw: b[7],
                addr,
            },
        )
    }
}

/// A memory request header that is written and read back is the same
/// header, whatever follows it in the buffer.
pub proof fn lemma_mr_hdr_round_trip(hdr: TlpMrHdr, rest: Seq<u8>)
    requires
        hdr.wf(),
    ensures
        TlpMrHdr::decode(hdr.wire() + rest) == Some(hdr),
{
    let b = hdr.wire() + rest;
    lemma_be16_round_trip(hdr.falen);
    lemma_be16_round_trip(hdr.requester);
    assert(b[0] == hdr.fmt_type);
    assert(from_be16(b, 2) == from_be16(be16(hdr.falen), 0));
    assert(from_be16(b, 4) == from_be16(be16(hdr.requester), 0));
    match hdr.addr {
        TlpAddr::Addr32(a) => {
            lemma_be32_round_trip(a);
            assert(from_be32(b, 8) == from_be32(be32(a), 0));
        },
        TlpAddr::Addr64(a) => {
            lemma_be64_round_trip(a);
            assert(be64(a).len() == 8);
            assert(from_be32(b, 8) == from_be32(be64(a), 0));
            assert(from_be32(b, 12) == from_be32(be64(a), 4));
            assert(from_be64(b, 8) == from_be64(be64(a), 0));
        },
    }
}

/// Completion status, the top three bits of the status and byte count
/// field.
#[derive(Copy, Clone, Debug, Eq, PartialEq, Structural)]
pub enum CplStatus {
    Success,
    Unsupported,
    ConfigurationRequestStatus,
    CompleterAbort,
    Unknown,
}

impl CplStatus {
    /// The status that the masked status bits `n` stand for.
    pub open spec fn of(n: u16) -> CplStatus {
        if n == 0x0000 {
            CplStatus::Success
        } else if n == 0x2000 {
            CplStatus::Unsupported
        } else if n == 0x4000 {
            CplStatus::ConfigurationRequestStatus
        } else if n == 0x8000 {
            CplStatus::CompleterAbort
        } else {
            CplStatus::Unknown
        }
    }
}

impl From<u16> for CplStatus {
    fn from(n: u16) -> (status: CplStatus) {
        if n == 0x0000 {
            CplStatus::Success
        } else if n == 0x2000 {
            CplStatus::Unsupported
        } else if n == 0x4000 {
            CplStatus::ConfigurationRequestStatus
        } else if n == 0x8000 {
            CplStatus::CompleterAbort
        } else {
            CplStatus::Unknown
        }
    }
}

impl vstd::std_specs::convert::FromSpecImpl<u16> for CplStatus {
    open spec fn obeys_from_spec() -> bool {
        true
    }

    open spec fn from_spec(n: u16) -> CplStatus {
        CplStatus::of(n)
    }
}

/// Format and type of a completion with data.
pub const CPL_FMT_TYPE: u8 = 0b0100_1010;

/// Format and type of a completion without data.
pub const CPL_NODATA_FMT_TYPE: u8 = 0b0000_1010;

/// Length of a completion header.
pub const CPL_HDR_LEN: usize = 12;

/// Completion header.
///
/// ```text
/// +---------------+---------------+---------------+---------------+
/// |       0       |       1       |       2       |       3       |
/// +---------------+---------------+---------------+---------------+
/// |R|Fmt|  Type   |R| TC  |   R   |T|E|Atr| R |      Length       |
/// +---------------+---------------+---------------+---------------+
/// |          Completer ID         |CplSt|B|      Byte Count       |
/// +---------------+---------------+---------------+---------------+
/// |          Requester ID         |      Tag      |R| Lower Addr  |
/// +---------------+---------------+---------------+---------------+
/// ```
///
/// Length is the number of doublewords in this packet, byte count the number
/// of bytes still to come, those of this packet included, and lower address
/// the low seven bits of the address that the first byte of this packet was
/// read from. The data of one request may come in several completions.
#[derive(Clone, Copy, Debug, PartialEq, Eq, Structural)]
pub struct TlpCplHdr {
    /// Format and type
    pub fmt_type: u8,
    /// Traffic class
    pub tclass: u8,
    /// Flags, attributes and, in the low ten bits, the length in doublewords
    pub falen: u16,
    /// Completer id
    pub completer: u16,
    /// Status in the top three bits, byte count in the low twelve
    pub stcnt: u16,
    /// Requester id
    pub requester: u16,
    /// Tag
    pub tag: u8,
    /// Low address
    pub lowaddr: u8,
}

impl TlpCplHdr {
    /// The low ten bits of the length field.
    pub open spec fn dw_count(&self) -> int {
        (self.falen % 1024) as int
    }

    /// The low twelve bits of the status and byte count field.
    pub open spec fn byte_count(&self) -> int {
        (self.stcnt % 4096) as int
    }

    /// The status and byte count field with all but the top three bits
    /// cleared.
    pub open spec fn status_bits(&self) -> int {
        self.stcnt / 0x2000 * 0x2000
    }

    /// Offset of the first byte of data in the first doubleword.
    pub open spec fn byte_offset(&self) -> int {
        (self.lowaddr % 4) as int
    }

    /// The data of this completion reaches the end of what was asked for:
    /// its doublewords are exactly those that the bytes still to come need.
    pub open spec fn is_last(&self) -> bool {
        self.dw_count() == (self.byte_offset() + self.byte_count() + 3) / 4
    }

    /// The header as it goes on the wire.
    pub open spec fn wire(&self) -> Seq<u8> {
        seq![self.fmt_type, self.tclass] + be16(self.falen) + be16(self.completer) + be16(
            self.stcnt,
        ) + be16(self.requester) + seq![self.tag, self.lowaddr]
    }

    /// The header that stands in `b` from index `at` on, if a whole one
    /// does.
    pub open spec fn decode(b: Seq<u8>, at: int) -> Option<TlpCplHdr> {
        if b.len() < at + CPL_HDR_LEN {
            None
        } else {
            Some(
                TlpCplHdr {
                    fmt_type: b[at],
                    tclass: b[at + 1],
                    falen: from_be16(b, at + 2),
                    completer: from_be16(b, at + 4),
                    stcnt: from_be16(b, at + 6),
                    requester: from_be16(b, at + 8),
                    tag: b[at + 10],
                    lowaddr: b[at + 11],
                },
            )
        }
    }

    /// Reads the completion header that stands in `b` from index `at` on.
    /// There is none where fewer than twelve bytes are left there.
    pub fn parse(b: &[u8], at: usize) -> (hdr: Option<Self>)
        ensures
            hdr == Self::decode(b@, at as int),
    {
        if b.len() < CPL_HDR_LEN || at > b.len() - CPL_HDR_LEN {
            return None;
        }
        Some(
            TlpCplHdr {
                fmt_type: b[at],
                tclass: b[at + 1],
                falen: get_be16(b, at + 2),
                completer: get_be16(b, at + 4),
                stcnt: get_be16(b, at + 6),
                requester: get_be16(b, at + 8),
                tag: b[at + 10],
                lowaddr: b[at + 11],
            },
        )
    }

    /// The header as it goes on the wire: twelve bytes.
    pub fn to_bytes(&self) -> (out: Vec<u8>)
        ensures
            out@ == self.wire(),
            out@.len() == CPL_HDR_LEN,
    {
        let mut out: Vec<u8> = Vec::new();
        out.push(self.fmt_type);
        out.push(self.tclass);
        put_be16(&mut out, self.falen);
        put_be16(&mut out, self.completer);
        put_be16(&mut out, self.stcnt);
        put_be16(&mut out, self.requester);
        out.push(self.tag);
        out.push(self.lowaddr);
        assert(out@ =~= self.wire());
        out
    }

    /// Whether this is a completion with data.
    pub fn is_valid_fmt_type(&self) -> (valid: bool)
        ensures
            valid == (self.fmt_type == CPL_FMT_TYPE),
    {
        self.fmt_type == CPL_FMT_TYPE
    }

    /// Whether this is a completion without data.
    pub fn is_completion(&self) -> (nodata: bool)
        ensures
            nodata == (self.fmt_type == CPL_NODATA_FMT_TYPE),
    {
        self.fmt_type == CPL_NODATA_FMT_TYPE
    }

    /// Whether the completer reports success.
    pub fn is_valid_status(&self) -> (valid: bool)
        ensures
            valid == (self.status_bits() == 0),
            valid == (self.stcnt < 0x2000),
    {
        match self.status() {
            CplStatus::Success => true,
            _ => false,
        }
    }

    /// Whether no further completion follows this one for the same request.
    pub fn is_last_tlp(&self) -> (last: bool)
        ensures
            last == self.is_last(),
    {
        let off: u16 = self.lowaddr as u16 & 0x3;
        let lowaddr: u8 = self.lowaddr;
        assert(lowaddr as u16 & 0x3 == lowaddr % 4) by (bit_vector);
        let need: u16 = off + self.count() + 3;
        assert(need >> 2 == need / 4) by (bit_vector);
        self.length() == (need >> 2)
    }

    /// The completion status.
    pub fn status(&self) -> (status: CplStatus)
        ensures
            status == CplStatus::of(self.status_bits() as u16),
    {
        let stcnt: u16 = self.stcnt;
        assert(stcnt & 0xE000 == stcnt / 0x2000 * 0x2000) by (bit_vector);
        CplStatus::from(stcnt & 0xE000)
    }

    /// The number of doublewords of data in this completion.
    pub fn length(&self) -> (len: u16)
        ensures
            len == self.dw_count(),
    {
        let falen: u16 = self.falen;
        assert(falen & 0x03FF == falen % 1024) by (bit_vector);
        falen & 0x03FF
    }

    /// The number of bytes still to come for the request, those of this
    /// completion included.
    pub fn count(&self) -> (count: u16)
        ensures
            count == self.byte_count(),
    {
        let stcnt: u16 = self.stcnt;
        assert(stcnt & 0x0FFF == stcnt % 4096) by (bit_vector);
        stcnt & 0x0FFF
    }
}

/// A completion header that is written and read back is the same header,
/// whatever stands before and after it in the buffer.
pub proof fn lemma_cpl_hdr_round_trip(hdr: TlpCplHdr, before: Seq<u8>, after: Seq<u8>)
    ensures
        TlpCplHdr::decode(before + hdr.wire() + after, before.len() as int) == Some(hdr),
{
    let b = before + hdr.wire() + after;
    let at = before.len() as int;
    lemma_be16_round_trip(hdr.falen);
    lemma_be16_round_trip(hdr.completer);
    lemma_be16_round_trip(hdr.stcnt);
    lemma_be16_round_trip(hdr.requester);
    assert(b[at] == hdr.fmt_type);
    assert(from_be16(b, at + 2) == from_be16(be16(hdr.falen), 0));
    assert(from_be16(b, at + 4) == from_be16(be16(hdr.completer), 0));
    assert(from_be16(b, at + 6) == from_be16(be16(hdr.stcnt), 0));
    assert(from_be16(b, at + 8) == from_be16(be16(hdr.requester), 0));
}

} // verus!
