//! Completions: what a datagram that answers a read request must hold, and
//! where its data goes.
//!
//! The remote side is not trusted: every completion is examined before a
//! byte of it is copied.

use crate::error::Error;
use crate::nettlp::{min2, NETTLP_HDR_LEN};
use crate::text::{byte_bits, byte_bits_text, decimal, decimal_text, word_bits, word_bits_text};
use crate::tlp::{TlpCplHdr, CPL_FMT_TYPE, CPL_NODATA_FMT_TYPE};
use vstd::prelude::*;
use vstd::string::StringExecFns;

verus! {

/// Length of the two headers that every completion datagram begins with.
pub const CPLD_HDR_LEN: usize = 18;

/// What is wrong with a datagram that should hold a completion with data.
#[derive(Clone, Copy, Debug, PartialEq, Eq, Structural)]
pub enum CplReject {
    /// The datagram of `len` bytes is shorter than the two headers.
    Short { len: usize },
    /// It is a completion without data: there is nothing at the address.
    NoData,
    /// It is no completion at all.
    BadFormat { fmt_type: u8 },
    /// The completer reports a failure.
    BadStatus { stcnt: u16 },
    /// The header announces `size` bytes of data, and the datagram holds
    /// `avail` bytes after the headers, too few for them.
    Truncated { size: usize, avail: usize },
    /// The data is more than the request still waits for.
    NoSpace,
}

/// Where the data of a completion stands in its datagram.
#[derive(Clone, Copy, Debug, PartialEq, Eq, Structural)]
pub struct CplData {
    /// Index of the first byte of data
    pub start: usize,
    /// Number of bytes of data
    pub size: usize,
    /// Whether this is the last completion of its request
    pub last: bool,
}

/// Number of bytes of data that a completion carries for its request: the
/// bytes still to come, or what its doublewords hold from the offset of the
/// first byte on, whichever is less; none where they do not even reach the
/// offset.
pub open spec fn payload_size(hdr: TlpCplHdr) -> int {
    let room = 4 * hdr.dw_count() - hdr.byte_offset();
    if room <= 0 {
        0
    } else {
        min2(hdr.byte_count(), room)
    }
}

/// The verdict on the datagram `d`, received for a request that still waits
/// for `space` bytes. The checks come in this order: both headers are
/// there; the TLP is a completion with data; the status is success; the data
/// lies within the datagram; the data fits into the space.
pub open spec fn examine(d: Seq<u8>, space: int) -> Result<CplData, CplReject> {
    match TlpCplHdr::decode(d, NETTLP_HDR_LEN as int) {
        None => Err(CplReject::Short { len: d.len() as usize }),
        Some(hdr) => {
            let size = payload_size(hdr);
            let start = CPLD_HDR_LEN + hdr.byte_offset();
            if hdr.fmt_type == CPL_NODATA_FMT_TYPE {
                Err(CplReject::NoData)
            } else if hdr.fmt_type != CPL_FMT_TYPE {
                Err(CplReject::BadFormat { fmt_type: hdr.fmt_type })
            } else if hdr.stcnt >= 0x2000 {
                Err(CplReject::BadStatus { stcnt: hdr.stcnt })
            } else if start + size > d.len() {
                Err(
                    CplReject::Truncated {
                        size: size as usize,
                        avail: (d.len() - CPLD_HDR_LEN) as usize,
                    },
                )
            } else if size > space {
                Err(CplReject::NoSpace)
            } else {
                Ok(CplData { start: start as usize, size: size as usize, last: hdr.is_last() })
            }
        },
    }
}

/// Examines a datagram received for a request that still waits for `space`
/// bytes, and finds the data in it. Nothing is copied.
pub fn examine_cpld(d: &[u8], space: usize) -> (verdict: Result<CplData, CplReject>)
    ensures
        verdict == examine(d@, space as int),
        verdict matches Ok(data) ==> data.start + data.size <= d@.len() && data.size <= space,
{
    let cpld = match TlpCplHdr::parse(d, NETTLP_HDR_LEN) {
        None => {
            return Err(CplReject::Short { len: d.len() });
        },
        Some(cpld) => cpld,
    };
    if !cpld.is_valid_fmt_type() {
        if cpld.is_completion() {
            return Err(CplReject::NoData);
        } else {
            return Err(CplReject::BadFormat { fmt_type: cpld.fmt_type });
        }
    }
    if !cpld.is_valid_status() {
        return Err(CplReject::BadStatus { stcnt: cpld.stcnt });
    }
    let lowaddr: u8 = cpld.lowaddr;
    assert(lowaddr & 0x3 == lowaddr % 4) by (bit_vector);
    let offset: usize = (lowaddr & 0x3) as usize;
    let start: usize = CPLD_HDR_LEN + offset;
    let count: usize = cpld.count() as usize;
    let dw_bytes: usize = (cpld.length() as usize) * 4;
    let size: usize = if dw_bytes <= offset {
        0
    } else if count <= dw_bytes - offset {
        count
    } else {
        dw_bytes - offset
    };
    let n: usize = d.len();
    if size > n - CPLD_HDR_LEN || offset > n - CPLD_HDR_LEN - size {
        return Err(CplReject::Truncated { size, avail: n - CPLD_HDR_LEN });
    }
    if size > space {
        return Err(CplReject::NoSpace);
    }
    Ok(CplData { start, size, last: cpld.is_last_tlp() })
}

impl CplReject {
    /// The detail that the error for a malformed completion carries.
    pub open spec fn detail(self) -> Seq<char> {
        match self {
            CplReject::Short { len } => "Datagram size is less than TLP header size: "@
                + decimal_text(len as nat) + " < "@ + decimal_text(CPLD_HDR_LEN as nat),
            CplReject::NoData => Seq::<char>::empty(),
            CplReject::BadFormat { fmt_type } => "Invalid format type: "@ + byte_bits_text(
                fmt_type,
            ),
            CplReject::BadStatus { stcnt } => "Invalid status: "@ + word_bits_text(stcnt),
            CplReject::Truncated { size, avail } =>
                "TLP payload size is larger than the actual packet size: "@ + decimal_text(size as nat)
                    + " > "@ + decimal_text(avail as nat),
            CplReject::NoSpace => "Internal error"@,
        }
    }

    /// Whether `e` is the error for this rejection of a completion for the
    /// request at `addr`: an invalid address for a completion without data,
    /// else invalid data with the detail.
    pub open spec fn is_error(self, addr: u64, e: Error) -> bool {
        match self {
            CplReject::NoData => e == Error::InvalidAddress(addr),
            _ => e matches Error::InvalidData(text) && text@ == self.detail(),
        }
    }

    /// The error for this rejection of a completion for the request at
    /// `addr`.
    pub fn into_error(self, addr: u64) -> (e: Error)
        ensures
            self.is_error(addr, e),
    {
        match self {
            CplReject::Short { len } => {
                let mut text = String::from_str("Datagram size is less than TLP header size: ");
                text.append(decimal(len).as_str());
                text.append(" < ");
                text.append(decimal(CPLD_HDR_LEN).as_str());
                Error::InvalidData(text)
            },
            CplReject::NoData => Error::InvalidAddress(addr),
            CplReject::BadFormat { fmt_type } => {
                let mut text = String::from_str("Invalid format type: ");
                text.append(byte_bits(fmt_type).as_str());
                Error::InvalidData(text)
            },
            CplReject::BadStatus { stcnt } => {
                let mut text = String::from_str("Invalid status: ");
                text.append(word_bits(stcnt).as_str());
                Error::InvalidData(text)
            },
            CplReject::Truncated { size, avail } => {
                let mut text = String::from_str(
                    "TLP payload size is larger than the actual packet size: ",
                );
                text.append(decimal(size).as_str());
                text.append(" > ");
                text.append(decimal(avail).as_str());
                Error::InvalidData(text)
            },
            CplReject::NoSpace => Error::InvalidData(String::from_str("Internal error")),
        }
    }
}

/// The buffer `buf` with `data` written over it from index `at` on.
pub open spec fn splice(buf: Seq<u8>, at: int, data: Seq<u8>) -> Seq<u8> {
    Seq::new(
        buf.len(),
        |i: int|
            if at <= i < at + data.len() {
                data[i - at]
            } else {
                buf[i]
            },
    )
}

/// Data that comes in order fills the destination without gaps: where the
/// destination agrees with the memory `mem` up to `at`, and `data` is what
/// the memory holds from `at` on, the destination with `data` written at
/// `at` agrees with the memory up to the end of `data`, and is unchanged
/// behind it.
pub proof fn lemma_splice_in_order(buf: Seq<u8>, mem: Seq<u8>, at: int, data: Seq<u8>)
    requires
        0 <= at,
        at + data.len() <= buf.len() <= mem.len(),
        buf.subrange(0, at) == mem.subrange(0, at),
        data == mem.subrange(at, at + data.len()),
    ensures
        splice(buf, at, data).len() == buf.len(),
        splice(buf, at, data).subrange(0, at + data.len()) == mem.subrange(0, at + data.len()),
        splice(buf, at, data).subrange(at + data.len(), buf.len() as int) == buf.subrange(
            at + data.len(),
            buf.len() as int,
        ),
{
    let out = splice(buf, at, data);
    assert forall|i: int| 0 <= i < at + data.len() implies out[i] == mem[i] by {
        if i < at {
            assert(out[i] == buf[i]);
            assert(buf.subrange(0, at)[i] == buf[i]);
            assert(mem.subrange(0, at)[i] == mem[i]);
        } else {
            assert(out[i] == data[i - at]);
            assert(mem.subrange(at, at + data.len())[i - at] == mem[i]);
        }
    }
    assert(out.subrange(0, at + data.len()) =~= mem.subrange(0, at + data.len()));
    assert(out.subrange(at + data.len(), buf.len() as int) =~= buf.subrange(
        at + data.len(),
        buf.len() as int,
    ));
}

/// Copies `size` bytes of `d` from index `start` on into `buf` from index
/// `at` on.
pub fn copy_payload(buf: &mut Vec<u8>, at: usize, d: &[u8], start: usize, size: usize)
    requires
        at + size <= old(buf).len(),
        start + size <= d.len(),
    ensures
        final(buf)@ == splice(old(buf)@, at as int, d@.subrange(start as int, start + size)),
{
    let mut i: usize = 0;
    while i < size
        invariant
            i <= size,
            at + size <= buf.len(),
            start + size <= d.len(),
            buf@ == splice(old(buf)@, at as int, d@.subrange(start as int, start + i)),
        decreases size - i,
    {
        buf.set(at + i, d[start + i]);
        i = i + 1;
        assert(buf@ =~= splice(old(buf)@, at as int, d@.subrange(start as int, start + i)));
    }
}

} // verus!
