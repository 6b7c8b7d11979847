//! The DMA read as a state machine.
//!
//! The data of a read comes back in one or more completions for each
//! request. The machine asks for one chunk at a time, puts the data of its
//! completions together, and goes on to the next chunk after the last one.

use crate::completion::{copy_payload, examine, examine_cpld, splice, CPLD_HDR_LEN};
use crate::error::Error;
use crate::nettlp::{chunk_size, encode_mrd, max_chunk_len, request_datagram, PAGE_LEN};
use crate::packet::packet_bytes;
use crate::pci::Bdf;
use crate::tlp::TlpType;
use bytes::BytesMut;
use vstd::prelude::*;

verus! {

/// What the transport reports while a read request is outstanding.
#[derive(Debug)]
pub enum ReadEvent {
    /// A datagram came in.
    Datagram(Vec<u8>),
    /// None came within the timeout.
    TimedOut,
}

/// What the transport is to do next for a read.
#[derive(Debug)]
pub enum ReadAction {
    /// Send this datagram, then receive.
    Send(BytesMut),
    /// Receive another datagram.
    Receive,
    /// Nothing: all the data is there.
    Done,
    /// Nothing: the read has failed.
    Fail(Error),
}

/// A DMA read in progress. The transport sends what the read asks it to and
/// reports what it receives; the read decides what happens next.
///
/// Several requests are made when the read is larger than the maximum read
/// request size, or crosses a 4 KB boundary. One request is outstanding at a
/// time, and any number of completions may answer it.
#[derive(Debug)]
pub struct DmaRead {
    /// Requester id of this side
    pub requester: Bdf,
    /// Tag of the session
    pub tag: u8,
    /// Maximum read request size
    pub mrrs: usize,
    /// Address of the first byte to read
    pub addr: u64,
    /// Destination: one byte for each byte to read
    pub buf: Vec<u8>,
    /// Bytes that the answered requests asked for
    pub received: usize,
    /// Bytes that the outstanding request asks for; zero where none is
    /// outstanding
    pub chunk: usize,
    /// Bytes that have come for the outstanding request
    pub filled: usize,
}

impl DmaRead {
    /// The outstanding request lies within the destination, behind the
    /// requests that were answered, and no more has come for it than it
    /// asked for.
    pub open spec fn wf(&self) -> bool {
        &&& self.mrrs > 0
        &&& self.addr + self.buf.len() <= u64::MAX
        &&& self.received + self.chunk <= self.buf.len()
        &&& self.filled <= self.chunk
        &&& self.chunk <= PAGE_LEN
    }

    /// A request is outstanding.
    pub open spec fn awaiting(&self) -> bool {
        self.chunk > 0
    }

    /// Every request has been answered.
    pub open spec fn finished(&self) -> bool {
        self.chunk == 0 && self.received == self.buf.len()
    }

    /// Address of the outstanding request, or of the next one.
    pub open spec fn cursor(&self) -> int {
        self.addr + self.received
    }

    /// `other` is a state of the same read.
    pub open spec fn same_read(&self, other: &DmaRead) -> bool {
        &&& self.requester == other.requester
        &&& self.tag == other.tag
        &&& self.mrrs == other.mrrs
        &&& self.addr == other.addr
        &&& self.buf.len() == other.buf.len()
    }

    /// In this state the next request has just been opened by `action`, or
    /// the read has ended with it: where bytes are left to ask for, the
    /// request is for the largest chunk allowed at the cursor and `action`
    /// sends its datagram; where none are, `action` is `Done`.
    pub open spec fn opened_by(&self, action: ReadAction) -> bool {
        &&& self.filled == 0
        &&& if self.received == self.buf.len() {
            self.finished() && action is Done
        } else {
            &&& self.chunk == chunk_size(
                self.cursor() as u64,
                (self.buf.len() - self.received) as usize,
                self.mrrs,
            )
            &&& action matches ReadAction::Send(packet)
            &&& packet_bytes(packet) == request_datagram(
                TlpType::Mrd,
                self.requester,
                self.tag,
                self.cursor() as u64,
                self.chunk,
                Seq::<u8>::empty(),
            )
        }
    }

    /// Begins a read of `len` bytes at `addr`. A read of no bytes is done at
    /// once; any other begins with its first request. The destination is
    /// zero until data comes.
    pub fn start(requester: Bdf, tag: u8, mrrs: usize, addr: u64, len: usize) -> (out: (
        Self,
        ReadAction,
    ))
        requires
            mrrs > 0,
            addr + len <= u64::MAX,
        ensures
            out.0.wf(),
            out.0.requester == requester,
            out.0.tag == tag,
            out.0.mrrs == mrrs,
            out.0.addr == addr,
            out.0.buf@ == Seq::new(len as nat, |i: int| 0u8),
            out.0.received == 0,
            out.0.opened_by(out.1),
    {
        let mut buf: Vec<u8> = Vec::new();
        let mut i: usize = 0;
        while i < len
            invariant
                i <= len,
                buf@ == Seq::new(i as nat, |i: int| 0u8),
            decreases len - i,
        {
            buf.push(0);
            i = i + 1;
            assert(buf@ =~= Seq::new(i as nat, |i: int| 0u8));
        }
        let mut read = DmaRead { requester, tag, mrrs, addr, buf, received: 0, chunk: 0, filled: 0 };
        let action = read.open_next();
        (read, action)
    }

    /// Opens the next request, or ends the read where no byte is left to
    /// ask for.
    fn open_next(&mut self) -> (action: ReadAction)
        requires
            old(self).wf(),
            old(self).chunk == 0,
            old(self).filled == 0,
        ensures
            final(self).wf(),
            final(self).same_read(old(self)),
            final(self).buf@ == old(self).buf@,
            final(self).received == old(self).received,
            final(self).opened_by(action),
    {
        let total: usize = self.buf.len();
        if self.received == total {
            return ReadAction::Done;
        }
        let p: u64 = self.addr + self.received as u64;
        let len: usize = max_chunk_len(p, total - self.received, self.mrrs);
        self.chunk = len;
        ReadAction::Send(encode_mrd(self.requester, self.tag, p, len))
    }

    /// Number of bytes that the transport must be able to receive in one
    /// datagram: the two headers, the data of the outstanding request, and
    /// six bytes more for data that is not aligned to doublewords.
    pub fn recv_len(&self) -> (n: usize)
        requires
            self.wf(),
        ensures
            n == CPLD_HDR_LEN + self.chunk + 6,
    {
        CPLD_HDR_LEN + self.chunk + 6
    }

    /// Takes what the transport reports for the outstanding request, and
    /// says what it is to do next.
    ///
    /// A timeout fails the read. A datagram is examined; a malformed one
    /// fails the read, and nothing is copied from it. The data of a good
    /// one is copied behind the data that came before. After the last
    /// completion of a request the next request is opened at the address
    /// behind the bytes that the request asked for, or the read is done.
    pub fn step(&mut self, event: ReadEvent) -> (action: ReadAction)
        requires
            old(self).wf(),
            old(self).awaiting(),
        ensures
            final(self).wf(),
            final(self).same_read(old(self)),
            match event {
                ReadEvent::TimedOut => {
                    &&& action matches ReadAction::Fail(e)
                    &&& e == Error::Timeout
                    &&& *final(self) == *old(self)
                },
                ReadEvent::Datagram(d) => match examine(d@, old(self).chunk - old(self).filled) {
                    Err(reject) => {
                        &&& action matches ReadAction::Fail(e)
                        &&& reject.is_error(old(self).cursor() as u64, e)
                        &&& *final(self) == *old(self)
                    },
                    Ok(data) => {
                        &&& final(self).buf@ == splice(
                            old(self).buf@,
                            old(self).received + old(self).filled,
                            d@.subrange(data.start as int, data.start + data.size),
                        )
                        &&& if data.last {
                            &&& final(self).received == old(self).received + old(self).chunk
                            &&& final(self).opened_by(action)
                        } else {
                            &&& final(self).received == old(self).received
                            &&& final(self).chunk == old(self).chunk
                            &&& final(self).filled == old(self).filled + data.size
                            &&& action is Receive
                        }
                    },
                },
            },
    {
        match event {
            ReadEvent::TimedOut => ReadAction::Fail(Error::Timeout),
            ReadEvent::Datagram(d) => {
                let p: u64 = self.addr + self.received as u64;
                match examine_cpld(d.as_slice(), self.chunk - self.filled) {
                    Err(reject) => ReadAction::Fail(reject.into_error(p)),
                    Ok(data) => {
                        copy_payload(
                            &mut self.buf,
                            self.received + self.filled,
                            d.as_slice(),
                            data.start,
                            data.size,
                        );
                        if data.last {
                            self.received = self.received + self.chunk;
                            self.chunk = 0;
                            self.filled = 0;
                            self.open_next()
                        } else {
                            self.filled = self.filled + data.size;
                            ReadAction::Receive
                        }
                    },
                }
            },
        }
    }
}

} // verus!
