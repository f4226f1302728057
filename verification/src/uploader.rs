//! The uploading side of a transfer.
//!
//! An uploader connects, sends a header, then interleaves three things:
//! non-blocking reads of acknowledgements, reads of the next file
//! chunk, and writes of that chunk into the (possibly rate-limited)
//! connection.  When the connection resets it reconnects, seeks the
//! file back to the last acknowledged byte and re-sends the header
//! with that offset.  After the file is exhausted it drains
//! acknowledgements until every byte is covered, so a finished upload
//! means the receiver has durably written the whole file.
//!
//! The session here is that loop as a state machine: each outside
//! outcome (an acknowledgement, a chunk, a write result, a lost
//! connection) is an event, and the step function decides the next
//! action.  The loop that performs the socket and file work feeds it.
use vstd::prelude::*;

use crate::receiver::BUF_SIZE;

verus! {

/// An uploader: where to connect and the configured rate ceiling in
/// bytes per second, `None` (or zero) meaning unlimited.
pub struct FileUploader {
    /// Host name or address of the receiver.
    pub host: String,
    /// Port of the receiver.
    pub port: u16,
    /// Bytes per second, `None` for unlimited.
    pub rate_limit: Option<u32>,
}

impl FileUploader {
    /// An uploader for the given destination and rate ceiling.
    pub fn new(host: String, port: u16, rate_limit: Option<u32>) -> (u: FileUploader)
        ensures
            u.host@ == host@,
            u.port == port,
            u.rate_limit == rate_limit,
    {
        FileUploader { host, port, rate_limit }
    }
}

/// The rate a ceiling stands for: zero means no limiting at all.
pub open spec fn spec_effective_rate(rate_limit: Option<u32>) -> u32 {
    match rate_limit {
        Some(r) => r,
        None => 0,
    }
}

/// The rate a ceiling stands for; the bucket is only built, and writes
/// only gated, when this is positive.
pub fn effective_rate(rate_limit: Option<u32>) -> (r: u32)
    ensures
        r == spec_effective_rate(rate_limit),
{
    match rate_limit {
        Some(r) => r,
        None => 0,
    }
}

/// The chunk size the uploader reads and writes with: at most the
/// usual buffer, and when rate-limiting, at most the rate — a single
/// write must never ask for more tokens than the bucket's capacity.
pub open spec fn spec_buffer_size(rate_limit: Option<u32>) -> int {
    if spec_effective_rate(rate_limit) > 0 {
        vstd::math::min(spec_effective_rate(rate_limit) as int, BUF_SIZE as int)
    } else {
        BUF_SIZE as int
    }
}

/// The chunk size the uploader reads and writes with.
pub fn buffer_size(rate_limit: Option<u32>) -> (n: usize)
    ensures
        n == spec_buffer_size(rate_limit),
        1 <= n <= BUF_SIZE,
{
    let rate = effective_rate(rate_limit);
    if rate > 0 && (rate as usize) < BUF_SIZE {
        rate as usize
    } else {
        BUF_SIZE
    }
}

/// Where the upload loop stands between events.
#[derive(Clone, Copy, PartialEq, Eq, Structural, Debug)]
pub enum UploadPhase {
    /// At the top of the main loop: try a non-blocking
    /// acknowledgement read next.
    PollAck,
    /// Read the next chunk from the file next.
    ReadChunk,
    /// A chunk is partly unsent: write its remainder next.
    Write,
    /// The file is exhausted: drain acknowledgements until every byte
    /// is covered.
    Drain,
    /// Every byte is acknowledged: the upload is done.
    Finished,
}

/// The outcome of the one outside operation the session asked for.
pub enum UploadEvent {
    /// An eight-byte acknowledgement arrived, naming this absolute
    /// position as durably written.
    AckReceived(u64),
    /// No acknowledgement was available (or the read failed
    /// transiently).
    AckUnavailable,
    /// A file read returned this many bytes; zero means the end of
    /// the file.
    ChunkRead(usize),
    /// The connection accepted this many bytes of the chunk.
    Wrote(usize),
    /// The write would block; try it again.
    WriteBlocked,
    /// The connection was reset or the pipe broke.
    ConnectionLost,
}

/// What the upload loop must do next.
#[derive(PartialEq, Eq, Structural, Debug)]
pub enum UploadAction {
    /// Try a non-blocking read of one eight-byte acknowledgement.
    PollAck,
    /// Read up to this many bytes from the file at its current
    /// position.
    ReadChunk(usize),
    /// Write the chunk's bytes from `from` up to `to` into the
    /// connection.
    Write { from: usize, to: usize },
    /// The connection is gone: seek the file to `resume_offset`,
    /// reconnect, send a header carrying that offset, and keep the
    /// token bucket as it is — its debt survives the reconnection.
    Reconnect { resume_offset: u64 },
    /// The upload is complete: the receiver acknowledged every byte.
    Done,
}

/// One upload, across every connection it takes: the byte counts, the
/// file position, the current chunk's window, and the phase.
pub struct UploadSession {
    /// Total length of the source file, fixed at session start.
    pub file_size: u64,
    /// Greatest acknowledged absolute position so far; never
    /// decreases, even across reconnects.
    pub bytes_acknowledged: u64,
    /// Every byte handed to a connection, retransmissions included;
    /// reporting only.
    pub total_sent: u64,
    /// The source file's read position.
    pub file_pos: u64,
    /// Length of the chunk last read.
    pub chunk_len: usize,
    /// How much of that chunk the connection has accepted.
    pub chunk_sent: usize,
    /// The chunk size this session reads with.
    pub buf_size: usize,
    /// Where the loop stands.
    pub phase: UploadPhase,
}

impl UploadSession {
    /// How far into the file the bytes handed to connections reach:
    /// the file position minus the part of the current chunk still
    /// unsent.  An honest receiver can never acknowledge past this.
    pub open spec fn spec_wire_pos(&self) -> int {
        self.file_pos - (self.chunk_len - self.chunk_sent)
    }

    /// A session whose counters cohere.  The chain
    /// `bytes_acknowledged <= wire position <= file position <=
    /// file_size` holds in every phase; outside the write phase the
    /// chunk is fully sent; the drain and finished phases come only
    /// after the whole file was read; and finished means every byte
    /// is acknowledged.
    pub open spec fn wf(&self) -> bool {
        &&& 1 <= self.buf_size
        &&& self.chunk_sent <= self.chunk_len <= self.buf_size
        &&& self.chunk_len <= self.file_pos
        &&& self.file_pos <= self.file_size
        &&& self.bytes_acknowledged <= self.spec_wire_pos()
        &&& !(self.phase is Write) ==> self.chunk_sent == self.chunk_len
        &&& (self.phase is Drain || self.phase is Finished) ==> self.file_pos == self.file_size
        &&& self.phase is Finished ==> self.bytes_acknowledged == self.file_size
    }

    /// A fresh upload for a file of the given size: nothing sent,
    /// nothing acknowledged, the file at its start, an
    /// acknowledgement poll up first.  The caller sends the initial
    /// header, whose offset is zero, before feeding events.
    pub fn begin(file_size: u64, rate_limit: Option<u32>) -> (s: UploadSession)
        ensures
            s.wf(),
            s.file_size == file_size,
            s.bytes_acknowledged == 0,
            s.total_sent == 0,
            s.file_pos == 0,
            s.buf_size == spec_buffer_size(rate_limit),
            s.phase is PollAck,
    {
        UploadSession {
            file_size,
            bytes_acknowledged: 0,
            total_sent: 0,
            file_pos: 0,
            chunk_len: 0,
            chunk_sent: 0,
            buf_size: buffer_size(rate_limit),
            phase: UploadPhase::PollAck,
        }
    }

    /// Which events the session can take in its current phase, and
    /// what must hold of them.  An acknowledgement can only name bytes
    /// that were sent; a file read returns at most what was asked and
    /// runs out exactly at the file's end; a write accepts at most
    /// what remains of the chunk.
    pub open spec fn spec_accepts(&self, ev: UploadEvent) -> bool {
        match ev {
            UploadEvent::AckReceived(v) => (self.phase is PollAck || self.phase is Drain) && v
                <= self.spec_wire_pos(),
            UploadEvent::AckUnavailable => self.phase is PollAck || self.phase is Drain,
            UploadEvent::ChunkRead(n) => self.phase is ReadChunk && n <= self.buf_size
                && self.file_pos + n <= self.file_size && (n == 0 ==> self.file_pos
                == self.file_size),
            UploadEvent::Wrote(k) => self.phase is Write && k <= self.chunk_len - self.chunk_sent
                && self.total_sent + k <= u64::MAX,
            UploadEvent::WriteBlocked => self.phase is Write,
            UploadEvent::ConnectionLost => self.phase is Write,
        }
    }

    /// Whether every byte of the file is acknowledged and the upload
    /// is over.
    pub fn is_complete(&self) -> (done: bool)
        requires
            self.wf(),
        ensures
            done <==> self.phase is Finished,
            done ==> self.bytes_acknowledged == self.file_size,
    {
        self.phase == UploadPhase::Finished
    }

    /// Decides one step of the upload from the outcome of the last
    /// outside operation.  Acknowledged bytes never decrease, whatever
    /// arrives — a lower or repeated acknowledgement is ignored.  A
    /// lost connection rewinds the file to the last acknowledged byte
    /// and asks for a reconnect whose header carries that offset, so
    /// exactly the unacknowledged suffix is retransmitted.  The upload
    /// finishes only when the acknowledged count reaches the file
    /// size.
    pub fn step(&mut self, ev: UploadEvent) -> (action: UploadAction)
        requires
            old(self).wf(),
            old(self).spec_accepts(ev),
        ensures
            final(self).wf(),
            final(self).file_size == old(self).file_size,
            final(self).buf_size == old(self).buf_size,
            final(self).bytes_acknowledged >= old(self).bytes_acknowledged,
            match ev {
                UploadEvent::AckReceived(v) => {
                    &&& final(self).bytes_acknowledged == vstd::math::max(
                        old(self).bytes_acknowledged as int,
                        v as int,
                    )
                    &&& final(self).total_sent == old(self).total_sent
                    &&& final(self).file_pos == old(self).file_pos
                    &&& if old(self).phase is PollAck {
                        &&& final(self).phase is ReadChunk
                        &&& action == UploadAction::ReadChunk(old(self).buf_size)
                    } else {
                        if vstd::math::max(old(self).bytes_acknowledged as int, v as int) == old(
                            self,
                        ).file_size {
                            &&& final(self).phase is Finished
                            &&& action == UploadAction::Done
                        } else {
                            &&& final(self).phase is Drain
                            &&& action == UploadAction::PollAck
                        }
                    }
                },
                UploadEvent::AckUnavailable => {
                    &&& final(self).bytes_acknowledged == old(self).bytes_acknowledged
                    &&& final(self).total_sent == old(self).total_sent
                    &&& final(self).file_pos == old(self).file_pos
                    &&& if old(self).phase is PollAck {
                        &&& final(self).phase is ReadChunk
                        &&& action == UploadAction::ReadChunk(old(self).buf_size)
                    } else {
                        &&& final(self).phase is Drain
                        &&& action == UploadAction::PollAck
                    }
                },
                UploadEvent::ChunkRead(n) => {
                    &&& final(self).bytes_acknowledged == old(self).bytes_acknowledged
                    &&& final(self).total_sent == old(self).total_sent
                    &&& if n == 0 {
                        &&& final(self).file_pos == old(self).file_pos
                        &&& if old(self).bytes_acknowledged == old(self).file_size {
                            &&& final(self).phase is Finished
                            &&& action == UploadAction::Done
                        } else {
                            &&& final(self).phase is Drain
                            &&& action == UploadAction::PollAck
                        }
                    } else {
                        &&& final(self).file_pos == old(self).file_pos + n
                        &&& final(self).chunk_len == n
                        &&& final(self).chunk_sent == 0
                        &&& final(self).phase is Write
                        &&& action == UploadAction::Write { from: 0, to: n }
                    }
                },
                UploadEvent::Wrote(k) => {
                    &&& final(self).bytes_acknowledged == old(self).bytes_acknowledged
                    &&& final(self).total_sent == old(self).total_sent + k
                    &&& final(self).file_pos == old(self).file_pos
                    &&& final(self).chunk_sent == old(self).chunk_sent + k
                    &&& final(self).chunk_len == old(self).chunk_len
                    &&& if old(self).chunk_sent + k == old(self).chunk_len {
                        &&& final(self).phase is PollAck
                        &&& action == UploadAction::PollAck
                    } else {
                        &&& final(self).phase is Write
                        &&& action == UploadAction::Write {
                            from: (old(self).chunk_sent + k) as usize,
                            to: old(self).chunk_len,
                        }
                    }
                },
                UploadEvent::WriteBlocked => {
                    &&& *final(self) == *old(self)
                    &&& action == UploadAction::Write {
                        from: old(self).chunk_sent,
                        to: old(self).chunk_len,
                    }
                },
                UploadEvent::ConnectionLost => {
                    &&& final(self).bytes_acknowledged == old(self).bytes_acknowledged
                    &&& final(self).total_sent == old(self).total_sent
                    &&& final(self).file_pos == old(self).bytes_acknowledged
                    &&& final(self).chunk_len == 0
                    &&& final(self).chunk_sent == 0
                    &&& final(self).phase is PollAck
                    &&& action == UploadAction::Reconnect {
                        resume_offset: old(self).bytes_acknowledged,
                    }
                },
            },
    {
        match ev {
            UploadEvent::AckReceived(v) => {
                if v > self.bytes_acknowledged {
                    self.bytes_acknowledged = v;
                }
                if self.phase == UploadPhase::PollAck {
                    self.phase = UploadPhase::ReadChunk;
                    UploadAction::ReadChunk(self.buf_size)
                } else {
                    if self.bytes_acknowledged == self.file_size {
                        self.phase = UploadPhase::Finished;
                        UploadAction::Done
                    } else {
                        UploadAction::PollAck
                    }
                }
            },
            UploadEvent::AckUnavailable => {
                if self.phase == UploadPhase::PollAck {
                    self.phase = UploadPhase::ReadChunk;
                    UploadAction::ReadChunk(self.buf_size)
                } else {
                    UploadAction::PollAck
                }
            },
            UploadEvent::ChunkRead(n) => {
                if n == 0 {
                    if self.bytes_acknowledged == self.file_size {
                        self.phase = UploadPhase::Finished;
                        UploadAction::Done
                    } else {
                        self.phase = UploadPhase::Drain;
                        UploadAction::PollAck
                    }
                } else {
                    self.file_pos = self.file_pos + n as u64;
                    self.chunk_len = n;
                    self.chunk_sent = 0;
                    self.phase = UploadPhase::Write;
                    UploadAction::Write { from: 0, to: n }
                }
            },
            UploadEvent::Wrote(k) => {
                self.chunk_sent = self.chunk_sent + k;
                self.total_sent = self.total_sent + k as u64;
                if self.chunk_sent == self.chunk_len {
                    self.phase = UploadPhase::PollAck;
                    UploadAction::PollAck
                } else {
                    UploadAction::Write { from: self.chunk_sent, to: self.chunk_len }
                }
            },
            UploadEvent::WriteBlocked => {
                UploadAction::Write { from: self.chunk_sent, to: self.chunk_len }
            },
            UploadEvent::ConnectionLost => {
                self.file_pos = self.bytes_acknowledged;
                self.chunk_len = 0;
                self.chunk_sent = 0;
                self.phase = UploadPhase::PollAck;
                UploadAction::Reconnect { resume_offset: self.bytes_acknowledged }
            },
        }
    }
}

} // verus!
