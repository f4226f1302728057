//! The receiving side of a transfer.
//!
//! A receiver owns a port and a lifecycle flag shared across threads.
//! Its accept loop (which lives with the sockets, outside this
//! library) hands every connection to a transfer session: parse the
//! header, open the destination file, seek to the offset, then read
//! chunks until the peer closes.  The session here decides what each
//! read means — persist, acknowledge, finish, retry or abort — and
//! accounts for every byte, so that what a completed session has
//! written is provably the payload it was handed.
use vstd::prelude::*;

use crate::control::{spec_aborts_transfer, aborts_transfer, control_code, control_of_code,
    Control};

use core::sync::atomic::AtomicUsize;
use core::sync::atomic::Ordering;

verus! {

/// Read chunks from the connection at most this large.
pub const BUF_SIZE: usize = 1024;

/// Acknowledge whenever at least this many bytes are unacknowledged.
pub const MAX_BYTES_NOT_ACKNOWLEDGED: u64 = 1024 * 1024;

/// How long the accept loop sleeps between polls, in milliseconds.
pub const POLLING_TIME_MILLIS: u64 = 200;

/// A file receiver: the port it serves and the lifecycle flag, an
/// atomic cell shared with whatever threads control the receiver.
pub struct FileReceiver {
    port: u16,
    command: AtomicUsize,
}

impl FileReceiver {
    /// The port this receiver serves.
    pub closed spec fn spec_port(&self) -> u16 {
        self.port
    }

    /// A receiver for the given port.  Its lifecycle flag starts as
    /// `Stop`; entering the accept loop sets it to `Run`.
    pub fn new(port: u16) -> (r: FileReceiver)
        ensures
            r.spec_port() == port,
    {
        FileReceiver { port, command: AtomicUsize::new(control_code(Control::Stop)) }
    }

    /// The port this receiver serves.
    pub fn port(&self) -> (p: u16)
        ensures
            p == self.spec_port(),
    {
        self.port
    }

    /// Stores a command in the shared lifecycle flag.  The store is a
    /// relaxed atomic write: the accept loop and the transfer loop
    /// observe it on their next poll, which no single-thread contract
    /// can speak about; the encoding itself is exact, see
    /// [`crate::control::lemma_control_code_round_trip`].
    pub fn set_command(&self, c: Control) {
        self.command.store(control_code(c), Ordering::Relaxed);
    }

    /// Reads the shared lifecycle flag: the decoding of whatever code
    /// some thread stored last.
    pub fn get_command(&self) -> Control {
        control_of_code(self.command.load(Ordering::Relaxed))
    }

    /// Asks the receiver to stop gracefully: finish the active
    /// transfer, then leave the accept loop at its next poll.
    pub fn stop(&self) {
        self.set_command(Control::Stop);
    }

    /// Asks the receiver to stop abruptly: abort the active transfer
    /// before its next read, with no final acknowledgement.
    pub fn stop_now(&self) {
        self.set_command(Control::StopNow);
    }
}

/// One transfer session, scoped to one accepted connection: the header
/// fields that frame it and the byte counts it maintains.  The ghost
/// field holds every payload byte the session has accepted, in order,
/// which is what the reconstruction proofs are stated over.
pub struct RecvSession {
    /// Total length of the source file, from the header.
    pub file_size: u64,
    /// Where in the destination this session's bytes start, from the
    /// header.
    pub offset: u64,
    /// Payload bytes accepted so far; monotonically non-decreasing
    /// within the session.
    pub bytes_received: u64,
    /// Bytes accepted since the last successful acknowledgement.
    pub bytes_not_acknowledged: u64,
    /// The payload bytes themselves, in arrival order.
    pub written: Ghost<Seq<u8>>,
}

/// What one read from the connection means for the session.
pub enum RecvEvent<'a> {
    /// The read returned bytes: the payload chunk.
    Data(&'a [u8]),
    /// The read returned zero bytes: the peer closed its send side,
    /// the transfer is complete.
    Closed,
    /// The read failed; treated as transient.
    Failed,
}

/// What the transfer loop must do after a step.
pub enum RecvStep {
    /// Persist the chunk at the current position; when `ack` carries a
    /// value, flush the file and then offer that acknowledgement to
    /// the peer (a failed send is tolerated and not retried here).
    Persist { ack: Option<u64> },
    /// The transfer completed cleanly; leave the loop.
    Complete,
    /// The read failed transiently; read again.
    Retry,
    /// The lifecycle flag says stop now; leave the loop at once, with
    /// no final acknowledgement.
    Abort,
}

impl RecvSession {
    /// A session whose counters cohere: what was not yet acknowledged
    /// was received, the ghost payload holds exactly the received
    /// bytes, and the absolute position fits the wire's 64 bits.
    pub open spec fn wf(&self) -> bool {
        &&& self.bytes_not_acknowledged <= self.bytes_received
        &&& self.written@.len() == self.bytes_received
        &&& self.offset + self.bytes_received <= u64::MAX
    }

    /// The absolute destination position the next chunk lands at.
    pub open spec fn spec_position(&self) -> int {
        self.offset + self.bytes_received
    }

    /// Whether an acknowledgement is due: enough bytes have piled up
    /// unacknowledged, or the final byte has just been persisted.
    pub open spec fn spec_ack_due(&self) -> bool {
        self.bytes_not_acknowledged >= MAX_BYTES_NOT_ACKNOWLEDGED || self.offset
            + self.bytes_received == self.file_size
    }

    /// A fresh session for an accepted connection, from its header
    /// fields: nothing received, nothing unacknowledged.
    pub fn begin(file_size: u64, offset: u64) -> (s: RecvSession)
        ensures
            s.wf(),
            s.file_size == file_size,
            s.offset == offset,
            s.bytes_received == 0,
            s.bytes_not_acknowledged == 0,
            s.written@ == Seq::<u8>::empty(),
    {
        RecvSession {
            file_size,
            offset,
            bytes_received: 0,
            bytes_not_acknowledged: 0,
            written: Ghost(Seq::empty()),
        }
    }

    /// Decides one iteration of the transfer loop: the lifecycle flag
    /// is consulted first, then the read's outcome.  A chunk advances
    /// both byte counts by its length and appends its bytes to the
    /// session's payload; an acknowledgement is offered exactly when
    /// one is due, and it names the absolute position up to which the
    /// destination is durable.
    pub fn step(&mut self, ctrl: Control, ev: RecvEvent<'_>) -> (action: RecvStep)
        requires
            old(self).wf(),
            ev matches RecvEvent::Data(chunk) ==> 1 <= chunk@.len()
                && old(self).offset + old(self).bytes_received + chunk@.len() <= u64::MAX,
        ensures
            final(self).wf(),
            final(self).file_size == old(self).file_size,
            final(self).offset == old(self).offset,
            final(self).bytes_received >= old(self).bytes_received,
            spec_aborts_transfer(ctrl) ==> (action matches RecvStep::Abort
                && *final(self) == *old(self)),
            !spec_aborts_transfer(ctrl) ==> match ev {
                RecvEvent::Data(chunk) => {
                    &&& final(self).bytes_received == old(self).bytes_received + chunk@.len()
                    &&& final(self).bytes_not_acknowledged == old(self).bytes_not_acknowledged
                        + chunk@.len()
                    &&& final(self).written@ == old(self).written@ + chunk@
                    &&& (action matches RecvStep::Persist { ack } && ack == (if final(self).spec_ack_due() {
                        Some(final(self).spec_position() as u64)
                    } else {
                        None::<u64>
                    }))
                },
                RecvEvent::Closed => (action matches RecvStep::Complete
                    && *final(self) == *old(self)),
                RecvEvent::Failed => (action matches RecvStep::Retry
                    && *final(self) == *old(self)),
            },
    {
        if aborts_transfer(ctrl) {
            return RecvStep::Abort;
        }
        match ev {
            RecvEvent::Data(chunk) => {
                let n = chunk.len() as u64;
                self.bytes_received = self.bytes_received + n;
                self.bytes_not_acknowledged = self.bytes_not_acknowledged + n;
                proof {
                    self.written@ = self.written@ + chunk@;
                }
                let due = self.bytes_not_acknowledged >= MAX_BYTES_NOT_ACKNOWLEDGED || self.offset
                    + self.bytes_received == self.file_size;
                if due {
                    RecvStep::Persist { ack: Some(self.offset + self.bytes_received) }
                } else {
                    RecvStep::Persist { ack: None }
                }
            },
            RecvEvent::Closed => RecvStep::Complete,
            RecvEvent::Failed => RecvStep::Retry,
        }
    }

    /// Records that an acknowledgement reached the peer: the
    /// unacknowledged count starts over.  A failed send skips this, so
    /// the next acknowledgement covers the lost range too.
    pub fn ack_sent(&mut self)
        requires
            old(self).wf(),
        ensures
            final(self).wf(),
            *final(self) == (RecvSession { bytes_not_acknowledged: 0, ..*old(self) }),
    {
        self.bytes_not_acknowledged = 0;
    }
}

/// A fresh transfer reconstructs the source.  A completed session that
/// started at offset zero accepted exactly `file_size` bytes; when
/// those bytes are the source file's bytes — which is what the wire
/// carries — writing them at the start of the new destination leaves a
/// file byte-identical to the source, so any checksum of the two
/// agrees, at whatever rate the bytes arrived.
pub proof fn lemma_fresh_transfer_reconstructs(source: Seq<u8>, s: RecvSession)
    requires
        s.wf(),
        s.offset == 0,
        s.file_size == source.len(),
        s.bytes_received == s.file_size,
        s.written@ == source,
    ensures
        crate::filemodel::write_at(Seq::empty(), 0, s.written@) == source,
{
    assert(crate::filemodel::write_at(Seq::empty(), 0, s.written@) =~= source);
}

/// A resumed transfer reconstructs the source.  An aborted session
/// left the destination holding some prefix of the source; the
/// uploader resumed from an acknowledged offset no greater than that
/// prefix, and the resumed session accepted exactly the source's bytes
/// from the offset to the end.  Writing them at the offset, on top of
/// whatever the aborted session left, restores the source exactly.
pub proof fn lemma_resume_reconstructs(source: Seq<u8>, aborted: Seq<u8>, s: RecvSession)
    requires
        s.wf(),
        aborted.len() <= source.len(),
        aborted == source.take(aborted.len() as int),
        s.offset <= aborted.len(),
        s.file_size == source.len(),
        s.offset + s.bytes_received == s.file_size,
        s.written@ == source.skip(s.offset as int),
    ensures
        crate::filemodel::write_at(aborted, s.offset as int, s.written@) == source,
{
    assert(aborted.take(s.offset as int) =~= source.take(s.offset as int));
    crate::filemodel::lemma_transfer_reconstructs_source(source, aborted, s.offset as int);
}

/// The path separator byte.
pub const SLASH: u8 = 47;

/// The suffix appended to the transmitted name: the bytes of
/// `.received`.
pub open spec fn spec_received_suffix() -> Seq<u8> {
    seq![46u8, 114u8, 101u8, 99u8, 101u8, 105u8, 118u8, 101u8, 100u8]
}

/// The bytes after the last path separator: the base name.  A string
/// without a separator is its own base name; one ending in a separator
/// has an empty one.
pub open spec fn spec_after_last_slash(s: Seq<u8>) -> Seq<u8>
    decreases s.len(),
{
    if s.len() == 0 {
        s
    } else if s.last() == SLASH {
        Seq::empty()
    } else {
        spec_after_last_slash(s.drop_last()) + seq![s.last()]
    }
}

/// The destination file name for a transmitted name: the suffix is
/// appended and any directory components are stripped, which contains
/// the write to the receiver's working directory.
pub open spec fn spec_dest_file_name(name: Seq<u8>) -> Seq<u8> {
    spec_after_last_slash(name + spec_received_suffix())
}

/// Appending separator-free bytes moves them through the base name:
/// the base name of `a + b` is the base name of `a` followed by `b`.
pub proof fn lemma_after_last_slash_append(a: Seq<u8>, b: Seq<u8>)
    requires
        forall|i: int| 0 <= i < b.len() ==> b[i] != SLASH,
    ensures
        spec_after_last_slash(a + b) == spec_after_last_slash(a) + b,
    decreases b.len(),
{
    if b.len() == 0 {
        assert(a + b =~= a);
        assert(spec_after_last_slash(a) + b =~= spec_after_last_slash(a));
    } else {
        let ab = a + b;
        assert(ab.last() == b.last());
        assert(ab.drop_last() =~= a + b.drop_last());
        lemma_after_last_slash_append(a, b.drop_last());
        assert(spec_after_last_slash(ab) =~= spec_after_last_slash(a) + b);
    }
}

/// The base name never holds a separator: the receiver's write stays
/// in its working directory whatever path the peer transmitted.
pub proof fn lemma_after_last_slash_no_slash(s: Seq<u8>)
    ensures
        forall|i: int|
            0 <= i < spec_after_last_slash(s).len() ==> spec_after_last_slash(s)[i] != SLASH,
    decreases s.len(),
{
    if s.len() == 0 {
    } else if s.last() == SLASH {
    } else {
        lemma_after_last_slash_no_slash(s.drop_last());
        let f = spec_after_last_slash(s);
        let g = spec_after_last_slash(s.drop_last());
        assert forall|i: int| 0 <= i < f.len() implies f[i] != SLASH by {
            if i < g.len() {
                assert(f[i] == g[i]);
            } else {
                assert(f[i] == s.last());
            }
        }
    }
}

/// A cut right after the last separator picks out the base name: when
/// nothing at or after `cut` is a separator and `cut` is 0 or follows
/// one, the base name is everything from `cut` on.
proof fn lemma_after_last_slash_cut(s: Seq<u8>, cut: int)
    requires
        0 <= cut <= s.len(),
        forall|j: int| cut <= j < s.len() ==> s[j] != SLASH,
        cut == 0 || s[cut - 1] == SLASH,
    ensures
        spec_after_last_slash(s) == s.subrange(cut, s.len() as int),
    decreases s.len(),
{
    if cut == s.len() {
        if s.len() == 0 {
            assert(spec_after_last_slash(s) =~= s.subrange(cut, s.len() as int));
        } else {
            assert(s.last() == SLASH);
            assert(spec_after_last_slash(s) =~= s.subrange(cut, s.len() as int));
        }
    } else {
        assert(s.last() != SLASH);
        lemma_after_last_slash_cut(s.drop_last(), cut);
        assert(spec_after_last_slash(s) =~= s.subrange(cut, s.len() as int));
    }
}

/// No byte of the suffix is a path separator.
proof fn lemma_suffix_has_no_slash()
    ensures
        forall|i: int|
            0 <= i < spec_received_suffix().len() ==> spec_received_suffix()[i] != SLASH,
{
    let s = spec_received_suffix();
    assert forall|i: int| 0 <= i < s.len() implies s[i] != SLASH by {
        if i == 0 {
            assert(s[0] == 46);
        } else if i == 1 {
            assert(s[1] == 114);
        } else if i == 2 {
            assert(s[2] == 101);
        } else if i == 3 {
            assert(s[3] == 99);
        } else if i == 4 {
            assert(s[4] == 101);
        } else if i == 5 {
            assert(s[5] == 105);
        } else if i == 6 {
            assert(s[6] == 118);
        } else if i == 7 {
            assert(s[7] == 101);
        } else {
            assert(s[8] == 100);
        }
    }
}

/// The destination file name for a transmitted name: the name with
/// `.received` appended and everything up to the last path separator
/// stripped — equally, the transmitted name's base name with the
/// suffix after it, exactly the policy that contains the write to the
/// receiver's working directory.
pub fn dest_file_name(name: &[u8]) -> (r: Vec<u8>)
    requires
        name@.len() <= 255,
    ensures
        r@ == spec_dest_file_name(name@),
        r@ == spec_after_last_slash(name@) + spec_received_suffix(),
{
    proof {
        lemma_suffix_has_no_slash();
        lemma_after_last_slash_append(name@, spec_received_suffix());
    }
    let mut full: Vec<u8> = Vec::new();
    let mut i: usize = 0;
    while i < name.len()
        invariant
            i <= name@.len(),
            full@ =~= name@.subrange(0, i as int),
        decreases name@.len() - i,
    {
        full.push(name[i]);
        i = i + 1;
    }
    full.push(46);
    full.push(114);
    full.push(101);
    full.push(99);
    full.push(101);
    full.push(105);
    full.push(118);
    full.push(101);
    full.push(100);
    proof {
        assert(full@ =~= name@ + spec_received_suffix());
    }
    let mut cut: usize = full.len();
    while cut > 0 && full[cut - 1] != SLASH
        invariant
            cut <= full@.len(),
            forall|j: int| cut <= j < full@.len() ==> full@[j] != SLASH,
        decreases cut,
    {
        cut = cut - 1;
    }
    let mut r: Vec<u8> = Vec::new();
    let mut k: usize = cut;
    while k < full.len()
        invariant
            cut <= k <= full@.len(),
            r@ =~= full@.subrange(cut as int, k as int),
        decreases full@.len() - k,
    {
        r.push(full[k]);
        k = k + 1;
    }
    proof {
        lemma_after_last_slash_cut(full@, cut as int);
        assert(r@ =~= full@.subrange(cut as int, full@.len() as int));
    }
    r
}

} // verus!
