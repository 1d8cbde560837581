//! The streaming transfer engine: chunked copy of one file between a
//! source and a sink, with cooperative abort at chunk boundaries and a
//! finalize step for protocols that need an end-of-stream handshake.
//!
//! The engine is a state machine over plain events: the caller performs
//! each read, write and finalize it asks for and hands the outcome back.
//! Two ghost logs record every byte read and every byte the sink took, so
//! that what reaches the wire is provably the source's bytes, in order.

use vstd::prelude::*;

verus! {

use crate::fs::{FsEntry, opt_view};

/// A transfer reads and writes at most this many bytes at a time.
pub const CHUNK_SIZE: usize = 65536;

/// Where the engine stands.
#[derive(PartialEq, Eq, Structural, Debug, Clone, Copy)]
pub enum TransferPhase {
    /// Waiting for the next chunk from the source.
    Read,
    /// Waiting for the sink to take the pending bytes.
    Write,
    /// Waiting for the stream's finalize call.
    Finalize,
    /// The transfer is over.
    Done,
}

/// What the caller observed while serving the engine's last action.
pub enum TransferEvent {
    /// A chunk read from the source (empty when the source gave nothing).
    Chunk(Vec<u8>),
    /// The source failed with this message.
    ReadFailed(String),
    /// The sink took this many of the pending bytes.
    Wrote(usize),
    /// The sink failed with this message.
    WriteFailed(String),
    /// The user asked to abort during the input drain.
    Aborted,
    /// The finalize call returned, with an error message on failure.
    Finalized(Option<String>),
}

/// What the caller must do next.
pub enum TransferAction {
    /// Read the next chunk, at most `CHUNK_SIZE` bytes.
    Read,
    /// Write the engine's pending bytes to the sink.
    Write,
    /// Finalize the stream (the protocol's end-of-stream handshake).
    Finalize,
    /// Nothing is left to do.
    Done,
}

/// The engine for one streaming transfer.
pub struct TransferEngine {
    /// The bytes the source is expected to hold.
    pub total: u64,
    /// The bytes the sink has taken.
    pub written: u64,
    /// Bytes read but not yet taken by the sink.
    pub pending: Vec<u8>,
    /// The user aborted; the copy stops at the next chunk boundary.
    pub aborted: bool,
    /// The first error, when one ended the transfer.
    pub failed: Option<String>,
    /// The finalize call was made.
    pub finalized: bool,
    /// Where the engine stands.
    pub phase: TransferPhase,
    /// Every byte handed in from the source.
    pub read_log: Ghost<Seq<u8>>,
    /// Every byte the sink took, in order.
    pub write_log: Ghost<Seq<u8>>,
}

/// The engine's invariant. The sink's log is a prefix of the source's:
/// the bytes not yet taken are exactly the pending ones.
pub open spec fn engine_wf(e: TransferEngine) -> bool {
    &&& e.write_log@.len() == e.written
    &&& e.read_log@ == e.write_log@ + e.pending@
    &&& e.total <= u64::MAX - CHUNK_SIZE
    &&& e.pending@.len() <= CHUNK_SIZE
    &&& e.written as int + e.pending@.len() <= e.total as int + CHUNK_SIZE
    &&& (e.phase is Read ==> e.pending@.len() == 0 && e.written < e.total && !e.aborted
        && e.failed is None && !e.finalized)
    &&& (e.phase is Write ==> e.pending@.len() > 0 && e.failed is None && !e.finalized)
    &&& (e.phase is Finalize ==> e.pending@.len() == 0 && e.failed is None && !e.finalized)
    &&& (e.phase is Done ==> e.finalized || e.failed is Some)
    &&& (e.finalized ==> e.pending@.len() == 0)
}

/// The exact transition the engine makes for one event.
pub open spec fn step_post(
    pre: TransferEngine,
    post: TransferEngine,
    event: TransferEvent,
    a: TransferAction,
) -> bool {
    &&& post.total == pre.total
    &&& match event {
        TransferEvent::Chunk(data) => {
            &&& post.read_log@ == pre.read_log@ + data@
            &&& post.write_log@ == pre.write_log@
            &&& post.written == pre.written
            &&& post.aborted == pre.aborted
            &&& post.failed is None
            &&& !post.finalized
            &&& if data@.len() == 0 {
                post.phase is Read && a is Read && post.pending@.len() == 0
            } else {
                post.phase is Write && a is Write && post.pending@ == data@
            }
        },
        TransferEvent::ReadFailed(m) => {
            &&& post.read_log@ == pre.read_log@
            &&& post.write_log@ == pre.write_log@
            &&& post.written == pre.written
            &&& post.aborted == pre.aborted
            &&& (post.failed matches Some(f) && f@ == m@)
            &&& !post.finalized
            &&& post.phase is Done
            &&& a is Done
        },
        TransferEvent::Wrote(n) => {
            &&& post.read_log@ == pre.read_log@
            &&& post.write_log@ == pre.write_log@ + pre.pending@.take(n as int)
            &&& post.pending@ == pre.pending@.skip(n as int)
            &&& post.written == pre.written + n
            &&& post.aborted == pre.aborted
            &&& post.failed is None
            &&& !post.finalized
            &&& if post.pending@.len() > 0 {
                post.phase is Write && a is Write
            } else if pre.aborted || post.written >= post.total {
                post.phase is Finalize && a is Finalize
            } else {
                post.phase is Read && a is Read
            }
        },
        TransferEvent::WriteFailed(m) => {
            &&& post.read_log@ == pre.read_log@
            &&& post.write_log@ == pre.write_log@
            &&& post.written == pre.written
            &&& post.pending@ == pre.pending@
            &&& post.aborted == pre.aborted
            &&& (post.failed matches Some(f) && f@ == m@)
            &&& !post.finalized
            &&& post.phase is Done
            &&& a is Done
        },
        TransferEvent::Aborted => {
            &&& post.read_log@ == pre.read_log@
            &&& post.write_log@ == pre.write_log@
            &&& post.written == pre.written
            &&& post.pending@ == pre.pending@
            &&& post.aborted
            &&& post.failed is None
            &&& !post.finalized
            &&& if pre.phase is Read {
                post.phase is Finalize && a is Finalize
            } else {
                post.phase is Write && a is Write
            }
        },
        TransferEvent::Finalized(_) => {
            &&& post.read_log@ == pre.read_log@
            &&& post.write_log@ == pre.write_log@
            &&& post.written == pre.written
            &&& post.pending@ == pre.pending@
            &&& post.aborted == pre.aborted
            &&& post.failed is None
            &&& post.finalized
            &&& post.phase is Done
            &&& a is Done
        },
    }
}

/// The event fits the phase the engine stands in.
pub open spec fn event_fits(e: TransferEngine, event: TransferEvent) -> bool {
    match event {
        TransferEvent::Chunk(data) => e.phase is Read && data@.len() <= CHUNK_SIZE,
        TransferEvent::ReadFailed(_) => e.phase is Read,
        TransferEvent::Wrote(n) => e.phase is Write && n <= e.pending@.len(),
        TransferEvent::WriteFailed(_) => e.phase is Write,
        TransferEvent::Aborted => e.phase is Read || e.phase is Write,
        TransferEvent::Finalized(_) => e.phase is Finalize,
    }
}

impl TransferEngine {
    /// Start a transfer of `total` bytes: the engine first asks for a
    /// read, or goes straight to the finalize step for an empty source.
    pub fn start(total: u64) -> (r: TransferEngine)
        requires
            total <= u64::MAX - CHUNK_SIZE,
        ensures
            engine_wf(r),
            r.total == total,
            r.written == 0,
            !r.aborted,
            r.failed is None,
            !r.finalized,
            r.read_log@.len() == 0,
            r.write_log@.len() == 0,
            r.phase == if total == 0 {
                TransferPhase::Finalize
            } else {
                TransferPhase::Read
            },
    {
        TransferEngine {
            total,
            written: 0,
            pending: Vec::new(),
            aborted: false,
            failed: None,
            finalized: false,
            phase: if total == 0 {
                TransferPhase::Finalize
            } else {
                TransferPhase::Read
            },
            read_log: Ghost(Seq::empty()),
            write_log: Ghost(Seq::empty()),
        }
    }

    /// The bytes the sink still has to take.
    pub fn pending_bytes(&self) -> (r: &Vec<u8>)
        ensures
            r@ == self.pending@,
    {
        &self.pending
    }

    /// Drive the engine one step: record what the caller observed and
    /// answer with what to do next.
    pub fn step(&mut self, event: TransferEvent) -> (a: TransferAction)
        requires
            engine_wf(*old(self)),
            !(old(self).phase is Done),
            event_fits(*old(self), event),
        ensures
            engine_wf(*final(self)),
            step_post(*old(self), *final(self), event, a),
    {
        match event {
            TransferEvent::Chunk(data) => {
                proof {
                    self.read_log@ = self.read_log@ + data@;
                }
                if data.len() == 0 {
                    self.pending = data;
                    self.phase = TransferPhase::Read;
                    TransferAction::Read
                } else {
                    self.pending = data;
                    self.phase = TransferPhase::Write;
                    TransferAction::Write
                }
            },
            TransferEvent::ReadFailed(m) => {
                self.failed = Some(m);
                self.phase = TransferPhase::Done;
                TransferAction::Done
            },
            TransferEvent::Wrote(n) => {
                proof {
                    self.write_log@ = self.write_log@ + self.pending@.take(n as int);
                }
                let rest = crate::utils::sub_vec(&self.pending, n, self.pending.len());
                proof {
                    assert(rest@ =~= self.pending@.skip(n as int));
                    assert(self.write_log@ + rest@ =~= self.read_log@);
                }
                self.pending = rest;
                self.written = self.written + (n as u64);
                if self.pending.len() > 0 {
                    self.phase = TransferPhase::Write;
                    TransferAction::Write
                } else if self.aborted || self.written >= self.total {
                    self.phase = TransferPhase::Finalize;
                    TransferAction::Finalize
                } else {
                    self.phase = TransferPhase::Read;
                    TransferAction::Read
                }
            },
            TransferEvent::WriteFailed(m) => {
                self.failed = Some(m);
                self.phase = TransferPhase::Done;
                TransferAction::Done
            },
            TransferEvent::Aborted => {
                self.aborted = true;
                if matches!(self.phase, TransferPhase::Read) {
                    self.phase = TransferPhase::Finalize;
                    TransferAction::Finalize
                } else {
                    self.phase = TransferPhase::Write;
                    TransferAction::Write
                }
            },
            TransferEvent::Finalized(_) => {
                self.finalized = true;
                self.phase = TransferPhase::Done;
                TransferAction::Done
            },
        }
    }
}

/// A transfer that ended finalized and unfailed delivered to the sink
/// exactly the bytes it read from the source, in order; and when the
/// source held exactly the announced bytes, the byte accounting equals
/// that size.
pub proof fn lemma_transfer_exact(e: TransferEngine)
    requires
        engine_wf(e),
        e.phase is Done,
        e.failed is None,
    ensures
        e.write_log@ == e.read_log@,
        e.read_log@.len() == e.total ==> e.written == e.total,
{
    assert(e.finalized);
    assert(e.pending@.len() == 0);
    assert(e.write_log@ =~= e.read_log@);
}

/// A send followed by a receive reproduces the file byte for byte: when
/// the upload engine delivered the source's bytes to the wire, and the
/// download engine read from the wire exactly what the upload wrote, a
/// download that ends finalized and unfailed wrote out exactly the
/// source's bytes.
pub proof fn lemma_send_recv_round_trip(up: TransferEngine, down: TransferEngine)
    requires
        engine_wf(up),
        up.phase is Done,
        up.failed is None,
        engine_wf(down),
        down.phase is Done,
        down.failed is None,
        down.read_log@ == up.write_log@,
    ensures
        down.write_log@ == up.read_log@,
        up.read_log@.len() == up.total ==> down.written == up.total,
{
    lemma_transfer_exact(up);
    lemma_transfer_exact(down);
}

/// Once the abort flag is observed, the engine never asks for another
/// read: a step from an aborted engine only drains the pending chunk,
/// finalizes, or ends.
pub proof fn lemma_abort_stops_reads(
    pre: TransferEngine,
    post: TransferEngine,
    event: TransferEvent,
    a: TransferAction,
)
    requires
        engine_wf(pre),
        pre.aborted,
        step_post(pre, post, event, a),
        event_fits(pre, event),
    ensures
        !(a is Read),
        post.aborted,
{
}

/// The finalize step happens at most once: an engine that has made it
/// never asks for it again.
pub proof fn lemma_finalize_once(
    pre: TransferEngine,
    post: TransferEngine,
    event: TransferEvent,
    a: TransferAction,
)
    requires
        engine_wf(pre),
        pre.finalized,
        step_post(pre, post, event, a),
        event_fits(pre, event),
    ensures
        !(a is Finalize),
        post.finalized,
{
    assert(pre.phase is Done);
}

/// The plan for sending a directory: one `mkdir` of the remote path, then
/// one send per child, in the scanner's order.
pub enum DirOp {
    /// Create the directory at this path.
    Mkdir(String),
    /// Send the child at this position of the scan.
    SendChild(usize),
}

/// Lay out the operations of a directory send: exactly one `mkdir` of
/// `remote_path`, first, then exactly one send per scanned child, in the
/// scanner's order.
pub fn dir_send_ops(remote_path: &str, children: &Vec<FsEntry>) -> (r: Vec<DirOp>)
    ensures
        r@.len() == 1 + children@.len(),
        (r@[0] matches DirOp::Mkdir(p) && p@ == remote_path@),
        forall|k: int| 1 <= k < r@.len() ==> r@[k] == DirOp::SendChild((k - 1) as usize),
{
    let mut r: Vec<DirOp> = Vec::new();
    r.push(DirOp::Mkdir(remote_path.to_owned()));
    let mut i: usize = 0;
    while i < children.len()
        invariant
            0 <= i <= children@.len(),
            r@.len() == 1 + i,
            (r@[0] matches DirOp::Mkdir(p) && p@ == remote_path@),
            forall|k: int| 1 <= k < r@.len() ==> r@[k] == DirOp::SendChild((k - 1) as usize),
        decreases children@.len() - i,
    {
        r.push(DirOp::SendChild(i));
        i = i + 1;
    }
    r
}

} // verus!
