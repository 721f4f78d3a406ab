//! Making changes to a mapped file durable.
//!
//! Flushing is done in up to two calls: one that starts writing the
//! modified pages of a range back to the file, and one that waits until the
//! file has reached stable storage. The second needs the handle the mapping
//! owns, and is only made where the mapping owns one.

use vstd::prelude::*;
use crate::error::MmapError;
use crate::mapping::{Layout, MmapMut, Region};
use crate::syscall::SysCall;

verus! {

/// What is left to do of a flush. Each stage waits for the reply to one
/// call.
#[derive(Clone, Copy, Debug, PartialEq, Eq)]
pub enum FlushSession {
    /// Writing the pages of `region` back; `then_sync` is the handle to
    /// wait on afterwards, if the flush is to wait.
    WritingBack { region: Region, then_sync: Option<usize> },
    /// Waiting until the file behind `handle` is on stable storage.
    Syncing { handle: usize },
}

/// Where a flush stands after a reply.
#[derive(Clone, Copy, Debug, PartialEq, Eq)]
pub enum FlushProgress {
    /// Another call has to be made.
    Pending(FlushSession),
    /// The flush has ended.
    Done(Result<(), MmapError>),
}

impl FlushSession {
    /// The call the flush is waiting for a reply to.
    pub open spec fn pending_call(self) -> SysCall {
        match self {
            FlushSession::WritingBack { region, .. } => SysCall::WriteBack {
                base: region.base,
                offset: region.offset,
                len: region.len,
            },
            FlushSession::Syncing { handle } => SysCall::SyncFile { handle },
        }
    }

    /// Where the flush stands once the pending call has been answered with
    /// `reply`: a failed call ends it with the code the system reported, a
    /// successful write-back is followed by the wait where one is due, and
    /// everything else ends it in success.
    pub open spec fn step(self, reply: Result<usize, i32>) -> FlushProgress {
        match reply {
            Err(code) => FlushProgress::Done(Err(MmapError::PlatformFailure(code))),
            Ok(_) => match self {
                FlushSession::WritingBack { then_sync: Some(handle), .. } => FlushProgress::Pending(
                    FlushSession::Syncing { handle },
                ),
                _ => FlushProgress::Done(Ok(())),
            },
        }
    }

    /// The call that has to be made next.
    pub fn pending(&self) -> (call: SysCall)
        ensures
            call == self.pending_call(),
    {
        match self {
            FlushSession::WritingBack { region, .. } => SysCall::WriteBack {
                base: region.base,
                offset: region.offset,
                len: region.len,
            },
            FlushSession::Syncing { handle } => SysCall::SyncFile { handle: *handle },
        }
    }

    /// Takes the reply to the pending call and moves on.
    pub fn advance(self, reply: Result<usize, i32>) -> (progress: FlushProgress)
        ensures
            progress == self.step(reply),
    {
        match reply {
            Err(code) => FlushProgress::Done(Err(MmapError::PlatformFailure(code))),
            Ok(_) => match self {
                FlushSession::WritingBack { then_sync: Some(handle), .. } => FlushProgress::Pending(
                    FlushSession::Syncing { handle },
                ),
                _ => FlushProgress::Done(Ok(())),
            },
        }
    }
}

/// The range of `len` bytes that begins `offset` bytes into the visible
/// range of a mapping.
pub open spec fn visible_range(layout: Layout, offset: usize, len: usize) -> Region {
    Region { base: layout.base, offset: (layout.visible_offset + offset) as usize, len }
}

/// The flush that writes a range of a mapping back without waiting.
pub open spec fn write_back_of(layout: Layout, offset: usize, len: usize) -> FlushSession {
    FlushSession::WritingBack { region: visible_range(layout, offset, len), then_sync: None }
}

/// The flush that writes a range of a mapping back and then waits on the
/// handle of the mapping, where it has one.
pub open spec fn flush_of(layout: Layout, offset: usize, len: usize) -> FlushSession {
    FlushSession::WritingBack {
        region: visible_range(layout, offset, len),
        then_sync: layout.handle,
    }
}

/// The flush that only waits on the handle of a mapping, or
/// `NoHandleAvailable` where the mapping has none.
pub open spec fn block_of(layout: Layout) -> Result<FlushSession, MmapError> {
    match layout.handle {
        Some(handle) => Ok(FlushSession::Syncing { handle }),
        None => Err(MmapError::NoHandleAvailable),
    }
}

/// What can be done with a mapping that is open for change.
pub trait CommonMmapMut {
    /// The number of bytes that can be seen and flushed.
    spec fn visible_len(&self) -> nat;

    /// Flushes the whole visible range and waits.
    fn flush_all(&self) -> FlushSession;

    /// Flushes the whole visible range without waiting.
    fn flush_all_non_blocking(&self) -> FlushSession;

    /// Flushes `len` bytes from `offset` on and waits.
    fn flush_range(&self, offset: usize, len: usize) -> FlushSession
        requires
            offset + len <= self.visible_len(),
    ;

    /// Flushes `len` bytes from `offset` on without waiting.
    fn flush_range_non_blocking(&self, offset: usize, len: usize) -> FlushSession
        requires
            offset + len <= self.visible_len(),
    ;

    /// Waits until what was flushed is on stable storage.
    fn block_on_flush(&self) -> Result<FlushSession, MmapError>;

    /// The visible bytes.
    fn as_slice(&mut self) -> Region;
}

impl CommonMmapMut for MmapMut {
    open spec fn visible_len(&self) -> nat {
        self@.len as nat
    }

    fn flush_all(&self) -> (session: FlushSession)
        ensures
            session == flush_of(self@, 0, self@.len),
    {
        let len = self.len();
        self.flush_range(0, len)
    }

    fn flush_all_non_blocking(&self) -> (session: FlushSession)
        ensures
            session == write_back_of(self@, 0, self@.len),
    {
        let len = self.len();
        self.flush_range_non_blocking(0, len)
    }

    fn flush_range(&self, offset: usize, len: usize) -> (session: FlushSession)
        ensures
            session == flush_of(self@, offset, len),
    {
        let layout = self.layout();
        FlushSession::WritingBack {
            region: Region { base: layout.base, offset: layout.visible_offset + offset, len },
            then_sync: layout.handle,
        }
    }

    fn flush_range_non_blocking(&self, offset: usize, len: usize) -> (session: FlushSession)
        ensures
            session == write_back_of(self@, offset, len),
    {
        let layout = self.layout();
        FlushSession::WritingBack {
            region: Region { base: layout.base, offset: layout.visible_offset + offset, len },
            then_sync: None,
        }
    }

    fn block_on_flush(&self) -> (r: Result<FlushSession, MmapError>)
        ensures
            r == block_of(self@),
    {
        match self.layout().handle {
            Some(handle) => Ok(FlushSession::Syncing { handle }),
            None => Err(MmapError::NoHandleAvailable),
        }
    }

    fn as_slice(&mut self) -> (region: Region)
        ensures
            region == (Region {
                base: old(self)@.base,
                offset: old(self)@.visible_offset,
                len: old(self)@.len,
            }),
            final(self)@ == old(self)@,
    {
        let layout = self.layout();
        Region { base: layout.base, offset: layout.visible_offset, len: layout.len }
    }
}

/// A flush is a write-back followed by the wait, and the wait is made
/// exactly where the mapping owns a handle: the first call of a flush is
/// the call of the write-back alone; once that call has succeeded, a
/// mapping with a handle goes on with what blocking on it alone would do,
/// and a mapping without one is done.
pub proof fn lemma_flush_is_write_back_then_block(
    layout: Layout,
    offset: usize,
    len: usize,
    word: usize,
)
    ensures
        flush_of(layout, offset, len).pending_call() == write_back_of(
            layout,
            offset,
            len,
        ).pending_call(),
        flush_of(layout, offset, len).step(Ok(word)) == (match block_of(layout) {
            Ok(wait) => FlushProgress::Pending(wait),
            Err(_) => FlushProgress::Done(Ok(())),
        }),
        write_back_of(layout, offset, len).step(Ok(word)) == FlushProgress::Done(Ok(())),
        block_of(layout) is Err <==> layout.handle is None,
{
}

/// A flush reports the failure of the first call that fails, with the code
/// the system gave for it, and makes no call after it.
pub proof fn lemma_flush_stops_at_failure(session: FlushSession, code: i32)
    ensures
        session.step(Err(code)) == FlushProgress::Done(Err(MmapError::PlatformFailure(code))),
{
}

/// A flush makes at most two calls.
pub proof fn lemma_flush_ends(
    session: FlushSession,
    first: Result<usize, i32>,
    second: Result<usize, i32>,
)
    ensures
        session.step(first) matches FlushProgress::Pending(next) ==> next.step(second) is Done,
{
}

} // verus!
