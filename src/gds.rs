//! Locked access to a port of the Global Data Space.
//!
//! A transaction resolves a port to a buffer handle and an offset, locks the
//! buffer page, copies the port's bytes, unlocks the page and releases the
//! handle. The runtime calls are made by the caller: the transaction names
//! the next call, and the caller hands back the runtime's reply. Whatever the
//! replies, a handle that was obtained is released exactly once, and the
//! first failure is the one reported.

use vstd::prelude::*;

use crate::error::{ErrorKind, PlcnextError};

verus! {

/// The text of the error returned when the requested length exceeds the port.
pub const PORT_SIZE_MISMATCH: &'static str = "The requested length exceeds the size of the port.";

/// Direction of a port transaction.
#[derive(Debug, Clone, Copy, PartialEq, Eq, Structural)]
pub enum GdsOperation {
    /// Copy the port's bytes out of the page.
    Read,
    /// Copy bytes into the port's place in the page.
    Write,
}

/// A runtime call that a transaction asks for.
#[derive(Debug, Clone, Copy, PartialEq, Eq, Structural)]
pub enum GdsCall {
    /// Look up the buffer that holds the port.
    LookupBuffer,
    /// Look up the port's offset and size within that buffer.
    LookupOffset,
    /// Lock the buffer page for reading or writing.
    Begin,
    /// Copy the bytes between the caller's buffer and the locked page.
    Copy,
    /// Unlock the buffer page.
    End,
    /// Release the buffer handle.
    Release,
}

/// Where a port lies in its buffer page.
#[derive(Debug, Clone, Copy, PartialEq, Eq, Structural)]
pub struct PortLocation {
    pub offset: usize,
    pub size: usize,
}

/// The runtime's answer to a call.
#[derive(Debug)]
pub enum Reply {
    /// The call succeeded.
    Done,
    /// The offset lookup succeeded with this location.
    Located(PortLocation),
    /// The call failed; the runtime's last-error text.
    Failed(String),
}

/// Whether `reply` is a possible answer to `call`.
pub open spec fn reply_fits(call: GdsCall, reply: Reply) -> bool {
    match call {
        GdsCall::LookupOffset => !(reply is Done),
        GdsCall::Copy => reply is Done,
        _ => !(reply is Located),
    }
}

/// The runtime's answers in one transaction, call by call.
pub struct Replies {
    pub buffer: Result<(), Seq<char>>,
    pub location: Result<PortLocation, Seq<char>>,
    pub begin: Result<(), Seq<char>>,
    pub end: Result<(), Seq<char>>,
    pub release: Result<(), Seq<char>>,
}

/// The calls that a transaction of `len` bytes makes, given the runtime's answers.
pub open spec fn protocol_calls(len: nat, r: Replies) -> Seq<GdsCall> {
    if r.buffer is Err {
        seq![GdsCall::LookupBuffer]
    } else if r.location is Err {
        seq![GdsCall::LookupBuffer, GdsCall::LookupOffset, GdsCall::Release]
    } else if r.begin is Err {
        seq![GdsCall::LookupBuffer, GdsCall::LookupOffset, GdsCall::Begin, GdsCall::Release]
    } else if len > r.location->Ok_0.size {
        seq![
            GdsCall::LookupBuffer,
            GdsCall::LookupOffset,
            GdsCall::Begin,
            GdsCall::End,
            GdsCall::Release,
        ]
    } else {
        seq![
            GdsCall::LookupBuffer,
            GdsCall::LookupOffset,
            GdsCall::Begin,
            GdsCall::Copy,
            GdsCall::End,
            GdsCall::Release,
        ]
    }
}

/// The failure that a call brings, if any. The length check follows a
/// successful lock, so its failure belongs to `Begin`.
pub open spec fn call_error(call: GdsCall, len: nat, r: Replies) -> Option<(ErrorKind, Seq<char>)> {
    match call {
        GdsCall::LookupBuffer => match r.buffer {
            Err(t) => Some((ErrorKind::BufferLookup, t)),
            Ok(_) => None,
        },
        GdsCall::LookupOffset => match r.location {
            Err(t) => Some((ErrorKind::OffsetLookup, t)),
            Ok(_) => None,
        },
        GdsCall::Begin => match r.begin {
            Err(t) => Some((ErrorKind::BufferLock, t)),
            Ok(_) => if r.location is Ok && len > r.location->Ok_0.size {
                Some((ErrorKind::PortSizeMismatch, PORT_SIZE_MISMATCH@))
            } else {
                None
            },
        },
        GdsCall::Copy => None,
        GdsCall::End => match r.end {
            Err(t) => Some((ErrorKind::BufferUnlock, t)),
            Ok(_) => None,
        },
        GdsCall::Release => match r.release {
            Err(t) => Some((ErrorKind::BufferRelease, t)),
            Ok(_) => None,
        },
    }
}

/// The first failure among `calls`: later failures never replace it.
pub open spec fn first_error(calls: Seq<GdsCall>, len: nat, r: Replies) -> Option<(ErrorKind, Seq<char>)>
    decreases calls.len(),
{
    if calls.len() == 0 {
        None
    } else {
        match first_error(calls.drop_last(), len, r) {
            Some(e) => Some(e),
            None => call_error(calls.last(), len, r),
        }
    }
}

/// The outcome of a transaction of `len` bytes, given the runtime's answers.
pub open spec fn protocol_result(len: nat, r: Replies) -> Option<(ErrorKind, Seq<char>)> {
    first_error(protocol_calls(len, r), len, r)
}

/// Kind and text of an optional error.
pub open spec fn error_view(e: Option<PlcnextError>) -> Option<(ErrorKind, Seq<char>)> {
    match e {
        Some(p) => Some((p.kind, p.details@)),
        None => None,
    }
}

/// The answer that `reply` gives to a call without a result value.
pub open spec fn answer(reply: Reply) -> Result<(), Seq<char>> {
    match reply {
        Reply::Failed(t) => Err(t@),
        _ => Ok(()),
    }
}

/// The answers after `reply` came back to `call`.
pub open spec fn record(r: Replies, call: GdsCall, reply: Reply) -> Replies {
    match call {
        GdsCall::LookupBuffer => Replies { buffer: answer(reply), ..r },
        GdsCall::LookupOffset => Replies {
            location: match reply {
                Reply::Located(l) => Ok(l),
                Reply::Failed(t) => Err(t@),
                Reply::Done => Err(Seq::empty()),
            },
            ..r
        },
        GdsCall::Begin => Replies { begin: answer(reply), ..r },
        GdsCall::Copy => r,
        GdsCall::End => Replies { end: answer(reply), ..r },
        GdsCall::Release => Replies { release: answer(reply), ..r },
    }
}

proof fn first_error_push(calls: Seq<GdsCall>, c: GdsCall, len: nat, r: Replies)
    ensures
        first_error(calls.push(c), len, r) == (match first_error(calls, len, r) {
            Some(e) => Some(e),
            None => call_error(c, len, r),
        }),
{
    assert(calls.push(c).drop_last() =~= calls);
}

proof fn first_error_frame(calls: Seq<GdsCall>, len: nat, r: Replies, r2: Replies)
    requires
        forall|i: int| 0 <= i < calls.len() ==> call_error(#[trigger] calls[i], len, r) == call_error(calls[i], len, r2),
    ensures
        first_error(calls, len, r) == first_error(calls, len, r2),
    decreases calls.len(),
{
    if calls.len() > 0 {
        let d = calls.drop_last();
        assert forall|i: int| 0 <= i < d.len() implies call_error(#[trigger] d[i], len, r) == call_error(d[i], len, r2) by {
            assert(d[i] == calls[i]);
        }
        first_error_frame(d, len, r, r2);
        assert(calls.last() == calls[calls.len() - 1]);
    }
}

/// One port transaction in progress.
pub struct GdsTransaction {
    pub op: GdsOperation,
    /// Number of bytes to copy.
    pub len: usize,
    /// The call the runtime must make next; `None` once the transaction is over.
    pub next: Option<GdsCall>,
    /// The port's place, once the offset lookup has answered.
    pub location: PortLocation,
    /// The first failure so far.
    pub error: Option<PlcnextError>,
    /// The calls made so far.
    pub calls: Ghost<Seq<GdsCall>>,
    /// The answers received so far; those to calls not yet made are unconstrained.
    pub replies: Ghost<Replies>,
}

impl GdsTransaction {
    /// The transaction's state agrees with the protocol for the answers received.
    pub open spec fn wf(&self) -> bool {
        let all = protocol_calls(self.len as nat, self.replies@);
        let n = self.calls@.len();
        &&& n <= all.len()
        &&& self.calls@ == all.take(n as int)
        &&& self.next == (if n < all.len() { Some(all[n as int]) } else { None::<GdsCall> })
        &&& (n >= 2 && self.replies@.location is Ok ==> self.replies@.location == Ok::<
            PortLocation,
            Seq<char>,
        >(self.location))
        &&& error_view(self.error) == first_error(self.calls@, self.len as nat, self.replies@)
    }

    /// The transaction has made all its calls.
    pub open spec fn is_finished(&self) -> bool {
        self.next is None
    }

    /// Starts a transaction that copies `len` bytes in direction `op`.
    pub fn new(op: GdsOperation, len: usize) -> (t: GdsTransaction)
        ensures
            t.wf(),
            t.op == op,
            t.len == len,
            t.calls@ == Seq::<GdsCall>::empty(),
            t.next == Some(GdsCall::LookupBuffer),
    {
        let t = GdsTransaction {
            op,
            len,
            next: Some(GdsCall::LookupBuffer),
            location: PortLocation { offset: 0, size: 0 },
            error: None,
            calls: Ghost(Seq::empty()),
            replies: Ghost(arbitrary()),
        };
        proof {
            let all = protocol_calls(len as nat, t.replies@);
            assert(all.take(0) =~= Seq::<GdsCall>::empty());
            assert(all[0] == GdsCall::LookupBuffer);
        }
        t
    }

    /// Starts a transaction whose answers to calls not yet made are `expected`.
    pub(crate) fn start(op: GdsOperation, len: usize, expected: Ghost<Replies>) -> (t: GdsTransaction)
        ensures
            t.wf(),
            t.op == op,
            t.len == len,
            t.calls@ == Seq::<GdsCall>::empty(),
            t.next == Some(GdsCall::LookupBuffer),
            t.replies@ == expected@,
    {
        let mut t = GdsTransaction::new(op, len);
        t.replies = expected;
        proof {
            let all = protocol_calls(len as nat, t.replies@);
            assert(all.take(0) =~= Seq::<GdsCall>::empty());
            assert(all[0] == GdsCall::LookupBuffer);
        }
        t
    }

    /// Hands the runtime's reply to the pending call to the transaction, which
    /// then names the next call, if any.
    pub fn advance(&mut self, reply: Reply)
        requires
            old(self).wf(),
            old(self).next is Some,
            reply_fits(old(self).next->Some_0, reply),
        ensures
            final(self).wf(),
            final(self).op == old(self).op,
            final(self).len == old(self).len,
            final(self).calls@ == old(self).calls@.push(old(self).next->Some_0),
            final(self).replies@ == record(old(self).replies@, old(self).next->Some_0, reply),
    {
        let c = self.next.unwrap();
        let ghost r0 = self.replies@;
        let ghost r1 = record(r0, c, reply);
        let ghost n = self.calls@.len();
        let ghost old_calls = self.calls@;
        let ghost len = self.len as nat;
        proof {
            let all0 = protocol_calls(len, r0);
            let all1 = protocol_calls(len, r1);
            assert(all0[n as int] == c);
            assert forall|i: int| 0 <= i < old_calls.len() implies call_error(#[trigger] old_calls[i], len, r0) == call_error(old_calls[i], len, r1) by {
                assert(old_calls[i] == all0[i]);
            }
            first_error_frame(old_calls, len, r0, r1);
            first_error_push(old_calls, c, len, r1);
            assert(all1.take(n as int + 1) =~= all0.take(n as int).push(c));
            if c == GdsCall::LookupOffset || c == GdsCall::Begin || c == GdsCall::Copy {
                assert(first_error(old_calls, len, r0) is None) by {
                    reveal_with_fuel(first_error, 4);
                }
            }
        }
        match c {
            GdsCall::LookupBuffer => {
                match reply {
                    Reply::Failed(t) => {
                        self.error = Some(PlcnextError::with_kind(ErrorKind::BufferLookup, t));
                        self.next = None;
                    },
                    _ => {
                        self.next = Some(GdsCall::LookupOffset);
                    },
                }
            },
            GdsCall::LookupOffset => {
                match reply {
                    Reply::Located(l) => {
                        self.location = l;
                        self.next = Some(GdsCall::Begin);
                    },
                    Reply::Failed(t) => {
                        self.error = Some(PlcnextError::with_kind(ErrorKind::OffsetLookup, t));
                        self.next = Some(GdsCall::Release);
                    },
                    Reply::Done => {},
                }
            },
            GdsCall::Begin => {
                match reply {
                    Reply::Failed(t) => {
                        self.error = Some(PlcnextError::with_kind(ErrorKind::BufferLock, t));
                        self.next = Some(GdsCall::Release);
                    },
                    _ => {
                        if self.len <= self.location.size {
                            self.next = Some(GdsCall::Copy);
                        } else {
                            self.error = Some(
                                PlcnextError::with_kind(
                                    ErrorKind::PortSizeMismatch,
                                    String::from_str(PORT_SIZE_MISMATCH),
                                ),
                            );
                            self.next = Some(GdsCall::End);
                        }
                    },
                }
            },
            GdsCall::Copy => {
                self.next = Some(GdsCall::End);
            },
            GdsCall::End => {
                if let Reply::Failed(t) = reply {
                    if self.error.is_none() {
                        self.error = Some(PlcnextError::with_kind(ErrorKind::BufferUnlock, t));
                    }
                }
                self.next = Some(GdsCall::Release);
            },
            GdsCall::Release => {
                if let Reply::Failed(t) = reply {
                    if self.error.is_none() {
                        self.error = Some(PlcnextError::with_kind(ErrorKind::BufferRelease, t));
                    }
                }
                self.next = None;
            },
        }
        self.calls = Ghost(old_calls.push(c));
        self.replies = Ghost(r1);
    }

    /// The place of the bytes to copy, when the copy is the pending call: it
    /// lies within the port.
    pub fn window(&self) -> (w: PortLocation)
        requires
            self.wf(),
            self.next == Some(GdsCall::Copy),
        ensures
            self.replies@.location == Ok::<PortLocation, Seq<char>>(self.location),
            w.offset == self.location.offset,
            w.size == self.len,
            self.len <= self.location.size,
    {
        proof {
            let all = protocol_calls(self.len as nat, self.replies@);
            assert(all[self.calls@.len() as int] == GdsCall::Copy);
        }
        PortLocation { offset: self.location.offset, size: self.len }
    }

    /// The outcome of a finished transaction: the first failure, if any.
    pub fn finish(self) -> (r: Result<(), PlcnextError>)
        requires
            self.wf(),
            self.is_finished(),
        ensures
            self.calls@ == protocol_calls(self.len as nat, self.replies@),
            error_view(r.err()) == protocol_result(self.len as nat, self.replies@),
    {
        proof {
            let all = protocol_calls(self.len as nat, self.replies@);
            assert(all.take(all.len() as int) =~= all);
        }
        match self.error {
            Some(e) => Err(e),
            None => Ok(()),
        }
    }
}

/// A transaction makes each call at most once, and at most six calls.
pub proof fn protocol_calls_distinct(len: nat, r: Replies)
    ensures
        protocol_calls(len, r).len() <= 6,
        forall|i: int, j: int|
            0 <= i < protocol_calls(len, r).len() && 0 <= j < protocol_calls(len, r).len()
                && #[trigger] protocol_calls(len, r)[i] == #[trigger] protocol_calls(len, r)[j] ==> i == j,
{
}

/// How often `c` occurs in `calls`.
pub open spec fn occurrences(calls: Seq<GdsCall>, c: GdsCall) -> nat
    decreases calls.len(),
{
    if calls.len() == 0 {
        0
    } else {
        occurrences(calls.drop_last(), c) + if calls.last() == c {
            1nat
        } else {
            0nat
        }
    }
}

/// Whenever the buffer lookup yields a handle, the handle is released exactly
/// once, as the last call; when it yields none, nothing is released.
pub proof fn handle_released_exactly_once(len: nat, r: Replies)
    ensures
        r.buffer is Ok ==> occurrences(protocol_calls(len, r), GdsCall::Release) == 1,
        r.buffer is Ok ==> protocol_calls(len, r).last() == GdsCall::Release,
        r.buffer is Err ==> occurrences(protocol_calls(len, r), GdsCall::Release) == 0,
{
    reveal_with_fuel(occurrences, 7);
}

/// When locking the page fails, the handle is released exactly once, the
/// page is never unlocked, and the lock failure is reported.
pub proof fn lock_failure_releases_without_unlock(len: nat, r: Replies)
    requires
        r.buffer is Ok,
        r.location is Ok,
        r.begin is Err,
    ensures
        protocol_calls(len, r) == seq![
            GdsCall::LookupBuffer,
            GdsCall::LookupOffset,
            GdsCall::Begin,
            GdsCall::Release,
        ],
        occurrences(protocol_calls(len, r), GdsCall::Release) == 1,
        occurrences(protocol_calls(len, r), GdsCall::End) == 0,
        protocol_result(len, r) == Some((ErrorKind::BufferLock, r.begin->Err_0)),
{
    reveal_with_fuel(occurrences, 5);
    reveal_with_fuel(first_error, 5);
}

/// When unlocking fails after a successful lock and copy, the handle is still
/// released exactly once, and the unlock failure is reported whatever the
/// release answers.
pub proof fn unlock_failure_is_reported(len: nat, r: Replies)
    requires
        r.buffer is Ok,
        r.location is Ok,
        r.begin is Ok,
        len <= r.location->Ok_0.size,
        r.end is Err,
    ensures
        protocol_calls(len, r) == seq![
            GdsCall::LookupBuffer,
            GdsCall::LookupOffset,
            GdsCall::Begin,
            GdsCall::Copy,
            GdsCall::End,
            GdsCall::Release,
        ],
        occurrences(protocol_calls(len, r), GdsCall::Release) == 1,
        protocol_result(len, r) == Some((ErrorKind::BufferUnlock, r.end->Err_0)),
{
    reveal_with_fuel(occurrences, 7);
    reveal_with_fuel(first_error, 7);
}

} // verus!
