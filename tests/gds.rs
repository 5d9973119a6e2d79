use plcnext::error::ErrorKind;
use plcnext::gds::{GdsCall, GdsOperation, GdsTransaction, PortLocation, Reply, PORT_SIZE_MISMATCH};

fn run(op: GdsOperation, len: usize, mut answer: impl FnMut(GdsCall) -> Reply) -> (Vec<GdsCall>, Result<(), plcnext::error::PlcnextError>) {
    let mut tx = GdsTransaction::new(op, len);
    let mut calls = Vec::new();
    while let Some(c) = tx.next {
        calls.push(c);
        tx.advance(answer(c));
    }
    (calls, tx.finish())
}

fn located(c: GdsCall) -> Reply {
    match c {
        GdsCall::LookupOffset => Reply::Located(PortLocation { offset: 4, size: 8 }),
        _ => Reply::Done,
    }
}

#[test]
fn successful_transaction_makes_every_call_once() {
    let (calls, r) = run(GdsOperation::Read, 8, located);
    assert!(r.is_ok());
    assert_eq!(
        calls,
        vec![GdsCall::LookupBuffer, GdsCall::LookupOffset, GdsCall::Begin, GdsCall::Copy, GdsCall::End, GdsCall::Release]
    );
}

#[test]
fn failed_buffer_lookup_releases_nothing() {
    let (calls, r) = run(GdsOperation::Write, 2, |_| Reply::Failed(String::from("no buffer")));
    assert_eq!(calls, vec![GdsCall::LookupBuffer]);
    let e = r.unwrap_err();
    assert_eq!(e.kind, ErrorKind::BufferLookup);
    assert_eq!(e.details, "no buffer");
}

#[test]
fn failed_offset_lookup_still_releases() {
    let (calls, r) = run(GdsOperation::Read, 2, |c| match c {
        GdsCall::LookupOffset => Reply::Failed(String::from("no offset")),
        GdsCall::Release => Reply::Failed(String::from("release failed")),
        _ => Reply::Done,
    });
    assert_eq!(calls, vec![GdsCall::LookupBuffer, GdsCall::LookupOffset, GdsCall::Release]);
    let e = r.unwrap_err();
    assert_eq!(e.kind, ErrorKind::OffsetLookup);
    assert_eq!(e.details, "no offset");
}

#[test]
fn failed_lock_releases_once_without_unlock() {
    let (calls, r) = run(GdsOperation::Read, 8, |c| match c {
        GdsCall::Begin => Reply::Failed(String::from("locked elsewhere")),
        other => located(other),
    });
    assert_eq!(calls, vec![GdsCall::LookupBuffer, GdsCall::LookupOffset, GdsCall::Begin, GdsCall::Release]);
    assert_eq!(calls.iter().filter(|c| **c == GdsCall::Release).count(), 1);
    assert!(!calls.contains(&GdsCall::End));
    assert_eq!(r.unwrap_err().kind, ErrorKind::BufferLock);
}

#[test]
fn failed_unlock_is_reported_over_failed_release() {
    let (calls, r) = run(GdsOperation::Write, 8, |c| match c {
        GdsCall::End => Reply::Failed(String::from("unlock failed")),
        GdsCall::Release => Reply::Failed(String::from("release failed")),
        other => located(other),
    });
    assert_eq!(calls.iter().filter(|c| **c == GdsCall::Release).count(), 1);
    assert_eq!(*calls.last().unwrap(), GdsCall::Release);
    let e = r.unwrap_err();
    assert_eq!(e.kind, ErrorKind::BufferUnlock);
    assert_eq!(e.details, "unlock failed");
}

#[test]
fn failed_release_alone_is_reported() {
    let (_, r) = run(GdsOperation::Read, 8, |c| match c {
        GdsCall::Release => Reply::Failed(String::from("release failed")),
        other => located(other),
    });
    let e = r.unwrap_err();
    assert_eq!(e.kind, ErrorKind::BufferRelease);
    assert_eq!(e.details, "release failed");
}

#[test]
fn oversized_request_skips_copy_but_unlocks_and_releases() {
    let (calls, r) = run(GdsOperation::Write, 9, |c| match c {
        GdsCall::End => Reply::Failed(String::from("unlock failed")),
        other => located(other),
    });
    assert_eq!(calls, vec![GdsCall::LookupBuffer, GdsCall::LookupOffset, GdsCall::Begin, GdsCall::End, GdsCall::Release]);
    let e = r.unwrap_err();
    assert_eq!(e.kind, ErrorKind::PortSizeMismatch);
    assert_eq!(e.details, PORT_SIZE_MISMATCH);
}

#[test]
fn copy_window_lies_in_the_port() {
    let mut tx = GdsTransaction::new(GdsOperation::Read, 3);
    tx.advance(Reply::Done);
    tx.advance(Reply::Located(PortLocation { offset: 10, size: 4 }));
    tx.advance(Reply::Done);
    assert_eq!(tx.next, Some(GdsCall::Copy));
    assert_eq!(tx.window(), PortLocation { offset: 10, size: 3 });
}
