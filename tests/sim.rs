use plcnext::error::ErrorKind;
use plcnext::gds::GdsCall;
use plcnext::sim::{SimulatedGds, INJECTED_FAILURE, UNKNOWN_PORT};

fn space() -> SimulatedGds {
    let mut g = SimulatedGds::new();
    let page = g.add_page(16);
    assert!(g.add_port("Arp.Io.AxlC", "0.DO8", page, 2, 4));
    assert!(g.add_port("Arp.Io.AxlC", "1.DI16", page, 8, 2));
    g
}

#[test]
fn write_then_read_round_trip() {
    let mut g = space();
    let value = vec![0xDE, 0xAD, 0xBE, 0xEF];
    assert!(g.write_output_data("Arp.Io.AxlC", "0.DO8", &value).is_ok());
    let mut read = vec![0u8; 4];
    assert!(g.read_input_data("Arp.Io.AxlC", "0.DO8", &mut read).is_ok());
    assert_eq!(read, value);
    let mut other = vec![0xFFu8; 2];
    assert!(g.read_input_data("Arp.Io.AxlC", "1.DI16", &mut other).is_ok());
    assert_eq!(other, vec![0, 0]);
    assert_eq!(g.pages[0], vec![0, 0, 0xDE, 0xAD, 0xBE, 0xEF, 0, 0, 0, 0, 0, 0, 0, 0, 0, 0]);
}

#[test]
fn shorter_read_returns_leading_bytes() {
    let mut g = space();
    assert!(g.write_output_data("Arp.Io.AxlC", "0.DO8", &vec![1, 2, 3, 4]).is_ok());
    let mut read = vec![0u8; 2];
    assert!(g.read_input_data("Arp.Io.AxlC", "0.DO8", &mut read).is_ok());
    assert_eq!(read, vec![1, 2]);
}

#[test]
fn failed_begin_read_releases_once_and_never_ends() {
    let mut g = space();
    g.set_failing(vec![GdsCall::Begin]);
    let mut read = vec![7u8; 4];
    let e = g.read_input_data("Arp.Io.AxlC", "0.DO8", &mut read).unwrap_err();
    assert_eq!(e.kind, ErrorKind::BufferLock);
    assert_eq!(e.details, INJECTED_FAILURE);
    assert_eq!(g.log, vec![GdsCall::LookupBuffer, GdsCall::LookupOffset, GdsCall::Begin, GdsCall::Release]);
    assert_eq!(g.log.iter().filter(|c| **c == GdsCall::Release).count(), 1);
    assert!(!g.log.contains(&GdsCall::End));
    assert_eq!(read, vec![7u8; 4]);
}

#[test]
fn failed_end_write_releases_once_and_reports_unlock() {
    let mut g = space();
    g.set_failing(vec![GdsCall::End]);
    let e = g.write_output_data("Arp.Io.AxlC", "0.DO8", &vec![9, 9, 9, 9]).unwrap_err();
    assert_eq!(e.kind, ErrorKind::BufferUnlock);
    assert_eq!(
        g.log,
        vec![GdsCall::LookupBuffer, GdsCall::LookupOffset, GdsCall::Begin, GdsCall::Copy, GdsCall::End, GdsCall::Release]
    );
    assert_eq!(g.log.iter().filter(|c| **c == GdsCall::Release).count(), 1);
    assert_eq!(&g.pages[0][2..6], &[9, 9, 9, 9]);
}

#[test]
fn unknown_port_fails_lookup() {
    let mut g = space();
    let mut read = vec![0u8; 1];
    let e = g.read_input_data("Arp.Io.AxlC", "9.XX", &mut read).unwrap_err();
    assert_eq!(e.kind, ErrorKind::BufferLookup);
    assert_eq!(e.details, UNKNOWN_PORT);
    assert_eq!(g.log, vec![GdsCall::LookupBuffer]);
}

#[test]
fn oversized_write_is_refused_and_page_kept() {
    let mut g = space();
    let e = g.write_output_data("Arp.Io.AxlC", "1.DI16", &vec![1, 2, 3]).unwrap_err();
    assert_eq!(e.kind, ErrorKind::PortSizeMismatch);
    assert_eq!(g.pages[0], vec![0u8; 16]);
    assert!(!g.log.contains(&GdsCall::Copy));
}

#[test]
fn port_outside_page_is_refused() {
    let mut g = SimulatedGds::new();
    let page = g.add_page(4);
    assert!(!g.add_port("io", "p", page, 2, 3));
    assert!(!g.add_port("io", "p", 1, 0, 1));
    assert!(g.add_port("io", "p", page, 1, 3));
    assert_eq!(g.ports.len(), 1);
}

#[test]
fn failed_end_write_is_reported_over_failed_release() {
    let mut g = space();
    g.set_failing(vec![GdsCall::End, GdsCall::Release]);
    let e = g.write_output_data("Arp.Io.AxlC", "0.DO8", &vec![5, 6, 7, 8]).unwrap_err();
    assert_eq!(e.kind, ErrorKind::BufferUnlock);
    assert_eq!(e.details, INJECTED_FAILURE);
    assert_eq!(g.log.iter().filter(|c| **c == GdsCall::Release).count(), 1);
    assert_eq!(*g.log.last().unwrap(), GdsCall::Release);
}

#[test]
fn failed_release_alone_is_reported_by_the_space() {
    let mut g = space();
    g.set_failing(vec![GdsCall::Release]);
    let mut read = vec![0u8; 4];
    let e = g.read_input_data("Arp.Io.AxlC", "0.DO8", &mut read).unwrap_err();
    assert_eq!(e.kind, ErrorKind::BufferRelease);
    g.set_failing(vec![]);
    assert!(g.read_input_data("Arp.Io.AxlC", "0.DO8", &mut read).is_ok());
}
