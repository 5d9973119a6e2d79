use plcnext::diagnostic::decode;
use plcnext::error::ErrorKind;
use plcnext::master::{
    enable_output_request, load_pd_mapping_request, pdi_read_result, AxioResult, MasterState, SimulatedMaster,
};

fn bus() -> SimulatedMaster {
    SimulatedMaster::new(&vec![0x0101, 0x0202, 0x0303])
}

#[test]
fn enable_output_in_ready_is_bus_state_error() {
    let mut m = bus();
    let r = m.enable_output(0x0001);
    assert_eq!(r, AxioResult { error_code: 0x0A02, add_info: 1 });
    assert_eq!(m.state, MasterState::Ready);
    let e = r.into_result().unwrap_err();
    assert_eq!(e.kind(), ErrorKind::BusState);
    assert!(e.message().starts_with("A service was called that is not permitted in the current status"));
    assert_eq!(e.to_error().details, decode(0x0A02, 1));
    let d = r.into_decoded().unwrap_err();
    assert_eq!(d.kind, ErrorKind::BusState);
    assert_eq!(d.details, decode(0x0A02, 1));
    assert!(AxioResult { error_code: 0, add_info: 5 }.into_decoded().is_ok());
}

#[test]
fn create_load_enable_runs_the_bus() {
    let mut m = bus();
    assert_eq!(m.create_configuration(1).error_code, 0);
    assert_eq!(m.state, MasterState::Active);
    assert_eq!(m.load_pd_mapping(1, 2, 3).error_code, 0);
    assert_eq!(m.load_pd_mapping(4, 5, 6).error_code, 0);
    assert_eq!(m.mapping, Some((4, 5, 6)));
    assert_eq!(m.enable_output(1).error_code, 0);
    assert_eq!(m.state, MasterState::Run);
    assert_eq!(m.read_configuration(1).unwrap(), vec![0x0101, 0x0202, 0x0303]);
    assert_eq!(m.reset_master().error_code, 0);
    assert_eq!(m.state, MasterState::Ready);
    assert_eq!(m.active, None);
}

#[test]
fn write_then_activate_and_deactivate() {
    let mut m = bus();
    assert_eq!(m.write_configuration(2, &vec![0x0101, 0x0202, 0x0303]).error_code, 0);
    assert_eq!(m.state, MasterState::Ready);
    assert_eq!(m.activate_configuration(2).error_code, 0);
    assert_eq!(m.state, MasterState::Active);
    assert_eq!(m.deactivate_configuration(3), AxioResult { error_code: 0x0A1A, add_info: 3 });
    assert_eq!(m.deactivate_configuration(2).error_code, 0);
    assert_eq!(m.state, MasterState::Ready);
}

#[test]
fn activation_reports_topology_mismatch() {
    let mut m = bus();
    m.write_configuration(3, &vec![0x0101, 0x0999, 0x0303]);
    assert_eq!(m.activate_configuration(3), AxioResult { error_code: 0x0C15, add_info: 2 });
    m.write_configuration(4, &vec![0x0101, 0x0202, 0x0303, 0x0404]);
    assert_eq!(m.activate_configuration(4), AxioResult { error_code: 0x0C01, add_info: 4 });
    m.write_configuration(5, &vec![0x0101]);
    let r = m.activate_configuration(5);
    assert_eq!(r, AxioResult { error_code: 0x0C02, add_info: 2 });
    assert_eq!(r.into_result().unwrap_err().kind(), ErrorKind::ConfigurationMismatch);
    assert_eq!(m.state, MasterState::Ready);
}

#[test]
fn frame_references_are_checked() {
    let mut m = bus();
    assert_eq!(m.create_configuration(0), AxioResult { error_code: 0x0A51, add_info: 0 });
    assert_eq!(m.create_configuration(255), AxioResult { error_code: 0x0A51, add_info: 255 });
    assert_eq!(m.activate_configuration(7), AxioResult { error_code: 0x0A1A, add_info: 7 });
    assert_eq!(m.read_configuration(7), Err(AxioResult { error_code: 0x0A1A, add_info: 7 }));
    assert_eq!(m.write_configuration(7, &vec![1u16; 64]), AxioResult { error_code: 0x0A1C, add_info: 64 });
}

#[test]
fn frame_numbers_are_overwritten() {
    let mut m = bus();
    m.write_configuration(9, &vec![1, 2]);
    m.write_configuration(9, &vec![3]);
    assert_eq!(m.read_configuration(9).unwrap(), vec![3]);
    assert_eq!(m.create_configuration(9).error_code, 0);
    assert_eq!(m.read_configuration(9).unwrap(), vec![0x0101, 0x0202, 0x0303]);
}

#[test]
fn services_refused_outside_their_state() {
    let mut m = bus();
    assert_eq!(m.load_pd_mapping(1, 1, 1), AxioResult { error_code: 0x0A02, add_info: 1 });
    assert_eq!(m.deactivate_configuration(1), AxioResult { error_code: 0x0A02, add_info: 1 });
    m.create_configuration(1);
    assert_eq!(m.create_configuration(2), AxioResult { error_code: 0x0A02, add_info: 2 });
    assert_eq!(m.write_configuration(2, &vec![]), AxioResult { error_code: 0x0A02, add_info: 2 });
    m.enable_output(1);
    assert_eq!(m.enable_output(1), AxioResult { error_code: 0x0A02, add_info: 3 });
}

#[test]
fn raw_control_requests() {
    assert_eq!(load_pd_mapping_request(1, 2, 3), vec![0x0728, 0x0004, 1, 2, 3, 0x0000]);
    assert_eq!(enable_output_request(5), vec![0x0701, 0x0001, 5]);
    let mut m = bus();
    assert_eq!(m.axio_control(&vec![0x0701]), AxioResult { error_code: 0x090A, add_info: 0 });
    assert_eq!(m.axio_control(&vec![0x0701, 2, 1]), AxioResult { error_code: 0x090A, add_info: 2 });
    assert_eq!(m.axio_control(&vec![0x0701, 2, 1, 1]), AxioResult { error_code: 0x090A, add_info: 2 });
    assert_eq!(m.axio_control(&vec![0x0123, 0]), AxioResult { error_code: 0x0918, add_info: 0x0123 });
}

#[test]
fn pdi_read_outcome() {
    assert_eq!(pdi_read_result(vec![1, 2], 0, 0).unwrap(), vec![1, 2]);
    let e = pdi_read_result(vec![1, 2], 0x0F21, 9).unwrap_err();
    assert_eq!((e.error_code, e.add_info), (0x0F21, 9));
}
