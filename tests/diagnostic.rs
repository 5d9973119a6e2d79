use plcnext::diagnostic::{check_result, decode, detail, format_hex2, format_hex4, AxiolineError, NO_INFORMATION};
use plcnext::error::ErrorKind;
use plcnext::fault_table::{error_text, info_text, remedy_text};

#[test]
fn parallel_service_conflict_message() {
    assert_eq!(
        decode(0x0908, 0x0005),
        "Maximum number of permitted parallel services exceeded (Processing conflict). \
         Code of failed service: 0x0005 \
         Wait for the service called previously to be completed, and then try again."
    );
}

#[test]
fn unknown_code_has_no_information() {
    assert_eq!(decode(0x1234, 0), "No information on the cause of the error.");
    assert_eq!(decode(0x0000, 0), NO_INFORMATION);
    assert_eq!(decode(0xFFFF, 0), NO_INFORMATION);
}

#[test]
fn every_documented_code_begins_with_its_description() {
    let mut documented = 0;
    for code in 0..=0xFFFFu32 {
        let code = code as u16;
        if let Some(text) = error_text(code) {
            documented += 1;
            for info in [0x0000u16, 0x0005, 0x0030, 0x0530, 0x0011, 0xFFFF] {
                let m = decode(code, info);
                assert!(m.starts_with(text), "{:04X}/{:04X}: {}", code, info, m);
            }
        }
    }
    assert_eq!(documented, 113);
}

#[test]
fn generic_additional_information_is_used_by_default() {
    assert_eq!(
        decode(0x0A01, 0x0011),
        "A hardware or firmware error occurred. Subindex not available. \
         Restart the device. If the problem still occurs, please contact Phoenix Contact."
    );
}

#[test]
fn code_without_remedy_or_detail() {
    assert_eq!(decode(0x0605, 0x0000), "Inconsistent object attribute.");
    assert_eq!(decode(0x1234, 0x0011), "Subindex not available.");
}

#[test]
fn parameterization_error_splits_additional_information() {
    assert_eq!(
        decode(0x0800, 0x0530),
        "A reserved bit or reserved code was used during parameterization. \
         Number of the affected elements: 0x05 Check the parameterization."
    );
    assert_eq!(
        decode(0x0800, 0x0010),
        "A reserved bit or reserved code was used during parameterization. \
         Service parameter with invalid value. Check the parameterization."
    );
    assert_eq!(
        decode(0x0800, 0x1234),
        "A reserved bit or reserved code was used during parameterization. Check the parameterization."
    );
}

#[test]
fn device_number_detail() {
    assert_eq!(
        decode(0x0C14, 0x000A),
        "The module type does not correspond to the configured value. Device number: 0x000A \
         Check the configuration. Adapt the configuration frame if the modification was done on purpose."
    );
}

#[test]
fn bus_state_fault_message() {
    let m = decode(0x0A02, 0x0001);
    assert_eq!(
        m,
        "A service was called that is not permitted in the current status of the local bus master. \
         Current status of the local bus master: 0x0001 Set the local bus master to the required state."
    );
}

#[test]
fn internal_error_codes() {
    for code in [0x0F0Du16, 0x0F31, 0x0F32, 0x0F33] {
        assert_eq!(error_text(code), Some("Internal error."));
    }
    assert_eq!(error_text(0x0F3F), None);
    assert_eq!(
        remedy_text(0x0F31),
        Some("Restart the device. If the problem still occurs, please contact Phoenix Contact.")
    );
}

#[test]
fn table_lookups() {
    assert_eq!(error_text(0x0201), Some("Unable to access the object. Possible causes: (a) Module not present, (b) Incorrect module number."));
    assert_eq!(remedy_text(0x0201), Some("Check the call."));
    assert_eq!(remedy_text(0x0605), None);
    assert_eq!(info_text(0x00B3), Some("The password cannot be assigned for the desired type of access."));
    assert_eq!(info_text(0x0000), None);
}

#[test]
fn hex_formatting() {
    assert_eq!(format_hex4(0xBEEF), "BEEF");
    assert_eq!(format_hex4(0x00A0), "00A0");
    assert_eq!(format_hex4(0), "0000");
    assert_eq!(format_hex2(0x3C), "3C");
    assert_eq!(format_hex2(7), "07");
}

#[test]
fn detail_text() {
    assert_eq!(detail(0x0A81, 0x1F00).as_deref(), Some("Object index: 0x1F00"));
    assert_eq!(detail(0x0A01, 0x0000), None);
}

#[test]
fn error_kinds_and_results() {
    assert_eq!(AxiolineError::new(0x0A02, 1).kind(), ErrorKind::BusState);
    assert_eq!(AxiolineError::new(0x0C11, 1).kind(), ErrorKind::ConfigurationMismatch);
    assert_eq!(AxiolineError::new(0x0F12, 0).kind(), ErrorKind::Timeout);
    assert_eq!(AxiolineError::new(0x0905, 0).kind(), ErrorKind::Other);
    assert!(check_result(0, 7).is_ok());
    assert_eq!(check_result(0x0A1A, 3), Err(AxiolineError::new(0x0A1A, 3)));
    let e = AxiolineError::new(0x0908, 5).to_error();
    assert_eq!(e.kind, ErrorKind::Other);
    assert_eq!(e.details, decode(0x0908, 5));
    assert_eq!(AxiolineError::new(0x0908, 5).message(), decode(0x0908, 5));
}
