//! The published Axioline fault tables: error descriptions, remedies and the
//! generic meanings of additional-information values.

use vstd::prelude::*;

verus! {

/// The view of an optional string.
pub open spec fn text_view(o: Option<&str>) -> Option<Seq<char>> {
    match o {
        Some(s) => Some(s@),
        None => None,
    }
}

/// The description of each documented error code.
pub open spec fn error_text_of(code: u16) -> Option<Seq<char>> {
    match code {
        0x0200 => Some("Error in the communication relationship."@),
        0x0201 => Some("Unable to access the object. Possible causes: (a) Module not present, (b) Incorrect module number."@),
        0x0500 => Some("Faulty service."@),
        0x0501 => Some("The current object state prevents the service from being executed."@),
        0x0502 => Some("Problem with the PDU size and/or permissible length exceeded. Object cannot be read completely."@),
        0x0503 => Some("The service cannot be executed at present."@),
        0x0504 => Some("The service contains inconsistent parameters."@),
        0x0505 => Some("A parameter has an invalid value."@),
        0x0600 => Some("Faulty access."@),
        0x0601 => Some("Invalid object."@),
        0x0602 => Some("Hardware fault."@),
        0x0603 => Some("Access to object denied."@),
        0x0604 => Some("Access to an invalid address."@),
        0x0605 => Some("Inconsistent object attribute."@),
        0x0606 => Some("The service used cannot be applied to this object."@),
        0x0607 => Some("Object does not exist."@),
        0x0608 => Some("Type conflict."@),
        0x060A => Some("Data not ready at present."@),
        0x0800 => Some("A reserved bit or reserved code was used during parameterization."@),
        0x0801 => Some("Error reading or writing the object."@),
        0x0903 => Some("Memory problem (e.g., buffer too small)."@),
        0x0904 => Some("Inconsistent parameters."@),
        0x0905 => Some("Invalid parameters."@),
        0x0908 => Some("Maximum number of permitted parallel services exceeded (Processing conflict)."@),
        0x090A => Some("The number of parameters is inconsistent with the service. The Parameter_Count parameter does not agree with the number of subsequent words."@),
        0x0913 => Some("The service called is not supported."@),
        0x0917 => Some("Service decoding failed."@),
        0x0918 => Some("Call of an unknown service code."@),
        0x0928 => Some("An exclusive service was to be executed without the appropriate rights."@),
        0x0932 => Some("Attempt to pass on the exclusive rights without having these rights."@),
        0x0933 => Some("Another node has currently the exclusive rights."@),
        0x0934 => Some("The node already has the exclusive rights."@),
        0x0937 => Some("Unknown Variable_ID component."@),
        0x0938 => Some("An internal Variable_ID was used."@),
        0x0939 => Some("The Variable_ID is not enabled. (Password protection)."@),
        0x093A => Some("Length specification in the Variable_ID is 0 or incorrect."@),
        0x093B => Some("The number of variables has been calculated incorrectly."@),
        0x0A01 => Some("A hardware or firmware error occurred."@),
        0x0A02 => Some("A service was called that is not permitted in the current status of the local bus master."@),
        0x0A03 => Some("Memory problem (e.g., buffer too small)."@),
        0x0A04 => Some("Inconsistent parameters."@),
        0x0A05 => Some("Invalid parameters."@),
        0x0A06 => Some("Access not supported."@),
        0x0A07 => Some("Object does not exist."@),
        0x0A08 => Some("Maximum number of permitted parallel SM services exceeded. (Processing conflict)."@),
        0x0A0C => Some("Call of Set_Value or Read_Value with a Variable_ID that contains an unknown code."@),
        0x0A0D => Some("A firmware error occurred."@),
        0x0A18 => Some("A reserved bit is set in Used_Attributes."@),
        0x0A19 => Some("The end of the frame was exceeded when accessing the configuration or line 0 was accessed."@),
        0x0A1A => Some("The frame reference specified for the service does not exist."@),
        0x0A1C => Some("Maximum number of devices exceeded."@),
        0x0A2F => Some("Number of devices is zero."@),
        0x0A51 => Some("A frame reference from 1 to 254 is permitted only."@),
        0x0A54 => Some("The maximum number of I/O points was exceeded."@),
        0x0A60 => Some("No configuration frames could be assigned."@),
        0x0A70 => Some("A reserved bit has been set in the Diag_Info attribute."@),
        0x0A73 => Some("Device present with a chip version in the local bus that is not supported."@),
        0x0A74 => Some("Device of a manufacturer that is not supported present in the local bus."@),
        0x0A75 => Some("Device is indicating a serious error (e. g., faulty EEPROM)."@),
        0x0A76 => Some("The topology used by the device is not supported by the master."@),
        0x0A77 => Some("Error at the interface."@),
        0x0A7A => Some("Invalid Dev_Type specified during loading."@),
        0x0A7B => Some("Invalid Dev_ID specified during loading."@),
        0x0A7C => Some("Invalid Dev_Length specified during loading."@),
        0x0A81 => Some("Service (e.g, Create_Configuration) could not be executed due to PDI communication malfunctions (timeout)."@),
        0x0A82 => Some("Service (e.g, Create_Configuration) could not be executed due to PDI communication malfunctions (number)."@),
        0x0A83 => Some("Service (e.g, Create_Configuration) could not be executed due to PDI communication malfunctions (error)."@),
        0x0A90 => Some("Device was selected for synchronization, however it does not support this."@),
        0x0A91 => Some("Device was selected for synchronization, however it does not support the specified cycle time."@),
        0x0A92 => Some("Device was selected for synchronization, but does not support the specified value for Input_Delay."@),
        0x0A93 => Some("Device was selected for synchronization, but does not support the specified value for Output_Delay."@),
        0x0A94 => Some("Device was selected for synchronization, but does not support the specified values for Input_Delay and Output_Delay."@),
        0x0AFF => Some("Call of Reset_Driver during PDI communication."@),
        0x0B01 => Some("A hardware or firmware error occurred."@),
        0x0B02 => Some("A hardware or firmware error occurred."@),
        0x0B03 => Some("A hardware or firmware error occurred."@),
        0x0B04 => Some("A hardware or firmware error occurred."@),
        0x0B05 => Some("Invalid parameters."@),
        0x0B06 => Some("Access not supported. (E.g., write protection)."@),
        0x0B07 => Some("Object does not exist."@),
        0x0B0C => Some("A hardware or firmware error occurred."@),
        0x0BC1 => Some("Supply voltage not available for the local bus. Too many devices connected or the higher-level power supply unit is too weak."@),
        0x0BD1 => Some("The bus could not be activated due to bus malfunctions."@),
        0x0BDE => Some("Synchronization failed. Trigger signal does not correspond to the specification."@),
        0x0BF1 => Some("The bus could not be activated due to bus malfunctions."@),
        0x0BF2 => Some("The bus could not be activated due to bus malfunctions."@),
        0x0BF3 => Some("The bus could not be activated due to bus malfunctions."@),
        0x0C01 => Some("The configured module is not accessible. A device present in the configuration frame has been removed from the physical bus structure after the configuration frame has been connected."@),
        0x0C02 => Some("A module has been detected that was not configured. An additional device was added at the end of the physical bus structure after the configuration frame was connected."@),
        0x0C11 => Some("The module is not located in the configured slot. An active device was inserted at the different location of the physical bus structure after the configuration frame was connected."@),
        0x0C12 => Some("The module is accessible but was not put into operation due to missing parameters. An active device was replaced by an unknown device in the physical bus structure after the configuration frame was connected (wrong instance ID)."@),
        0x0C13 => Some("The process data length does not correspond to the configured value. The process data width of an active device was changed after the configuration frame was connected."@),
        0x0C14 => Some("The module type does not correspond to the configured value."@),
        0x0C15 => Some("The module ID does not correspond to the configured value."@),
        0x0F01 => Some("Hardware or firmware error."@),
        0x0F02 => Some("Hardware or firmware error."@),
        0x0F03 => Some("Hardware or firmware error."@),
        0x0F04 => Some("Inconsistent parameters."@),
        0x0F05 => Some("Invalid parameters."@),
        0x0F06 => Some("Access not supported."@),
        0x0F08 => Some("Maximum number of permitted parallel PDI services exceeded."@),
        0x0F0C => Some("Incorrect variable ID for Set_Value or Read_Value."@),
        0x0F0D => Some("Internal error."@),
        0x0F11 => Some("Device not accessible (bus error)."@),
        0x0F12 => Some("Device cannot be reached (timeout)."@),
        0x0F13 => Some("Device not accessible because it was removed."@),
        0x0F21 => Some("Invalid slot number (Value is 0 or larger than the maximum number of devices)."@),
        0x0F22 => Some("Slot is not active."@),
        0x0F23 => Some("Invalid data length."@),
        0x0F24 => Some("Invalid number of parameters."@),
        0x0F31 => Some("Internal error."@),
        0x0F32 => Some("Internal error."@),
        0x0F33 => Some("Internal error."@),
        _ => None,
    }
}

/// The description of `code`, where one is documented.
pub fn error_text(code: u16) -> (r: Option<&'static str>)
    ensures
        text_view(r) == error_text_of(code),
{
    match code {
        0x0200 => Some("Error in the communication relationship."),
        0x0201 => Some("Unable to access the object. Possible causes: (a) Module not present, (b) Incorrect module number."),
        0x0500 => Some("Faulty service."),
        0x0501 => Some("The current object state prevents the service from being executed."),
        0x0502 => Some("Problem with the PDU size and/or permissible length exceeded. Object cannot be read completely."),
        0x0503 => Some("The service cannot be executed at present."),
        0x0504 => Some("The service contains inconsistent parameters."),
        0x0505 => Some("A parameter has an invalid value."),
        0x0600 => Some("Faulty access."),
        0x0601 => Some("Invalid object."),
        0x0602 => Some("Hardware fault."),
        0x0603 => Some("Access to object denied."),
        0x0604 => Some("Access to an invalid address."),
        0x0605 => Some("Inconsistent object attribute."),
        0x0606 => Some("The service used cannot be applied to this object."),
        0x0607 => Some("Object does not exist."),
        0x0608 => Some("Type conflict."),
        0x060A => Some("Data not ready at present."),
        0x0800 => Some("A reserved bit or reserved code was used during parameterization."),
        0x0801 => Some("Error reading or writing the object."),
        0x0903 => Some("Memory problem (e.g., buffer too small)."),
        0x0904 => Some("Inconsistent parameters."),
        0x0905 => Some("Invalid parameters."),
        0x0908 => Some("Maximum number of permitted parallel services exceeded (Processing conflict)."),
        0x090A => Some("The number of parameters is inconsistent with the service. The Parameter_Count parameter does not agree with the number of subsequent words."),
        0x0913 => Some("The service called is not supported."),
        0x0917 => Some("Service decoding failed."),
        0x0918 => Some("Call of an unknown service code."),
        0x0928 => Some("An exclusive service was to be executed without the appropriate rights."),
        0x0932 => Some("Attempt to pass on the exclusive rights without having these rights."),
        0x0933 => Some("Another node has currently the exclusive rights."),
        0x0934 => Some("The node already has the exclusive rights."),
        0x0937 => Some("Unknown Variable_ID component."),
        0x0938 => Some("An internal Variable_ID was used."),
        0x0939 => Some("The Variable_ID is not enabled. (Password protection)."),
        0x093A => Some("Length specification in the Variable_ID is 0 or incorrect."),
        0x093B => Some("The number of variables has been calculated incorrectly."),
        0x0A01 => Some("A hardware or firmware error occurred."),
        0x0A02 => Some("A service was called that is not permitted in the current status of the local bus master."),
        0x0A03 => Some("Memory problem (e.g., buffer too small)."),
        0x0A04 => Some("Inconsistent parameters."),
        0x0A05 => Some("Invalid parameters."),
        0x0A06 => Some("Access not supported."),
        0x0A07 => Some("Object does not exist."),
        0x0A08 => Some("Maximum number of permitted parallel SM services exceeded. (Processing conflict)."),
        0x0A0C => Some("Call of Set_Value or Read_Value with a Variable_ID that contains an unknown code."),
        0x0A0D => Some("A firmware error occurred."),
        0x0A18 => Some("A reserved bit is set in Used_Attributes."),
        0x0A19 => Some("The end of the frame was exceeded when accessing the configuration or line 0 was accessed."),
        0x0A1A => Some("The frame reference specified for the service does not exist."),
        0x0A1C => Some("Maximum number of devices exceeded."),
        0x0A2F => Some("Number of devices is zero."),
        0x0A51 => Some("A frame reference from 1 to 254 is permitted only."),
        0x0A54 => Some("The maximum number of I/O points was exceeded."),
        0x0A60 => Some("No configuration frames could be assigned."),
        0x0A70 => Some("A reserved bit has been set in the Diag_Info attribute."),
        0x0A73 => Some("Device present with a chip version in the local bus that is not supported."),
        0x0A74 => Some("Device of a manufacturer that is not supported present in the local bus."),
        0x0A75 => Some("Device is indicating a serious error (e. g., faulty EEPROM)."),
        0x0A76 => Some("The topology used by the device is not supported by the master."),
        0x0A77 => Some("Error at the interface."),
        0x0A7A => Some("Invalid Dev_Type specified during loading."),
        0x0A7B => Some("Invalid Dev_ID specified during loading."),
        0x0A7C => Some("Invalid Dev_Length specified during loading."),
        0x0A81 => Some("Service (e.g, Create_Configuration) could not be executed due to PDI communication malfunctions (timeout)."),
        0x0A82 => Some("Service (e.g, Create_Configuration) could not be executed due to PDI communication malfunctions (number)."),
        0x0A83 => Some("Service (e.g, Create_Configuration) could not be executed due to PDI communication malfunctions (error)."),
        0x0A90 => Some("Device was selected for synchronization, however it does not support this."),
        0x0A91 => Some("Device was selected for synchronization, however it does not support the specified cycle time."),
        0x0A92 => Some("Device was selected for synchronization, but does not support the specified value for Input_Delay."),
        0x0A93 => Some("Device was selected for synchronization, but does not support the specified value for Output_Delay."),
        0x0A94 => Some("Device was selected for synchronization, but does not support the specified values for Input_Delay and Output_Delay."),
        0x0AFF => Some("Call of Reset_Driver during PDI communication."),
        0x0B01 => Some("A hardware or firmware error occurred."),
        0x0B02 => Some("A hardware or firmware error occurred."),
        0x0B03 => Some("A hardware or firmware error occurred."),
        0x0B04 => Some("A hardware or firmware error occurred."),
        0x0B05 => Some("Invalid parameters."),
        0x0B06 => Some("Access not supported. (E.g., write protection)."),
        0x0B07 => Some("Object does not exist."),
        0x0B0C => Some("A hardware or firmware error occurred."),
        0x0BC1 => Some("Supply voltage not available for the local bus. Too many devices connected or the higher-level power supply unit is too weak."),
        0x0BD1 => Some("The bus could not be activated due to bus malfunctions."),
        0x0BDE => Some("Synchronization failed. Trigger signal does not correspond to the specification."),
        0x0BF1 => Some("The bus could not be activated due to bus malfunctions."),
        0x0BF2 => Some("The bus could not be activated due to bus malfunctions."),
        0x0BF3 => Some("The bus could not be activated due to bus malfunctions."),
        0x0C01 => Some("The configured module is not accessible. A device present in the configuration frame has been removed from the physical bus structure after the configuration frame has been connected."),
        0x0C02 => Some("A module has been detected that was not configured. An additional device was added at the end of the physical bus structure after the configuration frame was connected."),
        0x0C11 => Some("The module is not located in the configured slot. An active device was inserted at the different location of the physical bus structure after the configuration frame was connected."),
        0x0C12 => Some("The module is accessible but was not put into operation due to missing parameters. An active device was replaced by an unknown device in the physical bus structure after the configuration frame was connected (wrong instance ID)."),
        0x0C13 => Some("The process data length does not correspond to the configured value. The process data width of an active device was changed after the configuration frame was connected."),
        0x0C14 => Some("The module type does not correspond to the configured value."),
        0x0C15 => Some("The module ID does not correspond to the configured value."),
        0x0F01 => Some("Hardware or firmware error."),
        0x0F02 => Some("Hardware or firmware error."),
        0x0F03 => Some("Hardware or firmware error."),
        0x0F04 => Some("Inconsistent parameters."),
        0x0F05 => Some("Invalid parameters."),
        0x0F06 => Some("Access not supported."),
        0x0F08 => Some("Maximum number of permitted parallel PDI services exceeded."),
        0x0F0C => Some("Incorrect variable ID for Set_Value or Read_Value."),
        0x0F0D => Some("Internal error."),
        0x0F11 => Some("Device not accessible (bus error)."),
        0x0F12 => Some("Device cannot be reached (timeout)."),
        0x0F13 => Some("Device not accessible because it was removed."),
        0x0F21 => Some("Invalid slot number (Value is 0 or larger than the maximum number of devices)."),
        0x0F22 => Some("Slot is not active."),
        0x0F23 => Some("Invalid data length."),
        0x0F24 => Some("Invalid number of parameters."),
        0x0F31 => Some("Internal error."),
        0x0F32 => Some("Internal error."),
        0x0F33 => Some("Internal error."),
        _ => None,
    }
}

/// The remedy for each error code that has one.
pub open spec fn remedy_text_of(code: u16) -> Option<Seq<char>> {
    match code {
        0x0200 => Some("Check the call."@),
        0x0201 => Some("Check the call."@),
        0x0500 => Some("Check the call."@),
        0x0501 => Some("Check the call."@),
        0x0502 => Some("Check the call."@),
        0x0503 => Some("Check the call."@),
        0x0504 => Some("Check the call."@),
        0x0505 => Some("Check the call."@),
        0x0601 => Some("Check the call."@),
        0x0602 => Some("Eliminate the hardware error (e.g., I/O voltage not present). Restart the device. If the problem still occurs, please contact Phoenix Contact."@),
        0x0603 => Some("Check the call."@),
        0x0604 => Some("Check the call."@),
        0x0800 => Some("Check the parameterization."@),
        0x0801 => Some("Check the call."@),
        0x0903 => Some("Reduce the amount of data."@),
        0x0904 => Some("Check the parameters."@),
        0x0905 => Some("Check the parameters."@),
        0x0908 => Some("Wait for the service called previously to be completed, and then try again."@),
        0x090A => Some("Match the number of parameters."@),
        0x0913 => Some("Use a service that is supported."@),
        0x0917 => Some("Restart the device. If the problem still occurs, please contact Phoenix Contact."@),
        0x0918 => Some("Check the call."@),
        0x0928 => Some("Wait for the exclusive rights to be enabled."@),
        0x0933 => Some("Wait for the exclusive rights to be enabled."@),
        0x0937 => Some("Check the call."@),
        0x0938 => Some("Check the call."@),
        0x0939 => Some("Check the call."@),
        0x093A => Some("Check the call."@),
        0x093B => Some("Check the call."@),
        0x0A01 => Some("Restart the device. If the problem still occurs, please contact Phoenix Contact."@),
        0x0A02 => Some("Set the local bus master to the required state."@),
        0x0A03 => Some("Restart the device. If the problem still occurs, please contact Phoenix Contact."@),
        0x0A04 => Some("Check the call."@),
        0x0A05 => Some("Check the call."@),
        0x0A06 => Some("Check the call."@),
        0x0A07 => Some("Check the call."@),
        0x0A08 => Some("Wait for the service called previously to be completed, and then try again."@),
        0x0A0C => Some("Check the call."@),
        0x0A0D => Some("Restart the device. If the problem still occurs, please contact Phoenix Contact."@),
        0x0A18 => Some("Check the parameters."@),
        0x0A19 => Some("Check the access."@),
        0x0A1A => Some("Check the parameters."@),
        0x0A1C => Some("Reduce the bus configuration."@),
        0x0A2F => Some("Connect the device and check the connection."@),
        0x0A51 => Some("Currently, the value 1 is permitted only."@),
        0x0A54 => Some("Reduce the number of I/O points to the maximum number. To obtain the exact number, please refer to the documentation for your controller."@),
        0x0A60 => Some("Create the configuration frame."@),
        0x0A70 => Some("Check the parameters."@),
        0x0A73 => Some("Replace the device."@),
        0x0A74 => Some("Replace the device."@),
        0x0A75 => Some("Restart the device. If the problem still occurs, please contact Phoenix Contact."@),
        0x0A76 => Some("Replace the device."@),
        0x0A77 => Some("Check the connection between the electronics module and bus base module."@),
        0x0A7A => Some("Check the parameters."@),
        0x0A7B => Some("Check the parameters."@),
        0x0A7C => Some("Check the parameters."@),
        0x0A81 => Some("Restart the device. If the problem still occurs, please contact Phoenix Contact."@),
        0x0A82 => Some("Restart the device. If the problem still occurs, please contact Phoenix Contact."@),
        0x0A83 => Some("Restart the device. If the problem still occurs, please contact Phoenix Contact."@),
        0x0A90 => Some("Select a device that supports synchronization or change the selection."@),
        0x0A91 => Some("Select a different cycle time or a different device."@),
        0x0A92 => Some("Select a different value for Input_Delay or a different device."@),
        0x0A93 => Some("Select a different value for Output_Delay or a different device."@),
        0x0A94 => Some("Selected different values for Input_Delay and Output_Delay or a different device."@),
        0x0AFF => Some("Restart the device. If the problem still occurs, please contact Phoenix Contact."@),
        0x0B01 => Some("Restart the device. If the problem still occurs, please contact Phoenix Contact."@),
        0x0B02 => Some("Restart the device. If the problem still occurs, please contact Phoenix Contact."@),
        0x0B03 => Some("Restart the device. If the problem still occurs, please contact Phoenix Contact."@),
        0x0B04 => Some("Restart the device. If the problem still occurs, please contact Phoenix Contact."@),
        0x0B05 => Some("Check the parameters."@),
        0x0B06 => Some("Restart the device. If the problem still occurs, please contact Phoenix Contact."@),
        0x0B07 => Some("Restart the device. If the problem still occurs, please contact Phoenix Contact."@),
        0x0B0C => Some("Restart the device. If the problem still occurs, please contact Phoenix Contact."@),
        0x0BC1 => Some("Use a suitable power supply unit. Check the power consumption of the devices; if required, use a power module for communications power or install a further Axioline F station."@),
        0x0BD1 => Some("Check the bus configuration."@),
        0x0BDE => Some("Check the synchronization signal of the higher-level system. Make sure that the cycle time specification is properly selected."@),
        0x0BF1 => Some("Check the bus configuration."@),
        0x0BF2 => Some("Check the bus configuration."@),
        0x0BF3 => Some("Check the bus configuration."@),
        0x0C01 => Some("Check the configuration. Adapt the configuration frame if the modification was done on purpose."@),
        0x0C02 => Some("Check the configuration. Adapt the configuration frame if the modification was done on purpose."@),
        0x0C11 => Some("Check the configuration. Adapt the configuration frame if the modification was done on purpose."@),
        0x0C12 => Some("Check the configuration. Adapt the configuration frame if the modification was done on purpose."@),
        0x0C13 => Some("Check the configuration. Adapt the configuration frame if the modification was done on purpose."@),
        0x0C14 => Some("Check the configuration. Adapt the configuration frame if the modification was done on purpose."@),
        0x0C15 => Some("Check the configuration. Adapt the configuration frame if the modification was done on purpose."@),
        0x0F01 => Some("Restart the device. If the problem still occurs, please contact Phoenix Contact."@),
        0x0F02 => Some("Restart the device. If the problem still occurs, please contact Phoenix Contact."@),
        0x0F03 => Some("Restart the device. If the problem still occurs, please contact Phoenix Contact."@),
        0x0F04 => Some("Check the parameters."@),
        0x0F05 => Some("Check the parameters."@),
        0x0F06 => Some("Check the call."@),
        0x0F08 => Some("Wait until the services have been processed."@),
        0x0F0C => Some("Check the call."@),
        0x0F0D => Some("Restart the device. If the problem still occurs, please contact Phoenix Contact."@),
        0x0F11 => Some("Check the bus configuration."@),
        0x0F12 => Some("Check the device."@),
        0x0F13 => Some("Check the bus configuration."@),
        0x0F21 => Some("Check the call."@),
        0x0F22 => Some("Check the call."@),
        0x0F23 => Some("Check the call."@),
        0x0F24 => Some("Check the call."@),
        0x0F31 => Some("Restart the device. If the problem still occurs, please contact Phoenix Contact."@),
        0x0F32 => Some("Restart the device. If the problem still occurs, please contact Phoenix Contact."@),
        0x0F33 => Some("Restart the device. If the problem still occurs, please contact Phoenix Contact."@),
        _ => None,
    }
}

/// The remedy for `code`, where one is documented.
pub fn remedy_text(code: u16) -> (r: Option<&'static str>)
    ensures
        text_view(r) == remedy_text_of(code),
{
    match code {
        0x0200 => Some("Check the call."),
        0x0201 => Some("Check the call."),
        0x0500 => Some("Check the call."),
        0x0501 => Some("Check the call."),
        0x0502 => Some("Check the call."),
        0x0503 => Some("Check the call."),
        0x0504 => Some("Check the call."),
        0x0505 => Some("Check the call."),
        0x0601 => Some("Check the call."),
        0x0602 => Some("Eliminate the hardware error (e.g., I/O voltage not present). Restart the device. If the problem still occurs, please contact Phoenix Contact."),
        0x0603 => Some("Check the call."),
        0x0604 => Some("Check the call."),
        0x0800 => Some("Check the parameterization."),
        0x0801 => Some("Check the call."),
        0x0903 => Some("Reduce the amount of data."),
        0x0904 => Some("Check the parameters."),
        0x0905 => Some("Check the parameters."),
        0x0908 => Some("Wait for the service called previously to be completed, and then try again."),
        0x090A => Some("Match the number of parameters."),
        0x0913 => Some("Use a service that is supported."),
        0x0917 => Some("Restart the device. If the problem still occurs, please contact Phoenix Contact."),
        0x0918 => Some("Check the call."),
        0x0928 => Some("Wait for the exclusive rights to be enabled."),
        0x0933 => Some("Wait for the exclusive rights to be enabled."),
        0x0937 => Some("Check the call."),
        0x0938 => Some("Check the call."),
        0x0939 => Some("Check the call."),
        0x093A => Some("Check the call."),
        0x093B => Some("Check the call."),
        0x0A01 => Some("Restart the device. If the problem still occurs, please contact Phoenix Contact."),
        0x0A02 => Some("Set the local bus master to the required state."),
        0x0A03 => Some("Restart the device. If the problem still occurs, please contact Phoenix Contact."),
        0x0A04 => Some("Check the call."),
        0x0A05 => Some("Check the call."),
        0x0A06 => Some("Check the call."),
        0x0A07 => Some("Check the call."),
        0x0A08 => Some("Wait for the service called previously to be completed, and then try again."),
        0x0A0C => Some("Check the call."),
        0x0A0D => Some("Restart the device. If the problem still occurs, please contact Phoenix Contact."),
        0x0A18 => Some("Check the parameters."),
        0x0A19 => Some("Check the access."),
        0x0A1A => Some("Check the parameters."),
        0x0A1C => Some("Reduce the bus configuration."),
        0x0A2F => Some("Connect the device and check the connection."),
        0x0A51 => Some("Currently, the value 1 is permitted only."),
        0x0A54 => Some("Reduce the number of I/O points to the maximum number. To obtain the exact number, please refer to the documentation for your controller."),
        0x0A60 => Some("Create the configuration frame."),
        0x0A70 => Some("Check the parameters."),
        0x0A73 => Some("Replace the device."),
        0x0A74 => Some("Replace the device."),
        0x0A75 => Some("Restart the device. If the problem still occurs, please contact Phoenix Contact."),
        0x0A76 => Some("Replace the device."),
        0x0A77 => Some("Check the connection between the electronics module and bus base module."),
        0x0A7A => Some("Check the parameters."),
        0x0A7B => Some("Check the parameters."),
        0x0A7C => Some("Check the parameters."),
        0x0A81 => Some("Restart the device. If the problem still occurs, please contact Phoenix Contact."),
        0x0A82 => Some("Restart the device. If the problem still occurs, please contact Phoenix Contact."),
        0x0A83 => Some("Restart the device. If the problem still occurs, please contact Phoenix Contact."),
        0x0A90 => Some("Select a device that supports synchronization or change the selection."),
        0x0A91 => Some("Select a different cycle time or a different device."),
        0x0A92 => Some("Select a different value for Input_Delay or a different device."),
        0x0A93 => Some("Select a different value for Output_Delay or a different device."),
        0x0A94 => Some("Selected different values for Input_Delay and Output_Delay or a different device."),
        0x0AFF => Some("Restart the device. If the problem still occurs, please contact Phoenix Contact."),
        0x0B01 => Some("Restart the device. If the problem still occurs, please contact Phoenix Contact."),
        0x0B02 => Some("Restart the device. If the problem still occurs, please contact Phoenix Contact."),
        0x0B03 => Some("Restart the device. If the problem still occurs, please contact Phoenix Contact."),
        0x0B04 => Some("Restart the device. If the problem still occurs, please contact Phoenix Contact."),
        0x0B05 => Some("Check the parameters."),
        0x0B06 => Some("Restart the device. If the problem still occurs, please contact Phoenix Contact."),
        0x0B07 => Some("Restart the device. If the problem still occurs, please contact Phoenix Contact."),
        0x0B0C => Some("Restart the device. If the problem still occurs, please contact Phoenix Contact."),
        0x0BC1 => Some("Use a suitable power supply unit. Check the power consumption of the devices; if required, use a power module for communications power or install a further Axioline F station."),
        0x0BD1 => Some("Check the bus configuration."),
        0x0BDE => Some("Check the synchronization signal of the higher-level system. Make sure that the cycle time specification is properly selected."),
        0x0BF1 => Some("Check the bus configuration."),
        0x0BF2 => Some("Check the bus configuration."),
        0x0BF3 => Some("Check the bus configuration."),
        0x0C01 => Some("Check the configuration. Adapt the configuration frame if the modification was done on purpose."),
        0x0C02 => Some("Check the configuration. Adapt the configuration frame if the modification was done on purpose."),
        0x0C11 => Some("Check the configuration. Adapt the configuration frame if the modification was done on purpose."),
        0x0C12 => Some("Check the configuration. Adapt the configuration frame if the modification was done on purpose."),
        0x0C13 => Some("Check the configuration. Adapt the configuration frame if the modification was done on purpose."),
        0x0C14 => Some("Check the configuration. Adapt the configuration frame if the modification was done on purpose."),
        0x0C15 => Some("Check the configuration. Adapt the configuration frame if the modification was done on purpose."),
        0x0F01 => Some("Restart the device. If the problem still occurs, please contact Phoenix Contact."),
        0x0F02 => Some("Restart the device. If the problem still occurs, please contact Phoenix Contact."),
        0x0F03 => Some("Restart the device. If the problem still occurs, please contact Phoenix Contact."),
        0x0F04 => Some("Check the parameters."),
        0x0F05 => Some("Check the parameters."),
        0x0F06 => Some("Check the call."),
        0x0F08 => Some("Wait until the services have been processed."),
        0x0F0C => Some("Check the call."),
        0x0F0D => Some("Restart the device. If the problem still occurs, please contact Phoenix Contact."),
        0x0F11 => Some("Check the bus configuration."),
        0x0F12 => Some("Check the device."),
        0x0F13 => Some("Check the bus configuration."),
        0x0F21 => Some("Check the call."),
        0x0F22 => Some("Check the call."),
        0x0F23 => Some("Check the call."),
        0x0F24 => Some("Check the call."),
        0x0F31 => Some("Restart the device. If the problem still occurs, please contact Phoenix Contact."),
        0x0F32 => Some("Restart the device. If the problem still occurs, please contact Phoenix Contact."),
        0x0F33 => Some("Restart the device. If the problem still occurs, please contact Phoenix Contact."),
        _ => None,
    }
}

/// The generic meaning of each documented additional-information value.
pub open spec fn info_text_of(info: u16) -> Option<Seq<char>> {
    match info {
        0x0010 => Some("Service parameter with invalid value."@),
        0x0011 => Some("Subindex not available."@),
        0x0012 => Some("Object access is not a request."@),
        0x0013 => Some("Service code is not supported."@),
        0x0014 => Some("Subslot is not supported."@),
        0x0015 => Some("Object access type not supported on this object."@),
        0x0016 => Some("Object access request index for this AccessType does not equal 0x0000."@),
        0x0017 => Some("Object access request length for this AccessType does not equal zero."@),
        0x0018 => Some("Object length for this object does not match."@),
        0x0019 => Some("Object is ReadOnly and cannot be overwritten."@),
        0x001A => Some("Object is WriteOnly and cannot be read."@),
        0x001B => Some("Write/read access to the object is not permitted."@),
        0x001C => Some("Access requires Upload-Read or Download-Write."@),
        0x0020 => Some("Service cannot be executed at present."@),
        0x0021 => Some("Due to local control, service cannot be executed at present."@),
        0x0022 => Some("Service cannot be executed in current device state (device control)."@),
        0x0023 => Some("Service cannot be executed at present as no object dictionary is available."@),
        0x0030 => Some("Value range of a parameter out of range."@),
        0x0031 => Some("Parameter value too large."@),
        0x0032 => Some("Parameter value too small."@),
        0x0040 => Some("Collision with other values."@),
        0x0041 => Some("Communication object cannot be mapped to the process data."@),
        0x0042 => Some("Process data length exceeded."@),
        0x0050 => Some("Firmware download rejected: general."@),
        0x0051 => Some("Firmware download rejected: incorrect update version."@),
        0x0052 => Some("Firmware download rejected: incorrect firmware version for the hardware."@),
        0x0053 => Some("Firmware download rejected: identical firmware block."@),
        0x0080 => Some("Hardware error."@),
        0x0081 => Some("Application failed."@),
        0x00A0 => Some("Invalid segment number, e.g., upload without initiation with subindex == 0xFF."@),
        0x00A1 => Some("Resource not available; No more resources (memory) available for download."@),
        0x00A2 => Some("Incorrect CRC (checksum)."@),
        0x00A3 => Some("Error opening the file (if file system is available)."@),
        0x00A4 => Some("Error writing the file (if file system is available)."@),
        0x00A5 => Some("Error closing the file (if file system is available)."@),
        0x00A6 => Some("Segment missing: Fewer data blocks were received than specified in the last segment."@),
        0x00A7 => Some("Excess segment: More data blocks were received than specified in the last segment."@),
        0x00A8 => Some("Error reading the file (if file system is available)."@),
        0x00A9 => Some("Segment number invalid or duplicated (segment ignored)."@),
        0x00B1 => Some("The password cannot be replaced (deleted)."@),
        0x00B2 => Some("The password cannot be added (too many passwords)."@),
        0x00B3 => Some("The password cannot be assigned for the desired type of access."@),
        _ => None,
    }
}

/// The generic meaning of `info`, where one is documented.
pub fn info_text(info: u16) -> (r: Option<&'static str>)
    ensures
        text_view(r) == info_text_of(info),
{
    match info {
        0x0010 => Some("Service parameter with invalid value."),
        0x0011 => Some("Subindex not available."),
        0x0012 => Some("Object access is not a request."),
        0x0013 => Some("Service code is not supported."),
        0x0014 => Some("Subslot is not supported."),
        0x0015 => Some("Object access type not supported on this object."),
        0x0016 => Some("Object access request index for this AccessType does not equal 0x0000."),
        0x0017 => Some("Object access request length for this AccessType does not equal zero."),
        0x0018 => Some("Object length for this object does not match."),
        0x0019 => Some("Object is ReadOnly and cannot be overwritten."),
        0x001A => Some("Object is WriteOnly and cannot be read."),
        0x001B => Some("Write/read access to the object is not permitted."),
        0x001C => Some("Access requires Upload-Read or Download-Write."),
        0x0020 => Some("Service cannot be executed at present."),
        0x0021 => Some("Due to local control, service cannot be executed at present."),
        0x0022 => Some("Service cannot be executed in current device state (device control)."),
        0x0023 => Some("Service cannot be executed at present as no object dictionary is available."),
        0x0030 => Some("Value range of a parameter out of range."),
        0x0031 => Some("Parameter value too large."),
        0x0032 => Some("Parameter value too small."),
        0x0040 => Some("Collision with other values."),
        0x0041 => Some("Communication object cannot be mapped to the process data."),
        0x0042 => Some("Process data length exceeded."),
        0x0050 => Some("Firmware download rejected: general."),
        0x0051 => Some("Firmware download rejected: incorrect update version."),
        0x0052 => Some("Firmware download rejected: incorrect firmware version for the hardware."),
        0x0053 => Some("Firmware download rejected: identical firmware block."),
        0x0080 => Some("Hardware error."),
        0x0081 => Some("Application failed."),
        0x00A0 => Some("Invalid segment number, e.g., upload without initiation with subindex == 0xFF."),
        0x00A1 => Some("Resource not available; No more resources (memory) available for download."),
        0x00A2 => Some("Incorrect CRC (checksum)."),
        0x00A3 => Some("Error opening the file (if file system is available)."),
        0x00A4 => Some("Error writing the file (if file system is available)."),
        0x00A5 => Some("Error closing the file (if file system is available)."),
        0x00A6 => Some("Segment missing: Fewer data blocks were received than specified in the last segment."),
        0x00A7 => Some("Excess segment: More data blocks were received than specified in the last segment."),
        0x00A8 => Some("Error reading the file (if file system is available)."),
        0x00A9 => Some("Segment number invalid or duplicated (segment ignored)."),
        0x00B1 => Some("The password cannot be replaced (deleted)."),
        0x00B2 => Some("The password cannot be added (too many passwords)."),
        0x00B3 => Some("The password cannot be assigned for the desired type of access."),
        _ => None,
    }
}

} // verus!
