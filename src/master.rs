//! Control of the Axioline bus master: the request words of the services sent
//! through the raw control exchange, the outcome of a service, and a simulated
//! master that follows the master's documented state table.

use vstd::prelude::*;

use crate::diagnostic::{check_result, kind_of, message_of, AxiolineError, SUCCESS};
use crate::error::PlcnextError;

verus! {

/// Service code of the process-data mapping load, sent through the raw control exchange.
pub const LOAD_PD_MAPPING: u16 = 0x0728;

/// Service code of the output enable, sent through the raw control exchange.
pub const ENABLE_OUTPUT: u16 = 0x0701;

/// Fault: a service that the master's current state does not permit.
pub const NOT_PERMITTED: u16 = 0x0A02;

/// Fault: too many devices.
pub const TOO_MANY_DEVICES: u16 = 0x0A1C;

/// Fault: the frame reference does not exist.
pub const NO_SUCH_FRAME: u16 = 0x0A1A;

/// Fault: a frame reference outside 1 to 254.
pub const FRAME_OUT_OF_RANGE: u16 = 0x0A51;

/// Fault: a configured device is missing from the bus.
pub const DEVICE_MISSING: u16 = 0x0C01;

/// Fault: the bus holds a device that is not configured.
pub const DEVICE_UNCONFIGURED: u16 = 0x0C02;

/// Fault: a device's ID differs from the configured one.
pub const DEVICE_ID_MISMATCH: u16 = 0x0C15;

/// Fault: the parameter count disagrees with the words that follow it.
pub const PARAMETER_COUNT_MISMATCH: u16 = 0x090A;

/// Fault: an unknown service code.
pub const UNKNOWN_SERVICE: u16 = 0x0918;

/// The most devices a simulated local bus or frame holds: an Axioline F local
/// bus connects up to 63 devices, and a master answers a frame with more with
/// the "maximum number of devices exceeded" fault.
pub const MAX_DEVICES: usize = 63;

/// The longest device list whose 1-based device numbers all fit a status word.
pub const MAX_NUMBERED_DEVICES: usize = 0xFFFE;

/// The number of frame references, 0 to 255; only 1 to 254 are usable.
pub const FRAME_SLOTS: usize = 256;

/// Request words of the service that loads the process-data mapping.
pub fn load_pd_mapping_request(direction: u16, relationship: u16, mode: u16) -> (r: Vec<u16>)
    ensures
        r@ == seq![LOAD_PD_MAPPING, 0x0004u16, direction, relationship, mode, 0x0000u16],
{
    let r: Vec<u16> = vec![LOAD_PD_MAPPING, 0x0004, direction, relationship, mode, 0x0000];
    assert(r@ =~= seq![LOAD_PD_MAPPING, 0x0004u16, direction, relationship, mode, 0x0000u16]);
    r
}

/// Request words of the service that enables the outputs of a communication relationship.
pub fn enable_output_request(relationship: u16) -> (r: Vec<u16>)
    ensures
        r@ == seq![ENABLE_OUTPUT, 0x0001u16, relationship],
{
    let r: Vec<u16> = vec![ENABLE_OUTPUT, 0x0001, relationship];
    assert(r@ =~= seq![ENABLE_OUTPUT, 0x0001u16, relationship]);
    r
}

/// Address of an object read through the acyclic communication service.
#[derive(Debug, Clone, Copy, PartialEq, Eq, Structural)]
pub struct PdiParam {
    pub slot: u16,
    pub subslot: u8,
    pub index: u16,
    pub subindex: u8,
}

/// The outcome of a PDI read that answered with `data` and a fault-code pair:
/// the data exactly when the error code is zero.
pub fn pdi_read_result(data: Vec<u8>, error_code: u16, add_info: u16) -> (r: Result<Vec<u8>, AxiolineError>)
    ensures
        r is Ok <==> error_code == SUCCESS,
        r matches Ok(d) ==> d == data,
        r matches Err(e) ==> e.error_code == error_code && e.add_info == add_info,
{
    match check_result(error_code, add_info) {
        Ok(()) => Ok(data),
        Err(e) => Err(e),
    }
}

/// State of the bus master.
#[derive(Debug, Clone, Copy, PartialEq, Eq, Structural)]
pub enum MasterState {
    /// No configuration is active.
    Ready,
    /// A configuration frame is active; cycles run, outputs are disabled.
    Active,
    /// Outputs are enabled.
    Run,
}

/// The status word that a master reports for each state.
pub open spec fn state_code(s: MasterState) -> u16 {
    match s {
        MasterState::Ready => 1,
        MasterState::Active => 2,
        MasterState::Run => 3,
    }
}

impl MasterState {
    /// The status word reported for this state.
    pub fn code(&self) -> (r: u16)
        ensures
            r == state_code(*self),
    {
        match self {
            MasterState::Ready => 1,
            MasterState::Active => 2,
            MasterState::Run => 3,
        }
    }
}

/// The fault-code pair that answers a service; a zero error code is success.
#[derive(Debug, Clone, Copy, PartialEq, Eq, Structural)]
pub struct AxioResult {
    pub error_code: u16,
    pub add_info: u16,
}

impl AxioResult {
    /// Success, or the fault this pair reports.
    pub fn into_result(self) -> (r: Result<(), AxiolineError>)
        ensures
            r is Ok <==> self.error_code == SUCCESS,
            r matches Err(e) ==> e.error_code == self.error_code && e.add_info == self.add_info,
    {
        check_result(self.error_code, self.add_info)
    }

    /// Success, or an error carrying the fault's kind and its diagnostic message.
    pub fn into_decoded(self) -> (r: Result<(), PlcnextError>)
        ensures
            r is Ok <==> self.error_code == SUCCESS,
            r matches Err(e) ==> e.kind == kind_of(self.error_code) && e.details@ == message_of(
                self.error_code,
                self.add_info,
            ),
    {
        match check_result(self.error_code, self.add_info) {
            Ok(()) => Ok(()),
            Err(e) => Err(e.to_error()),
        }
    }
}

/// A fault-code pair as a value.
pub open spec fn fault(error_code: u16, add_info: u16) -> AxioResult {
    AxioResult { error_code, add_info }
}

/// Success.
pub open spec fn success() -> AxioResult {
    fault(SUCCESS, 0)
}

/// Whether `frame` is a usable frame reference.
pub open spec fn frame_usable(frame: u16) -> bool {
    1 <= frame <= 254
}

/// The first position from `i` on where the configured and connected devices differ.
pub open spec fn first_difference(configured: Seq<u16>, connected: Seq<u16>, i: int) -> Option<int>
    decreases configured.len() - i,
{
    if i < 0 || i >= configured.len() || i >= connected.len() {
        None
    } else if configured[i] != connected[i] {
        Some(i)
    } else {
        first_difference(configured, connected, i + 1)
    }
}

/// The fault with which activating a frame of `configured` devices fails on a
/// bus of `connected` devices, if any. Devices are numbered from 1.
pub open spec fn topology_fault(configured: Seq<u16>, connected: Seq<u16>) -> Option<AxioResult> {
    match first_difference(configured, connected, 0) {
        Some(i) => Some(fault(DEVICE_ID_MISMATCH, (i + 1) as u16)),
        None => if configured.len() > connected.len() {
            Some(fault(DEVICE_MISSING, (connected.len() + 1) as u16))
        } else if configured.len() < connected.len() {
            Some(fault(DEVICE_UNCONFIGURED, (configured.len() + 1) as u16))
        } else {
            None
        },
    }
}

/// Finds the fault with which activating `configured` fails on `connected`.
pub fn check_topology(configured: &Vec<u16>, connected: &Vec<u16>) -> (r: Option<AxioResult>)
    requires
        configured@.len() <= MAX_NUMBERED_DEVICES,
        connected@.len() <= MAX_NUMBERED_DEVICES,
    ensures
        r == topology_fault(configured@, connected@),
{
    let mut i: usize = 0;
    while i < configured.len() && i < connected.len()
        invariant
            i <= configured@.len(),
            i <= connected@.len(),
            configured@.len() <= MAX_NUMBERED_DEVICES,
            first_difference(configured@, connected@, 0) == first_difference(configured@, connected@, i as int),
        decreases configured@.len() - i,
    {
        if configured[i] != connected[i] {
            return Some(AxioResult { error_code: DEVICE_ID_MISMATCH, add_info: (i + 1) as u16 });
        }
        i = i + 1;
    }
    if configured.len() > connected.len() {
        Some(AxioResult { error_code: DEVICE_MISSING, add_info: (connected.len() + 1) as u16 })
    } else if configured.len() < connected.len() {
        Some(AxioResult { error_code: DEVICE_UNCONFIGURED, add_info: (configured.len() + 1) as u16 })
    } else {
        None
    }
}

/// A bus master's state as values.
pub struct MasterModel {
    pub state: MasterState,
    /// IDs of the devices connected to the bus, in bus order.
    pub connected: Seq<u16>,
    /// The devices of each loaded frame, by frame reference.
    pub frames: Seq<Option<Seq<u16>>>,
    /// The active frame, if any.
    pub active: Option<u16>,
    /// The last loaded process-data mapping: direction, relationship, mode.
    pub mapping: Option<(u16, u16, u16)>,
}

/// The answer of a master in state `m` that refuses a service its state does not permit.
pub open spec fn refuse(m: MasterModel) -> (MasterModel, AxioResult) {
    (m, fault(NOT_PERMITTED, state_code(m.state)))
}

/// Resets the master: any state, then Ready with no active frame.
pub open spec fn reset_spec(m: MasterModel) -> (MasterModel, AxioResult) {
    (MasterModel { state: MasterState::Ready, active: None, mapping: None, ..m }, success())
}

/// Creates frame `frame` from the connected devices and activates it: Ready to Active.
pub open spec fn create_spec(m: MasterModel, frame: u16) -> (MasterModel, AxioResult) {
    if m.state != MasterState::Ready {
        refuse(m)
    } else if !frame_usable(frame) {
        (m, fault(FRAME_OUT_OF_RANGE, frame))
    } else {
        (
            MasterModel {
                state: MasterState::Active,
                frames: m.frames.update(frame as int, Some(m.connected)),
                active: Some(frame),
                ..m
            },
            success(),
        )
    }
}

/// Loads frame `frame` without activating it: Ready stays Ready.
pub open spec fn write_spec(m: MasterModel, frame: u16, devices: Seq<u16>) -> (MasterModel, AxioResult) {
    if m.state != MasterState::Ready {
        refuse(m)
    } else if !frame_usable(frame) {
        (m, fault(FRAME_OUT_OF_RANGE, frame))
    } else if devices.len() > MAX_DEVICES {
        (m, fault(TOO_MANY_DEVICES, devices.len() as u16))
    } else {
        (MasterModel { frames: m.frames.update(frame as int, Some(devices)), ..m }, success())
    }
}

/// Reads frame `frame`: any state, the frame must be loaded.
pub open spec fn read_spec(m: MasterModel, frame: u16) -> Result<Seq<u16>, AxioResult> {
    if !frame_usable(frame) {
        Err(fault(FRAME_OUT_OF_RANGE, frame))
    } else if m.frames[frame as int] is None {
        Err(fault(NO_SUCH_FRAME, frame))
    } else {
        Ok(m.frames[frame as int]->Some_0)
    }
}

/// Activates loaded frame `frame` if the bus matches it: Ready to Active.
pub open spec fn activate_spec(m: MasterModel, frame: u16) -> (MasterModel, AxioResult) {
    if m.state != MasterState::Ready {
        refuse(m)
    } else if !frame_usable(frame) {
        (m, fault(FRAME_OUT_OF_RANGE, frame))
    } else if m.frames[frame as int] is None {
        (m, fault(NO_SUCH_FRAME, frame))
    } else if topology_fault(m.frames[frame as int]->Some_0, m.connected) is Some {
        (m, topology_fault(m.frames[frame as int]->Some_0, m.connected)->Some_0)
    } else {
        (MasterModel { state: MasterState::Active, active: Some(frame), ..m }, success())
    }
}

/// Deactivates the active frame `frame`: Active to Ready.
pub open spec fn deactivate_spec(m: MasterModel, frame: u16) -> (MasterModel, AxioResult) {
    if m.state != MasterState::Active {
        refuse(m)
    } else if m.active != Some(frame) {
        (m, fault(NO_SUCH_FRAME, frame))
    } else {
        (MasterModel { state: MasterState::Ready, active: None, ..m }, success())
    }
}

/// Loads a process-data mapping; the last one loaded wins: Active stays Active.
pub open spec fn load_pd_mapping_spec(m: MasterModel, direction: u16, relationship: u16, mode: u16) -> (MasterModel, AxioResult) {
    if m.state != MasterState::Active {
        refuse(m)
    } else {
        (MasterModel { mapping: Some((direction, relationship, mode)), ..m }, success())
    }
}

/// Enables the outputs: Active to Run.
pub open spec fn enable_output_spec(m: MasterModel, relationship: u16) -> (MasterModel, AxioResult) {
    if m.state != MasterState::Active {
        refuse(m)
    } else {
        (MasterModel { state: MasterState::Run, ..m }, success())
    }
}

/// Carries out the service named by raw request words: service code,
/// parameter count, parameters.
pub open spec fn control_spec(m: MasterModel, words: Seq<u16>) -> (MasterModel, AxioResult) {
    if words.len() < 2 {
        (m, fault(PARAMETER_COUNT_MISMATCH, 0))
    } else if words[1] as int != words.len() - 2 {
        (m, fault(PARAMETER_COUNT_MISMATCH, words[1]))
    } else if words[0] == LOAD_PD_MAPPING && words.len() == 6 {
        load_pd_mapping_spec(m, words[2], words[3], words[4])
    } else if words[0] == ENABLE_OUTPUT && words.len() == 3 {
        enable_output_spec(m, words[2])
    } else if words[0] == LOAD_PD_MAPPING || words[0] == ENABLE_OUTPUT {
        (m, fault(PARAMETER_COUNT_MISMATCH, words[1]))
    } else {
        (m, fault(UNKNOWN_SERVICE, words[0]))
    }
}

/// The devices of an optional frame, as values.
pub open spec fn frame_view(f: Option<Vec<u16>>) -> Option<Seq<u16>> {
    match f {
        Some(v) => Some(v@),
        None => None,
    }
}

/// A bus master in memory that follows the documented state table.
pub struct SimulatedMaster {
    pub state: MasterState,
    pub connected: Vec<u16>,
    pub frames: Vec<Option<Vec<u16>>>,
    pub active: Option<u16>,
    pub mapping: Option<(u16, u16, u16)>,
}

impl SimulatedMaster {
    pub open spec fn view(&self) -> MasterModel {
        MasterModel {
            state: self.state,
            connected: self.connected@,
            frames: self.frames@.map_values(|f: Option<Vec<u16>>| frame_view(f)),
            active: self.active,
            mapping: self.mapping,
        }
    }

    /// One slot per frame reference; no bus or frame holds more devices than a bus can.
    pub open spec fn wf(&self) -> bool {
        &&& self.connected@.len() <= MAX_DEVICES
        &&& self.frames@.len() == FRAME_SLOTS
        &&& forall|i: int| 0 <= i < FRAME_SLOTS ==> (#[trigger] self.frames@[i] matches Some(v) ==> v@.len() <= MAX_DEVICES)
    }

    /// A master in the Ready state on a bus of `connected` devices, with no frame loaded.
    pub fn new(connected: &Vec<u16>) -> (m: SimulatedMaster)
        requires
            connected@.len() <= MAX_DEVICES,
        ensures
            m.wf(),
            m.view().state == MasterState::Ready,
            m.view().connected == connected@,
            forall|i: int| 0 <= i < FRAME_SLOTS ==> m.view().frames[i] is None,
            m.view().active is None,
            m.view().mapping is None,
    {
        let mut frames: Vec<Option<Vec<u16>>> = Vec::new();
        let mut i: usize = 0;
        while i < FRAME_SLOTS
            invariant
                i <= FRAME_SLOTS,
                frames@.len() == i,
                forall|k: int| 0 <= k < i ==> frames@[k] is None,
            decreases FRAME_SLOTS - i,
        {
            frames.push(None);
            i = i + 1;
        }
        SimulatedMaster {
            state: MasterState::Ready,
            connected: connected.clone(),
            frames,
            active: None,
            mapping: None,
        }
    }

    /// Resets the master.
    pub fn reset_master(&mut self) -> (r: AxioResult)
        requires
            old(self).wf(),
        ensures
            final(self).wf(),
            (final(self).view(), r) == reset_spec(old(self).view()),
    {
        self.state = MasterState::Ready;
        self.active = None;
        self.mapping = None;
        AxioResult { error_code: SUCCESS, add_info: 0 }
    }

    fn refused(&self) -> (r: AxioResult)
        ensures
            r == refuse(self.view()).1,
    {
        AxioResult { error_code: NOT_PERMITTED, add_info: self.state.code() }
    }

    /// Creates a frame from the connected devices and activates it.
    pub fn create_configuration(&mut self, frame: u16) -> (r: AxioResult)
        requires
            old(self).wf(),
        ensures
            final(self).wf(),
            (final(self).view(), r) == create_spec(old(self).view(), frame),
    {
        if self.state != MasterState::Ready {
            return self.refused();
        }
        if frame < 1 || frame > 254 {
            return AxioResult { error_code: FRAME_OUT_OF_RANGE, add_info: frame };
        }
        let devices = self.connected.clone();
        assert(devices@ == self.connected@);
        self.frames[frame as usize] = Some(devices);
        self.state = MasterState::Active;
        self.active = Some(frame);
        assert(self.view().frames =~= old(self).view().frames.update(frame as int, Some(old(self).connected@)));
        AxioResult { error_code: SUCCESS, add_info: 0 }
    }

    /// Loads frame `frame` with `devices`, replacing what it held.
    pub fn write_configuration(&mut self, frame: u16, devices: &Vec<u16>) -> (r: AxioResult)
        requires
            old(self).wf(),
        ensures
            final(self).wf(),
            (final(self).view(), r) == write_spec(old(self).view(), frame, devices@),
    {
        if self.state != MasterState::Ready {
            return self.refused();
        }
        if frame < 1 || frame > 254 {
            return AxioResult { error_code: FRAME_OUT_OF_RANGE, add_info: frame };
        }
        if devices.len() > MAX_DEVICES {
            return AxioResult { error_code: TOO_MANY_DEVICES, add_info: devices.len() as u16 };
        }
        let copy = devices.clone();
        assert(copy@ == devices@);
        self.frames[frame as usize] = Some(copy);
        assert(self.view().frames =~= old(self).view().frames.update(frame as int, Some(devices@)));
        AxioResult { error_code: SUCCESS, add_info: 0 }
    }

    /// The devices of loaded frame `frame`.
    pub fn read_configuration(&self, frame: u16) -> (r: Result<Vec<u16>, AxioResult>)
        requires
            self.wf(),
        ensures
            match r {
                Ok(v) => read_spec(self.view(), frame) == Ok::<Seq<u16>, AxioResult>(v@),
                Err(e) => read_spec(self.view(), frame) == Err::<Seq<u16>, AxioResult>(e),
            },
    {
        if frame < 1 || frame > 254 {
            return Err(AxioResult { error_code: FRAME_OUT_OF_RANGE, add_info: frame });
        }
        match &self.frames[frame as usize] {
            Some(v) => {
                let copy = v.clone();
                assert(copy@ == v@);
                Ok(copy)
            },
            None => Err(AxioResult { error_code: NO_SUCH_FRAME, add_info: frame }),
        }
    }

    /// Activates loaded frame `frame` if the bus matches it.
    pub fn activate_configuration(&mut self, frame: u16) -> (r: AxioResult)
        requires
            old(self).wf(),
        ensures
            final(self).wf(),
            (final(self).view(), r) == activate_spec(old(self).view(), frame),
    {
        if self.state != MasterState::Ready {
            return self.refused();
        }
        if frame < 1 || frame > 254 {
            return AxioResult { error_code: FRAME_OUT_OF_RANGE, add_info: frame };
        }
        let mismatch = match &self.frames[frame as usize] {
            None => {
                return AxioResult { error_code: NO_SUCH_FRAME, add_info: frame };
            },
            Some(v) => check_topology(v, &self.connected),
        };
        match mismatch {
            Some(f) => f,
            None => {
                self.state = MasterState::Active;
                self.active = Some(frame);
                AxioResult { error_code: SUCCESS, add_info: 0 }
            },
        }
    }

    /// Deactivates the active frame `frame`.
    pub fn deactivate_configuration(&mut self, frame: u16) -> (r: AxioResult)
        requires
            old(self).wf(),
        ensures
            final(self).wf(),
            (final(self).view(), r) == deactivate_spec(old(self).view(), frame),
    {
        if self.state != MasterState::Active {
            return self.refused();
        }
        let is_active = match self.active {
            Some(a) => a == frame,
            None => false,
        };
        if is_active {
            self.state = MasterState::Ready;
            self.active = None;
            AxioResult { error_code: SUCCESS, add_info: 0 }
        } else {
            AxioResult { error_code: NO_SUCH_FRAME, add_info: frame }
        }
    }

    /// Carries out the service named by raw request words.
    pub fn axio_control(&mut self, request: &Vec<u16>) -> (r: AxioResult)
        requires
            old(self).wf(),
        ensures
            final(self).wf(),
            (final(self).view(), r) == control_spec(old(self).view(), request@),
    {
        let n = request.len();
        if n < 2 {
            return AxioResult { error_code: PARAMETER_COUNT_MISMATCH, add_info: 0 };
        }
        let code = request[0];
        let count = request[1];
        if count as usize != n - 2 {
            return AxioResult { error_code: PARAMETER_COUNT_MISMATCH, add_info: count };
        }
        if code == LOAD_PD_MAPPING && n == 6 {
            if self.state != MasterState::Active {
                return self.refused();
            }
            self.mapping = Some((request[2], request[3], request[4]));
            AxioResult { error_code: SUCCESS, add_info: 0 }
        } else if code == ENABLE_OUTPUT && n == 3 {
            if self.state != MasterState::Active {
                return self.refused();
            }
            self.state = MasterState::Run;
            AxioResult { error_code: SUCCESS, add_info: 0 }
        } else if code == LOAD_PD_MAPPING || code == ENABLE_OUTPUT {
            AxioResult { error_code: PARAMETER_COUNT_MISMATCH, add_info: count }
        } else {
            AxioResult { error_code: UNKNOWN_SERVICE, add_info: code }
        }
    }

    /// Loads a process-data mapping, through the raw control exchange.
    pub fn load_pd_mapping(&mut self, direction: u16, relationship: u16, mode: u16) -> (r: AxioResult)
        requires
            old(self).wf(),
        ensures
            final(self).wf(),
            (final(self).view(), r) == load_pd_mapping_spec(old(self).view(), direction, relationship, mode),
    {
        let request = load_pd_mapping_request(direction, relationship, mode);
        self.axio_control(&request)
    }

    /// Enables the outputs of a communication relationship, through the raw control exchange.
    pub fn enable_output(&mut self, relationship: u16) -> (r: AxioResult)
        requires
            old(self).wf(),
        ensures
            final(self).wf(),
            (final(self).view(), r) == enable_output_spec(old(self).view(), relationship),
    {
        let request = enable_output_request(relationship);
        self.axio_control(&request)
    }
}

/// Enabling outputs while the master is Ready, with no active configuration,
/// is refused with the "not permitted in the current status" fault, which is a
/// bus-state error; the master stays as it was.
pub proof fn enable_output_when_ready_is_refused(m: MasterModel, relationship: u16)
    requires
        m.state == MasterState::Ready,
    ensures
        enable_output_spec(m, relationship) == (m, fault(NOT_PERMITTED, state_code(MasterState::Ready))),
        crate::diagnostic::kind_of(enable_output_spec(m, relationship).1.error_code) == crate::error::ErrorKind::BusState,
{
}

} // verus!
