//! A simulated machine: the monitor responses of a device that is switched
//! on, becomes ready, dispenses once and stays ready.

use crate::ecam::hardware_enums::{EcamAccessory, EcamMachineState, EcamRequestId};
use crate::protocol::command::{
    DecodeError, MachineState, MonitorStateView, Response, ResponseView,
};
use crate::protocol::machine_enum::{MachineEnum, MachineEnumerable};
use vstd::prelude::*;

verus! {

/// Number of responses that the simulated machine sends.
pub const SIMULATION_STEPS: usize = 123;

/// Pause, in milliseconds, before each further response.
pub const SIMULATION_DELAY_MS: u64 = 250;

/// The payload of a monitor response that reports `state` with the given
/// progress and percentage: the response id and `0xf0`, then no accessory,
/// four key bytes of zero, the state, the progress, the percentage, and two
/// loads of zero.
pub open spec fn simulated_response_spec(
    state: EcamMachineState,
    progress: u8,
    percentage: u8,
) -> Seq<u8> {
    seq![
        EcamRequestId::MonitorV2.code(),
        0xf0,
        EcamAccessory::Absent.code(),
        0,
        0,
        0,
        0,
        state.code(),
        progress,
        percentage,
        0,
        0,
    ]
}

/// Builds the payload of a monitor response as a machine would send it.
pub fn make_simulated_response(state: EcamMachineState, progress: u8, percentage: u8) -> (bytes:
    Vec<u8>)
    ensures
        bytes@ == simulated_response_spec(state, progress, percentage),
{
    let mut bytes: Vec<u8> = vec![EcamRequestId::MonitorV2.to_code(), 0xf0];
    bytes.push(MachineEnum::Value(EcamAccessory::Absent).encode());
    bytes.push(0);
    bytes.push(0);
    bytes.push(0);
    bytes.push(0);
    bytes.push(MachineEnum::Value(state).encode());
    bytes.push(progress);
    bytes.push(percentage);
    bytes.push(0);
    bytes.push(0);
    bytes
}

/// What the simulated machine reports at each step: state, progress and
/// percentage. It stands by for 5 steps, turns on for 5 with the percentage
/// rising by 20, is ready for 3, runs a function for 10 with the progress
/// rising by 1 and the percentage by 10, and is ready for 100 more. After
/// that it reports nothing.
pub open spec fn simulated_reading_spec(step: int) -> Option<(EcamMachineState, u8, u8)> {
    if 0 <= step < 5 {
        Some((EcamMachineState::StandBy, 0u8, 0u8))
    } else if 5 <= step < 10 {
        Some((EcamMachineState::TurningOn, 0u8, ((step - 5) * 20) as u8))
    } else if 10 <= step < 13 {
        Some((EcamMachineState::Ready, 0u8, 0u8))
    } else if 13 <= step < 23 {
        Some((EcamMachineState::Ready, (step - 13) as u8, ((step - 13) * 10) as u8))
    } else if 23 <= step < SIMULATION_STEPS {
        Some((EcamMachineState::Ready, 0u8, 0u8))
    } else {
        None
    }
}

/// The state that a caller sees at each step of the simulation: the machine
/// is working from the second step of its function to the last.
pub open spec fn simulated_state_spec(step: int) -> MachineState {
    if 0 <= step < 5 {
        MachineState::StandBy
    } else if 5 <= step < 10 {
        MachineState::TurningOn
    } else if 14 <= step < 23 {
        MachineState::Working
    } else {
        MachineState::Ready
    }
}

/// What the simulated machine reports at `step`, if the simulation lasts
/// that long.
pub fn simulated_reading(step: usize) -> (reading: Option<(EcamMachineState, u8, u8)>)
    ensures
        reading == simulated_reading_spec(step as int),
{
    if step < 5 {
        Some((EcamMachineState::StandBy, 0, 0))
    } else if step < 10 {
        let i: u8 = (step - 5) as u8;
        Some((EcamMachineState::TurningOn, 0, i * 20))
    } else if step < 13 {
        Some((EcamMachineState::Ready, 0, 0))
    } else if step < 23 {
        let i: u8 = (step - 13) as u8;
        Some((EcamMachineState::Ready, i, i * 10))
    } else if step < SIMULATION_STEPS {
        Some((EcamMachineState::Ready, 0, 0))
    } else {
        None
    }
}

/// The payload that the simulated machine sends at `step`, if the simulation
/// lasts that long.
pub fn simulated_packet(step: usize) -> (packet: Option<Vec<u8>>)
    ensures
        match packet {
            Some(bytes) => simulated_reading_spec(step as int) matches Some(reading)
                && bytes@ == simulated_response_spec(reading.0, reading.1, reading.2),
            None => simulated_reading_spec(step as int).is_none(),
        },
{
    match simulated_reading(step) {
        Some((state, progress, percentage)) => Some(
            make_simulated_response(state, progress, percentage),
        ),
        None => None,
    }
}

/// A simulated response decodes to the state it was built from: no
/// accessory, the progress and the percentage as given, and the state that
/// the machine's code and the progress together report.
pub proof fn lemma_simulated_response_decodes(state: EcamMachineState, progress: u8, percentage: u8)
    ensures
        Response::decode_spec(simulated_response_spec(state, progress, percentage)) == Ok::<
            ResponseView,
            DecodeError,
        >(
            ResponseView::State(
                MonitorStateView {
                    state: MachineState::effective_spec(state.code(), progress),
                    accessory: MachineEnum::Value(EcamAccessory::Absent),
                    progress,
                    percentage,
                    load0: 0,
                    load1: 0,
                    raw: simulated_response_spec(state, progress, percentage),
                },
            ),
        ),
{
    let data = simulated_response_spec(state, progress, percentage);
    assert(data.len() == 12);
    assert(data[0] == EcamRequestId::MonitorV2.code());
    assert(data[2] == 0);
    assert(data[7] == state.code());
    assert(data[8] == progress);
    assert(data[9] == percentage);
    assert(data[10] == 0);
    assert(data[11] == 0);
}

/// Every step of the simulation decodes to a machine state, and the states
/// follow the simulated run: standing by, turning on, ready, working while
/// the function's progress is not zero, and ready again.
pub proof fn lemma_simulation_decodes(step: int)
    requires
        0 <= step < SIMULATION_STEPS,
    ensures
        simulated_reading_spec(step) matches Some(reading) && Response::decode_spec(
            simulated_response_spec(reading.0, reading.1, reading.2),
        ) matches Ok(ResponseView::State(monitor)) && {
            &&& monitor.state == simulated_state_spec(step)
            &&& monitor.progress == reading.1
            &&& monitor.percentage == reading.2
        },
{
    let reading = simulated_reading_spec(step)->Some_0;
    lemma_simulated_response_decodes(reading.0, reading.1, reading.2);
}

} // verus!
