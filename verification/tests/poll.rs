use bench_link::bench::Battery;
use bench_link::bench::BatteryState;
use bench_link::bench::Bench;
use bench_link::command::Command;
use bench_link::exchange::ProtocolError;
use bench_link::exchange::TransportError;
use bench_link::frame::BatteryCommand;
use bench_link::frame::FrameError;
use bench_link::payload::TelemetryReading;
use bench_link::poll::PollReport;
use bench_link::poll::PollState;
use bench_link::poll::Reply;

fn bench_with(ids: &[u8]) -> Bench {
    let mut bench = Bench::new(String::from("/dev/ttyUSB0"));
    for id in ids {
        assert!(bench.add_battery(*id));
    }
    bench
}

fn telemetry_frame(battery_id: u8, fields: [i16; 5]) -> Vec<u8> {
    let mut payload = Vec::new();
    for field in fields {
        payload.extend_from_slice(&field.to_be_bytes());
    }
    payload.push(0);
    BatteryCommand { command: Command::RequestData, battery_id, payload }.encode()
}

fn assign_frame(candidate: u8, confirmed: u8) -> Vec<u8> {
    BatteryCommand { command: Command::AssignId, battery_id: candidate, payload: vec![confirmed] }
        .encode()
}

fn sample(battery_id: u8, fields: [i16; 5]) -> TelemetryReading {
    TelemetryReading {
        battery_id,
        battery_temperature: fields[0],
        bench_temperature_mosfet: fields[1],
        bench_temperature_resistor: fields[2],
        load: fields[3] as i32,
        voltage: fields[3] as i32,
        current: fields[4] as i32,
    }
}

#[test]
fn a_failure_on_the_second_battery_leaves_the_first_reading_alone() {
    let mut bench = bench_with(&[1, 2]);
    let first = telemetry_frame(1, [2500, 3000, 3100, 40, 50]);
    let replies: [Reply; 2] = [Ok(&first), Err(TransportError::ReadFailed)];
    let reports = bench.complete_sequence(&replies);
    assert_eq!(
        reports,
        vec![
            PollReport::Reading { battery_id: 1, reading: Ok(sample(1, [2500, 3000, 3100, 40, 50])) },
            PollReport::Reading {
                battery_id: 2,
                reading: Err(ProtocolError::Transport(TransportError::ReadFailed)),
            },
        ]
    );
    assert_eq!(bench.batteries().len(), 2);
}

#[test]
fn a_failure_on_the_first_battery_does_not_stop_the_second() {
    let mut bench = bench_with(&[1, 2]);
    let second = telemetry_frame(2, [1, 2, 3, 4, 5]);
    let replies: [Reply; 3] =
        [Err(TransportError::WriteFailed), Ok(&second), Err(TransportError::OpenFailed)];
    let reports = bench.complete_sequence(&replies);
    assert_eq!(
        reports,
        vec![
            PollReport::Reading {
                battery_id: 1,
                reading: Err(ProtocolError::Transport(TransportError::WriteFailed)),
            },
            PollReport::Reading { battery_id: 2, reading: Ok(sample(2, [1, 2, 3, 4, 5])) },
            PollReport::Assignment {
                candidate: 3,
                confirmed: Err(ProtocolError::Transport(TransportError::OpenFailed)),
                added: false,
            },
        ]
    );
    assert_eq!(bench.batteries().len(), 2);
}

#[test]
fn a_cycle_steps_through_the_batteries_and_then_offers_an_id() {
    let mut bench = bench_with(&[1, 2]);
    let state = bench.start_sequence();
    assert_eq!(state, PollState::Polling { index: 0 });
    assert_eq!(
        bench.sequence_request(state),
        Some(BatteryCommand { command: Command::RequestData, battery_id: 1, payload: vec![0; 12] })
    );

    let frame = telemetry_frame(1, [100, 200, 300, 400, 500]);
    let (report, state) = bench.complete_sequence_step(state, Ok(&frame));
    assert_eq!(
        report,
        PollReport::Reading { battery_id: 1, reading: Ok(sample(1, [100, 200, 300, 400, 500])) }
    );
    assert_eq!(state, PollState::Polling { index: 1 });

    let (report, state) = bench.complete_sequence_step(state, Err(TransportError::ReadFailed));
    assert_eq!(
        report,
        PollReport::Reading {
            battery_id: 2,
            reading: Err(ProtocolError::Transport(TransportError::ReadFailed)),
        }
    );
    assert_eq!(state, PollState::Assigning { candidate: 3 });
    assert_eq!(
        bench.sequence_request(state),
        Some(BatteryCommand { command: Command::AssignId, battery_id: 3, payload: vec![] })
    );

    let frame = assign_frame(3, 3);
    let (report, state) = bench.complete_sequence_step(state, Ok(&frame));
    assert_eq!(report, PollReport::Assignment { candidate: 3, confirmed: Ok(3), added: true });
    assert_eq!(state, PollState::Done);
    assert_eq!(bench.sequence_request(state), None);
    assert_eq!(
        bench.batteries().last(),
        Some(&Battery { id: 3, state: BatteryState::Standby })
    );

    let (report, state) = bench.complete_sequence_step(state, Ok(&frame));
    assert_eq!(report, PollReport::Nothing);
    assert_eq!(state, PollState::Done);
}

#[test]
fn an_empty_bench_goes_straight_to_the_offer() {
    let mut bench = bench_with(&[]);
    assert_eq!(bench.start_sequence(), PollState::Assigning { candidate: 1 });
    let frame = assign_frame(1, 1);
    let reports = bench.complete_sequence(&[Ok(&frame)]);
    assert_eq!(reports, vec![PollReport::Assignment { candidate: 1, confirmed: Ok(1), added: true }]);
    assert_eq!(bench.batteries(), &[Battery { id: 1, state: BatteryState::Standby }]);
}

#[test]
fn a_full_bench_offers_no_id() {
    let mut bench = bench_with(&[1, 2, 3, 4]);
    let frames: Vec<Vec<u8>> = (1..=4).map(|id| telemetry_frame(id, [0, 0, 0, 0, 0])).collect();
    let spare = assign_frame(5, 5);
    let mut replies: Vec<Reply> = frames.iter().map(|frame| Ok(frame.as_slice())).collect();
    replies.push(Ok(&spare));
    let reports = bench.complete_sequence(&replies);
    assert_eq!(reports.len(), 4);
    for (index, report) in reports.iter().enumerate() {
        let id = index as u8 + 1;
        assert_eq!(
            *report,
            PollReport::Reading { battery_id: id, reading: Ok(sample(id, [0, 0, 0, 0, 0])) }
        );
    }
    assert_eq!(bench.batteries().len(), 4);
}

#[test]
fn a_confirmed_id_that_is_in_use_adds_no_battery() {
    let mut bench = bench_with(&[]);
    assert!(bench.add_battery(7));
    let state = PollState::Assigning { candidate: 1 };
    let frame = assign_frame(1, 7);
    let (report, state) = bench.complete_sequence_step(state, Ok(&frame));
    assert_eq!(report, PollReport::Assignment { candidate: 1, confirmed: Ok(7), added: false });
    assert_eq!(state, PollState::Done);
    assert_eq!(bench.batteries().len(), 1);
}

#[test]
fn a_reply_of_another_battery_is_a_failure_of_the_one_polled() {
    let mut bench = bench_with(&[1, 2]);
    let foreign = telemetry_frame(2, [1, 1, 1, 1, 1]);
    let own = telemetry_frame(2, [1, 1, 1, 1, 1]);
    let reports = bench.complete_sequence(&[Ok(&foreign), Ok(&own)]);
    assert_eq!(
        reports,
        vec![
            PollReport::Reading {
                battery_id: 1,
                reading: Err(ProtocolError::ResponseMismatch {
                    expected_command: Command::RequestData,
                    expected_battery_id: 1,
                    actual_command: Command::RequestData,
                    actual_battery_id: 2,
                }),
            },
            PollReport::Reading { battery_id: 2, reading: Ok(sample(2, [1, 1, 1, 1, 1])) },
        ]
    );
}

#[test]
fn a_cycle_stops_where_the_replies_run_out() {
    let mut bench = bench_with(&[1, 2, 3]);
    let reports = bench.complete_sequence(&[Ok(&[0xB3])]);
    assert_eq!(
        reports,
        vec![PollReport::Reading {
            battery_id: 1,
            reading: Err(ProtocolError::Frame(FrameError::TooShort)),
        }]
    );
    assert!(bench.complete_sequence(&[]).is_empty());
}

#[test]
fn a_state_beyond_the_batteries_ends_the_cycle() {
    let mut bench = bench_with(&[1]);
    let state = PollState::Polling { index: 5 };
    assert_eq!(bench.sequence_request(state), None);
    let (report, state) = bench.complete_sequence_step(state, Err(TransportError::ReadFailed));
    assert_eq!(report, PollReport::Nothing);
    assert_eq!(state, PollState::Done);
}
