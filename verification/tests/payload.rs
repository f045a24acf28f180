use bench_link::command::Command;
use bench_link::frame::BatteryCommand;
use bench_link::payload::read_be_i16;
use bench_link::payload::whole_degrees;
use bench_link::payload::CompletionStatus;
use bench_link::payload::PayloadError;
use bench_link::payload::PingStatus;
use bench_link::payload::TelemetryReading;

fn command(command: Command, battery_id: u8) -> BatteryCommand {
    BatteryCommand { command, battery_id, payload: vec![] }
}

fn telemetry_payload(fields: [i16; 5], last: u8) -> Vec<u8> {
    let mut payload = Vec::new();
    for field in fields {
        payload.extend_from_slice(&field.to_be_bytes());
    }
    payload.push(last);
    payload
}

#[test]
fn request_data_reads_five_big_endian_fields() {
    let payload = telemetry_payload([100, 200, 300, 400, 500], 0);
    assert_eq!(payload.len(), 11);
    let reading = command(Command::RequestData, 9).parse_request_data(&payload).unwrap();
    assert_eq!(reading.battery_temperature as f32 / 100.0, 1.00);
    assert_eq!(reading.bench_temperature_mosfet as f32 / 100.0, 2.00);
    assert_eq!(reading.bench_temperature_resistor as f32 / 100.0, 3.00);
    assert_eq!(reading.load, 400);
    assert_eq!(reading.voltage, 400);
    assert_eq!(reading.current, 500);
    assert_eq!(reading.battery_id, 9);
}

#[test]
fn request_data_keeps_signs_and_ignores_the_last_byte() {
    let payload = telemetry_payload([-1, i16::MIN, i16::MAX, -400, 0], 0xEE);
    let reading = command(Command::RequestData, 1).parse_request_data(&payload).unwrap();
    assert_eq!(
        reading,
        TelemetryReading {
            battery_id: 1,
            battery_temperature: -1,
            bench_temperature_mosfet: i16::MIN,
            bench_temperature_resistor: i16::MAX,
            load: -400,
            voltage: -400,
            current: 0,
        }
    );
}

#[test]
fn request_data_wants_exactly_eleven_bytes() {
    let parser = command(Command::RequestData, 1);
    for len in [0usize, 1, 10, 12, 16] {
        assert_eq!(
            parser.parse_request_data(&vec![0u8; len]),
            Err(PayloadError::WrongLength { expected: 11, actual: len })
        );
    }
}

#[test]
fn parsers_refuse_another_command_before_they_look_at_the_length() {
    let ping = command(Command::Ping, 1);
    assert_eq!(
        ping.parse_request_data(&[0u8; 11]),
        Err(PayloadError::WrongCommandForPayload { wanted: Command::RequestData, found: Command::Ping })
    );
    assert_eq!(
        ping.parse_assign_id(&[]),
        Err(PayloadError::WrongCommandForPayload { wanted: Command::AssignId, found: Command::Ping })
    );
    assert_eq!(
        ping.parse_completion(&[1]),
        Err(PayloadError::WrongCommandForPayload {
            wanted: Command::RequestCompletion,
            found: Command::Ping
        })
    );
    assert_eq!(
        command(Command::SetCharge, 1).parse_ping_payload(&[1]),
        Err(PayloadError::WrongCommandForPayload { wanted: Command::Ping, found: Command::SetCharge })
    );
}

#[test]
fn assign_id_returns_its_one_byte() {
    let parser = command(Command::AssignId, 4);
    assert_eq!(parser.parse_assign_id(&[4]), Ok(4));
    assert_eq!(parser.parse_assign_id(&[200]), Ok(200));
    assert_eq!(
        parser.parse_assign_id(&[]),
        Err(PayloadError::WrongLength { expected: 1, actual: 0 })
    );
    assert_eq!(
        parser.parse_assign_id(&[4, 4]),
        Err(PayloadError::WrongLength { expected: 1, actual: 2 })
    );
}

#[test]
fn ping_returns_the_bench_status() {
    let parser = command(Command::Ping, 0);
    assert_eq!(parser.parse_ping_payload(&[0x5A]), Ok(PingStatus { bench_status: 0x5A }));
    assert_eq!(
        parser.parse_ping_payload(&[1, 2, 3]),
        Err(PayloadError::WrongLength { expected: 1, actual: 3 })
    );
}

#[test]
fn completion_reads_both_fields_from_one_byte() {
    let parser = command(Command::RequestCompletion, 0);
    assert_eq!(
        parser.parse_completion(&[0xC3]),
        Ok(CompletionStatus { bench_status: 0xC3, experiment_status: 0xC3 })
    );
    assert_eq!(
        parser.parse_completion(&[]),
        Err(PayloadError::WrongLength { expected: 1, actual: 0 })
    );
}

#[test]
fn big_endian_reads_agree_with_std() {
    assert_eq!(read_be_i16(0x00, 0x64), 100);
    assert_eq!(read_be_i16(0x01, 0xF4), 500);
    assert_eq!(read_be_i16(0xFF, 0xFF), -1);
    assert_eq!(read_be_i16(0x80, 0x00), i16::MIN);
    assert_eq!(read_be_i16(0x7F, 0xFF), i16::MAX);
    for high in 0..=255u8 {
        for low in [0u8, 1, 0x7F, 0x80, 0xFF] {
            assert_eq!(read_be_i16(high, low), i16::from_be_bytes([high, low]));
        }
    }
}

#[test]
fn whole_degrees_round_toward_zero() {
    assert_eq!(whole_degrees(0), 0);
    assert_eq!(whole_degrees(99), 0);
    assert_eq!(whole_degrees(100), 1);
    assert_eq!(whole_degrees(2550), 25);
    assert_eq!(whole_degrees(-99), 0);
    assert_eq!(whole_degrees(-100), -1);
    assert_eq!(whole_degrees(-199), -1);
    assert_eq!(whole_degrees(i16::MAX), 327);
    assert_eq!(whole_degrees(i16::MIN), -327);
    for hundredths in [-301i16, -1, 1, 150, 12345] {
        assert_eq!(whole_degrees(hundredths), (hundredths as f32 / 100.0) as i32);
    }
}
