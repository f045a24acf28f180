use bench_link::command::Command;
use bench_link::exchange::TransportError;
use bench_link::frame::BatteryCommand;
use bench_link::hex::format_hex;
use bench_link::poll::CYCLE_PERIOD_MS;
use bench_link::transport::is_plausible_response;
use bench_link::transport::next_action;
use bench_link::transport::probe_command;
use bench_link::transport::LineAction;
use bench_link::transport::LineEvent;
use bench_link::transport::BAUD_RATE;
use bench_link::transport::READ_TIMEOUT_MS;
use bench_link::transport::RETRY_BACKOFF_MS;

#[test]
fn line_settings_are_the_fixed_ones() {
    assert_eq!(BAUD_RATE, 9600);
    assert_eq!(READ_TIMEOUT_MS, 100);
    assert_eq!(RETRY_BACKOFF_MS, 333);
    assert_eq!(CYCLE_PERIOD_MS, 1000);
}

#[test]
fn an_exchange_writes_then_reads_then_delivers() {
    assert_eq!(next_action(LineEvent::Opened), LineAction::Write);
    assert_eq!(next_action(LineEvent::Written), LineAction::Read);
    assert_eq!(next_action(LineEvent::ReadComplete), LineAction::Deliver);
}

#[test]
fn a_timeout_is_retried_after_the_backoff() {
    assert_eq!(next_action(LineEvent::ReadTimedOut), LineAction::PauseThenRead { millis: 333 });
}

#[test]
fn every_other_failure_ends_the_exchange() {
    assert_eq!(next_action(LineEvent::OpenRefused), LineAction::GiveUp(TransportError::OpenFailed));
    assert_eq!(next_action(LineEvent::WriteRefused), LineAction::GiveUp(TransportError::WriteFailed));
    assert_eq!(next_action(LineEvent::ReadRefused), LineAction::GiveUp(TransportError::ReadFailed));
}

#[test]
fn the_probe_goes_to_battery_two_with_one_byte() {
    assert_eq!(
        probe_command(Command::Ping),
        BatteryCommand { command: Command::Ping, battery_id: 0x02, payload: vec![0x3B] }
    );
}

#[test]
fn a_plausible_response_opens_with_the_delimiter() {
    assert!(is_plausible_response(&[0xB3, 0x00, 0x02, 0x11]));
    assert!(is_plausible_response(&[0xB3, 0x00, 0x02]));
    assert!(!is_plausible_response(&[0xB3, 0x00]));
    assert!(!is_plausible_response(&[]));
    assert!(!is_plausible_response(&[0x00, 0x00, 0x02, 0x11]));
}

#[test]
fn format_hex_writes_bytes_with_commas() {
    assert_eq!(format_hex(&[]), "");
    assert_eq!(format_hex(&[0x00]), "0x00");
    assert_eq!(format_hex(&[0xB3, 0x00, 0x23]), "0xB3, 0x00, 0x23");
    assert_eq!(format_hex(&[0x0A, 0xF0, 0xFF, 0x9C]), "0x0A, 0xF0, 0xFF, 0x9C");
}

#[test]
fn format_hex_agrees_with_std_on_every_byte() {
    for byte in 0..=255u8 {
        assert_eq!(format_hex(&[byte]), format!("0x{:02X}", byte));
    }
}
