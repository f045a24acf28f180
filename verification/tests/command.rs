use bench_link::command::Command;

const ALL: [Command; 7] = [
    Command::Ping,
    Command::AssignId,
    Command::RequestData,
    Command::SetCharge,
    Command::SetDischarge,
    Command::SetStandBy,
    Command::RequestCompletion,
];

#[test]
fn wire_ids_are_the_documented_ones() {
    assert_eq!(Command::Ping.id(), 0x00);
    assert_eq!(Command::AssignId.id(), 0x01);
    assert_eq!(Command::RequestData.id(), 0x02);
    assert_eq!(Command::SetCharge.id(), 0x04);
    assert_eq!(Command::SetDischarge.id(), 0x05);
    assert_eq!(Command::SetStandBy.id(), 0x06);
    assert_eq!(Command::RequestCompletion.id(), 0x07);
}

#[test]
fn from_id_inverts_id_for_every_command() {
    for command in ALL {
        assert_eq!(Command::from_id(command.id()), Some(command));
    }
}

#[test]
fn exactly_seven_bytes_name_a_command() {
    let mut known = 0;
    for id in 0..=255u8 {
        match Command::from_id(id) {
            Some(command) => {
                assert_eq!(command.id(), id);
                known += 1;
            }
            None => assert!(id == 0x03 || id > 0x07),
        }
    }
    assert_eq!(known, 7);
}

#[test]
fn reserved_id_names_no_command() {
    assert_eq!(Command::from_id(0x03), None);
    assert_eq!(Command::from_id(0x08), None);
    assert_eq!(Command::from_id(0xFF), None);
}

#[test]
fn response_lengths_are_fixed_per_command() {
    assert_eq!(Command::Ping.response_lenght(), 4);
    assert_eq!(Command::AssignId.response_lenght(), 4);
    assert_eq!(Command::SetCharge.response_lenght(), 4);
    assert_eq!(Command::SetDischarge.response_lenght(), 4);
    assert_eq!(Command::SetStandBy.response_lenght(), 4);
    assert_eq!(Command::RequestCompletion.response_lenght(), 5);
    assert_eq!(Command::RequestData.response_lenght(), 16);
}
