use mcp4x::{Channel, Command};

const CHANNELS: [Channel; 3] = [Channel::Ch0, Channel::Ch1, Channel::All];

fn code(channel: Channel) -> u8 {
    match channel {
        Channel::Ch0 => 0b01,
        Channel::Ch1 => 0b10,
        Channel::All => 0b11,
    }
}

#[test]
fn can_set_position_ch0() {
    let cmd = Command::SetPosition(Channel::Ch0, 127);
    assert_eq!(0b0001_0001, cmd.get_command_byte());
    assert_eq!(127, cmd.get_data_byte());
}

#[test]
fn can_set_position_ch1() {
    let cmd = Command::SetPosition(Channel::Ch1, 127);
    assert_eq!(0b0001_0010, cmd.get_command_byte());
    assert_eq!(127, cmd.get_data_byte());
}

#[test]
fn can_shutdown_ch_0() {
    let cmd = Command::Shutdown(Channel::Ch0);
    assert_eq!(0b0010_0001, cmd.get_command_byte());
    assert_eq!(0, cmd.get_data_byte());
}

#[test]
fn can_shutdown_ch_1() {
    let cmd = Command::Shutdown(Channel::Ch1);
    assert_eq!(0b0010_0010, cmd.get_command_byte());
    assert_eq!(0, cmd.get_data_byte());
}

#[test]
fn set_position_encodes_every_channel_and_position() {
    for channel in CHANNELS {
        for position in 0..=255u8 {
            let cmd = Command::SetPosition(channel, position);
            assert_eq!(0b0001_0000 | code(channel), cmd.get_command_byte());
            assert_eq!(position, cmd.get_data_byte());
        }
    }
}

#[test]
fn shutdown_encodes_every_channel() {
    for channel in CHANNELS {
        let cmd = Command::Shutdown(channel);
        assert_eq!(0b0010_0000 | code(channel), cmd.get_command_byte());
        assert_eq!(0, cmd.get_data_byte());
    }
}

#[test]
fn channel_code_is_the_same_for_both_operations() {
    assert_eq!(0b0001_0011, Command::SetPosition(Channel::All, 0).get_command_byte());
    assert_eq!(0b0010_0011, Command::Shutdown(Channel::All).get_command_byte());
    for channel in CHANNELS {
        let set = Command::SetPosition(channel, 200).get_command_byte();
        let off = Command::Shutdown(channel).get_command_byte();
        assert_eq!(set & 0b1111, off & 0b1111);
        assert_eq!(code(channel), set & 0b0011);
        assert_eq!(0, set & 0b1100);
        assert_eq!(1, set >> 4);
        assert_eq!(2, off >> 4);
    }
}

#[test]
fn set_position_extreme_positions() {
    assert_eq!(0, Command::SetPosition(Channel::Ch1, 0).get_data_byte());
    assert_eq!(255, Command::SetPosition(Channel::Ch1, 255).get_data_byte());
    assert_eq!(0x12, Command::SetPosition(Channel::Ch1, 255).get_command_byte());
}
