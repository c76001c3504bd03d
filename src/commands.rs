//! Encoding of commands into the two bytes sent on the bus.
use crate::Channel;
use vstd::prelude::*;

verus! {

/// A command for the potentiometer.
#[derive(Debug, Clone, Copy, PartialEq, Eq, Structural)]
pub enum Command {
    /// Set a channel to a position.
    SetPosition(Channel, u8),
    /// Shut a channel down.
    Shutdown(Channel),
}

impl Command {
    /// The channel the command addresses.
    pub open spec fn channel(self) -> Channel {
        match self {
            Command::SetPosition(channel, _) => channel,
            Command::Shutdown(channel) => channel,
        }
    }

    /// The operation code carried in the high nibble of the command byte.
    pub open spec fn kind(self) -> u8 {
        match self {
            Command::SetPosition(_, _) => 0b0001,
            Command::Shutdown(_) => 0b0010,
        }
    }

    /// The command byte: operation code in the high nibble, channel code in
    /// the low two bits.
    pub open spec fn command_byte(self) -> u8 {
        ((self.kind() << 4u8) | self.channel().code()) as u8
    }

    /// The data byte: the wiper position, or zero for a shutdown.
    pub open spec fn data_byte(self) -> u8 {
        match self {
            Command::SetPosition(_, position) => position,
            Command::Shutdown(_) => 0,
        }
    }

    /// The two bytes sent on the bus for this command.
    pub open spec fn payload(self) -> Seq<u8> {
        seq![self.command_byte(), self.data_byte()]
    }

    /// Encodes the command byte.
    pub fn get_command_byte(&self) -> (r: u8)
        ensures
            r == self.command_byte(),
    {
        match *self {
            Command::SetPosition(channel, _) => {
                let bits = channel.get_bits();
                assert((0b0001u8 << 4u8) | bits == 0b0001_0000u8 | bits) by (bit_vector);
                0b0001_0000 | bits
            },
            Command::Shutdown(channel) => {
                let bits = channel.get_bits();
                assert((0b0010u8 << 4u8) | bits == 0b0010_0000u8 | bits) by (bit_vector);
                0b0010_0000 | bits
            },
        }
    }

    /// Encodes the data byte.
    pub fn get_data_byte(&self) -> (r: u8)
        ensures
            r == self.data_byte(),
    {
        match *self {
            Command::SetPosition(_, position) => position,
            Command::Shutdown(_) => 0,
        }
    }
}

/// A position command carries `0b0001` in the high nibble and the channel
/// code in the low bits of the command byte, and the position, unchanged, in
/// the data byte.
pub proof fn lemma_set_position_encoding(channel: Channel, position: u8)
    ensures
        Command::SetPosition(channel, position).command_byte() == 0b0001_0000u8 | channel.code(),
        Command::SetPosition(channel, position).data_byte() == position,
        Command::SetPosition(channel, position).payload() == seq![
            0b0001_0000u8 | channel.code(),
            position,
        ],
{
    assert((0b0001u8 << 4u8) | channel.code() == 0b0001_0000u8 | channel.code()) by (bit_vector);
}

/// A shutdown command carries `0b0010` in the high nibble and the channel
/// code in the low bits of the command byte, and zero in the data byte.
pub proof fn lemma_shutdown_encoding(channel: Channel)
    ensures
        Command::Shutdown(channel).command_byte() == 0b0010_0000u8 | channel.code(),
        Command::Shutdown(channel).data_byte() == 0,
        Command::Shutdown(channel).payload() == seq![0b0010_0000u8 | channel.code(), 0u8],
{
    assert((0b0010u8 << 4u8) | channel.code() == 0b0010_0000u8 | channel.code()) by (bit_vector);
}

/// The channel codes are `0b01`, `0b10` and `0b11`, one per channel, and
/// every command byte can be read back: its high nibble is the operation
/// code, its low two bits are the channel code and the two bits between
/// are zero.
pub proof fn lemma_command_byte_fields(cmd: Command, other: Channel)
    ensures
        Channel::Ch0.code() == 0b01,
        Channel::Ch1.code() == 0b10,
        Channel::All.code() == 0b11,
        other != cmd.channel() ==> other.code() != cmd.channel().code(),
        cmd.command_byte() >> 4u8 == cmd.kind(),
        cmd.command_byte() & 0b0011u8 == cmd.channel().code(),
        cmd.command_byte() & 0b1100u8 == 0,
{
    let k = cmd.kind();
    let c = cmd.channel().code();
    assert(1 <= k <= 2 && 1 <= c <= 3);
    assert(1u8 <= k <= 2u8 && 1u8 <= c <= 3u8 ==> {
        &&& ((k << 4u8) | c) >> 4u8 == k
        &&& ((k << 4u8) | c) & 0b0011u8 == c
        &&& ((k << 4u8) | c) & 0b1100u8 == 0
    }) by (bit_vector);
}

} // verus!
