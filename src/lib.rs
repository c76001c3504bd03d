//! Driver for the MCP41xxx and MCP42xxx SPI digital potentiometers.
//!
//! Each operation validates the requested channel against the device
//! variant, encodes a two-byte command and hands it to the SPI device in a
//! single write.
use core::marker::PhantomData;
use vstd::prelude::*;

mod commands;
pub mod ic;
pub mod interface;
mod device_impl;
mod private;

pub use crate::device_impl::{
    forward_outcome, lemma_dual_channel_accepts_all, lemma_repeated_command, lemma_single_channel_refuses_ch1,
    CheckChannel,
};

/// SPI mode the devices use.
pub use embedded_hal::spi::MODE_0 as MODE;

pub use crate::commands::{
    lemma_command_byte_fields, lemma_set_position_encoding, lemma_shutdown_encoding, Command,
};

verus! {

/// All possible errors of this driver.
#[derive(Debug)]
pub enum Error<CommE> {
    /// The SPI device failed the transfer.
    Comm(CommE),
    /// The channel is not available on this device.
    WrongChannel,
}

/// Channel selector.
#[derive(Debug, Clone, Copy, PartialEq, Eq, Structural)]
pub enum Channel {
    /// Channel 0.
    Ch0,
    /// Channel 1 (MCP42XXX only).
    Ch1,
    /// All channels at once.
    All,
}

impl Channel {
    /// The two-bit code that selects this channel in a command byte.
    pub open spec fn code(self) -> u8 {
        match self {
            Channel::Ch0 => 0b01,
            Channel::Ch1 => 0b10,
            Channel::All => 0b11,
        }
    }

    pub(crate) fn get_bits(self) -> (r: u8)
        ensures
            r == self.code(),
    {
        match self {
            Channel::Ch0 => 1,
            Channel::Ch1 => 2,
            Channel::All => 3,
        }
    }
}

/// MCP4x digital potentiometer driver.
///
/// `DI` is the interface the commands are written through and `IC` the
/// device variant, which decides the channels that are accepted. A failed
/// transfer is reported as `Error::Comm` with the SPI device's error kind.
#[derive(Debug)]
pub struct Mcp4x<DI, IC> {
    iface: DI,
    _ic: PhantomData<IC>,
}

} // verus!
