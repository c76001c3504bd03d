//! Device implementation.
use crate::interface::SpiInterface;
use crate::{ic, private, Channel, Command, Error, Mcp4x};
use core::marker::PhantomData;
use embedded_hal::spi::{ErrorKind, SpiDevice};
use vstd::prelude::*;

verus! {

/// Decides which channels a device variant accepts.
pub trait CheckChannel<CommE>: private::Sealed {
    /// Whether the device variant has `channel`.
    spec fn has_channel(channel: Channel) -> bool;

    /// Succeeds when the device variant has `channel`, and otherwise fails
    /// with `Error::WrongChannel`.
    fn check_if_channel_is_appropriate(channel: Channel) -> (r: Result<(), Error<CommE>>)
        ensures
            match r {
                Ok(()) => Self::has_channel(channel),
                Err(e) => !Self::has_channel(channel) && e is WrongChannel,
            },
    ;
}

/// The single-channel device accepts channel 0, and also the selector for
/// all channels, which on this device addresses channel 0 alone. Channel 1
/// is refused.
///
/// Whether a single-channel device should accept the all-channels selector
/// is an open question: a stricter policy would accept channel 0 only. This
/// driver keeps the lenient policy, so that code written for either device
/// family can address "all channels" on any of them.
impl<CommE> CheckChannel<CommE> for ic::Mcp41x {
    open spec fn has_channel(channel: Channel) -> bool {
        channel == Channel::Ch0 || channel == Channel::All
    }

    fn check_if_channel_is_appropriate(channel: Channel) -> (r: Result<(), Error<CommE>>) {
        if channel == Channel::Ch0 || channel == Channel::All {
            Ok(())
        } else {
            Err(Error::WrongChannel)
        }
    }
}

/// The dual-channel device accepts every channel.
impl<CommE> CheckChannel<CommE> for ic::Mcp42x {
    open spec fn has_channel(channel: Channel) -> bool {
        true
    }

    fn check_if_channel_is_appropriate(channel: Channel) -> (r: Result<(), Error<CommE>>) {
        Ok(())
    }
}

/// Turns the SPI device's outcome into the driver's: success stays success,
/// and a failure is reported as `Error::Comm` carrying the device's error.
pub fn forward_outcome<CommE>(outcome: Result<(), CommE>) -> (r: Result<(), Error<CommE>>)
    ensures
        match outcome {
            Ok(()) => r is Ok,
            Err(e) => r == Err::<(), Error<CommE>>(Error::Comm(e)),
        },
{
    match outcome {
        Ok(()) => Ok(()),
        Err(e) => Err(Error::Comm(e)),
    }
}

impl<SPI, IC> Mcp4x<SpiInterface<SPI>, IC> {
    /// The payloads handed to the SPI device so far, oldest first.
    pub closed spec fn written(self) -> Seq<Seq<u8>> {
        self.iface.written()
    }

    /// The SPI device the driver owns.
    pub closed spec fn device(self) -> SPI {
        self.iface.device()
    }
}

impl<SPI, IC: CheckChannel<ErrorKind>> Mcp4x<SpiInterface<SPI>, IC> {
    /// The effect of handing `cmd` to the driver in state `self`, which ends
    /// in state `next` with outcome `r`. A channel that the device variant
    /// lacks is refused with `Error::WrongChannel` and nothing changes.
    /// Otherwise the command's two bytes are written in one transfer, and the
    /// only possible failure is the one the SPI device reports.
    pub open spec fn issues(self, cmd: Command, next: Self, r: Result<(), Error<ErrorKind>>) -> bool {
        if IC::has_channel(cmd.channel()) {
            &&& next.written() == self.written().push(cmd.payload())
            &&& (r is Ok || r matches Err(Error::Comm(_)))
        } else {
            &&& next == self
            &&& r matches Err(Error::WrongChannel)
        }
    }
}

impl<SPI: SpiDevice, IC: CheckChannel<ErrorKind>> Mcp4x<SpiInterface<SPI>, IC> {
    /// Validates the command's channel, then writes the command.
    fn issue(&mut self, cmd: Command) -> (r: Result<(), Error<ErrorKind>>)
        ensures
            old(self).issues(cmd, *final(self), r),
    {
        let channel = match cmd {
            Command::SetPosition(channel, _) => channel,
            Command::Shutdown(channel) => channel,
        };
        match IC::check_if_channel_is_appropriate(channel) {
            Ok(()) => {},
            Err(e) => {
                return Err(e);
            },
        }
        let outcome = self.iface.write_command(cmd.get_command_byte(), cmd.get_data_byte());
        forward_outcome(outcome)
    }

    /// Sets a channel to a position.
    ///
    /// Returns `Error::WrongChannel`, and writes nothing, if the device does
    /// not have the channel.
    pub fn set_position(&mut self, channel: Channel, position: u8) -> (r: Result<(), Error<ErrorKind>>)
        ensures
            old(self).issues(Command::SetPosition(channel, position), *final(self), r),
    {
        self.issue(Command::SetPosition(channel, position))
    }

    /// Shuts a channel down.
    ///
    /// Returns `Error::WrongChannel`, and writes nothing, if the device does
    /// not have the channel.
    pub fn shutdown(&mut self, channel: Channel) -> (r: Result<(), Error<ErrorKind>>)
        ensures
            old(self).issues(Command::Shutdown(channel), *final(self), r),
    {
        self.issue(Command::Shutdown(channel))
    }
}

impl<SPI> Mcp4x<SpiInterface<SPI>, ic::Mcp41x> {
    /// Creates a driver for an MCP41XXX device.
    pub fn new_mcp41x(spi: SPI) -> (r: Self)
        ensures
            r.device() == spi,
            r.written() == Seq::<Seq<u8>>::empty(),
    {
        Mcp4x { iface: SpiInterface::new(spi), _ic: PhantomData }
    }

    /// Destroys the driver and gives the SPI device back.
    pub fn destroy_mcp41x(self) -> (r: SPI)
        ensures
            r == self.device(),
    {
        self.iface.release()
    }
}

impl<SPI> Mcp4x<SpiInterface<SPI>, ic::Mcp42x> {
    /// Creates a driver for an MCP42XXX device.
    pub fn new_mcp42x(spi: SPI) -> (r: Self)
        ensures
            r.device() == spi,
            r.written() == Seq::<Seq<u8>>::empty(),
    {
        Mcp4x { iface: SpiInterface::new(spi), _ic: PhantomData }
    }

    /// Destroys the driver and gives the SPI device back.
    pub fn destroy_mcp42x(self) -> (r: SPI)
        ensures
            r == self.device(),
    {
        self.iface.release()
    }
}

/// On the single-channel device every command for channel 1 is refused with
/// `Error::WrongChannel`, whatever its position, and nothing is written.
pub proof fn lemma_single_channel_refuses_ch1<SPI>(
    h0: Mcp4x<SpiInterface<SPI>, ic::Mcp41x>,
    h1: Mcp4x<SpiInterface<SPI>, ic::Mcp41x>,
    cmd: Command,
    r: Result<(), Error<ErrorKind>>,
)
    requires
        h0.issues(cmd, h1, r),
        cmd.channel() == Channel::Ch1,
    ensures
        r matches Err(Error::WrongChannel),
        h1 == h0,
{
}

/// On the dual-channel device no channel is refused: every command writes
/// its two bytes once, and the only possible failure is the SPI device's.
pub proof fn lemma_dual_channel_accepts_all<SPI>(
    h0: Mcp4x<SpiInterface<SPI>, ic::Mcp42x>,
    h1: Mcp4x<SpiInterface<SPI>, ic::Mcp42x>,
    cmd: Command,
    r: Result<(), Error<ErrorKind>>,
)
    requires
        h0.issues(cmd, h1, r),
    ensures
        h1.written() == h0.written().push(cmd.payload()),
        r is Ok || r matches Err(Error::Comm(_)),
{
}

/// Handing the same command to the driver twice writes the same two bytes
/// twice and changes nothing else between the calls: either both calls are
/// refused and the driver is left as it was, or both write the command's
/// payload.
pub proof fn lemma_repeated_command<SPI, IC: CheckChannel<ErrorKind>>(
    h0: Mcp4x<SpiInterface<SPI>, IC>,
    h1: Mcp4x<SpiInterface<SPI>, IC>,
    h2: Mcp4x<SpiInterface<SPI>, IC>,
    cmd: Command,
    r1: Result<(), Error<ErrorKind>>,
    r2: Result<(), Error<ErrorKind>>,
)
    requires
        h0.issues(cmd, h1, r1),
        h1.issues(cmd, h2, r2),
    ensures
        r1 matches Err(Error::WrongChannel) <==> r2 matches Err(Error::WrongChannel),
        IC::has_channel(cmd.channel()) ==> h2.written() == h0.written() + seq![cmd.payload(), cmd.payload()],
        !IC::has_channel(cmd.channel()) ==> h2 == h0,
{
    if IC::has_channel(cmd.channel()) {
        assert(h2.written() =~= h0.written() + seq![cmd.payload(), cmd.payload()]);
    }
}

} // verus!
