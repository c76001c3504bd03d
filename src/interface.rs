//! SPI interface.
use embedded_hal::spi::{ErrorKind, SpiDevice};
use vstd::prelude::*;

verus! {

/// The error kinds that embedded_hal defines for SPI devices.
#[verifier::external_type_specification]
#[verifier::external_body]
pub struct ExErrorKind(ErrorKind);

/// SPI interface: owns the SPI device that the commands are written to.
pub struct SpiInterface<SPI> {
    spi: SPI,
    /// Every payload handed to the SPI device, oldest first.
    written: Ghost<Seq<Seq<u8>>>,
}

/// Relies on embedded_hal's `SpiDevice::write`, which writes the bytes in a
/// single transaction on the interface's SPI device, and on
/// `spi::Error::kind`, which reports a failure as one of the common error
/// kinds. The record of written payloads gains `payload`; nothing is promised
/// of the outcome.
#[verifier::external_body]
fn spi_write<SPI: SpiDevice>(iface: &mut SpiInterface<SPI>, payload: &[u8; 2]) -> (r: Result<(), ErrorKind>)
    ensures
        final(iface).written() == old(iface).written().push(payload@),
{
    match iface.spi.write(payload) {
        Ok(()) => Ok(()),
        Err(e) => Err(embedded_hal::spi::Error::kind(&e)),
    }
}

impl<SPI> SpiInterface<SPI> {
    /// The payloads handed to the SPI device so far, oldest first.
    pub closed spec fn written(&self) -> Seq<Seq<u8>> {
        self.written@
    }

    /// The SPI device this interface owns.
    pub closed spec fn device(&self) -> SPI {
        self.spi
    }

    /// Takes ownership of an SPI device; nothing has been written yet.
    pub(crate) fn new(spi: SPI) -> (r: Self)
        ensures
            r.device() == spi,
            r.written() == Seq::<Seq<u8>>::empty(),
    {
        SpiInterface { spi, written: Ghost(Seq::empty()) }
    }

    /// Gives the SPI device back.
    pub(crate) fn release(self) -> (r: SPI)
        ensures
            r == self.device(),
    {
        self.spi
    }
}

impl<SPI: SpiDevice> SpiInterface<SPI> {
    /// Writes the command byte followed by the data byte in one transfer.
    pub fn write_command(&mut self, command: u8, data: u8) -> (r: Result<(), ErrorKind>)
        ensures
            final(self).written() == old(self).written().push(seq![command, data]),
    {
        let payload: [u8; 2] = [command, data];
        let r = spi_write(self, &payload);
        assert(payload@ =~= seq![command, data]);
        r
    }
}

} // verus!
