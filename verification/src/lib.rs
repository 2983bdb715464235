//! Driver logic for the MAX11300 mixed-signal I/O expander (PIXI).
//!
//! The library holds what the driver decides: the register map and the
//! port configuration words, the SPI frames that read and write registers,
//! and the session that walks one driver operation through its pin and
//! bus steps. Performing those steps on real hardware is left to the caller.
use vstd::prelude::*;

pub mod config;
pub mod frame;
pub mod session;
pub mod port;

verus! {

/// Errors of the driver, generic over the SPI bus error `S` and the
/// enable (chip select) pin error `P`.
#[derive(Debug)]
pub enum Error<S, P> {
    /// SPI bus error
    Spi(S),
    /// CS pin error
    Pin(P),
    /// Connection error (device not found)
    Conn,
    /// Address error (invalid or out of bounds)
    Address,
    /// Port error (invalid or out of bounds)
    Port,
}

/// The SPI bus and the enable pin of one device.
pub struct MaxDriver<SPI, EN> {
    pub enable: EN,
    pub spi: SPI,
}

impl<SPI, EN> MaxDriver<SPI, EN> {
    /// Pairs a bus with the device's enable pin.
    pub fn new(spi: SPI, enable: EN) -> (driver: Self)
        ensures
            driver.spi == spi,
            driver.enable == enable,
    {
        Self { enable, spi }
    }
}

} // verus!
