//! Register map, port numbering and the configuration words of the device.
use vstd::prelude::*;

use vstd::arithmetic::div_mod::lemma_fundamental_div_mod_converse;
use vstd::arithmetic::power2::{lemma2_to64, pow2};

verus! {

/// Value of the device identification register.
pub const DEVICE_ID: u16 = 0x0424;
/// Highest register address of the device.
pub const MAX_ADDRESS: u8 = 0x73;
/// Device identification register.
pub const REG_DEVICE_ID: u8 = 0x00;
/// Device control register.
pub const REG_DEVICE_CTRL: u8 = 0x10;
/// Configuration register of port 0; port `n` is configured at `REG_PORT_CONFIG + n`.
pub const REG_PORT_CONFIG: u8 = 0x20;
/// ADC data register of port 0; port `n` is read at `REG_ADC_DATA + n`.
pub const REG_ADC_DATA: u8 = 0x40;
/// DAC data register of port 0; port `n` is written at `REG_DAC_DATA + n`.
pub const REG_DAC_DATA: u8 = 0x60;

/// One of the twenty mixed-signal ports.
#[derive(Clone, Copy, Debug, PartialEq, Eq)]
pub enum Port {
    P0,
    P1,
    P2,
    P3,
    P4,
    P5,
    P6,
    P7,
    P8,
    P9,
    P10,
    P11,
    P12,
    P13,
    P14,
    P15,
    P16,
    P17,
    P18,
    P19,
}

impl Port {
    /// The port's number, 0 to 19.
    pub open spec fn number(self) -> u8 {
        match self {
            Port::P0 => 0,
            Port::P1 => 1,
            Port::P2 => 2,
            Port::P3 => 3,
            Port::P4 => 4,
            Port::P5 => 5,
            Port::P6 => 6,
            Port::P7 => 7,
            Port::P8 => 8,
            Port::P9 => 9,
            Port::P10 => 10,
            Port::P11 => 11,
            Port::P12 => 12,
            Port::P13 => 13,
            Port::P14 => 14,
            Port::P15 => 15,
            Port::P16 => 16,
            Port::P17 => 17,
            Port::P18 => 18,
            Port::P19 => 19,
        }
    }

    /// Address of the port's configuration register.
    pub open spec fn config_addr(self) -> u8 {
        (REG_PORT_CONFIG + self.number()) as u8
    }

    /// The port's number, 0 to 19.
    pub fn as_u8(self) -> (n: u8)
        ensures
            n == self.number(),
            n < 20,
    {
        match self {
            Port::P0 => 0,
            Port::P1 => 1,
            Port::P2 => 2,
            Port::P3 => 3,
            Port::P4 => 4,
            Port::P5 => 5,
            Port::P6 => 6,
            Port::P7 => 7,
            Port::P8 => 8,
            Port::P9 => 9,
            Port::P10 => 10,
            Port::P11 => 11,
            Port::P12 => 12,
            Port::P13 => 13,
            Port::P14 => 14,
            Port::P15 => 15,
            Port::P16 => 16,
            Port::P17 => 17,
            Port::P18 => 18,
            Port::P19 => 19,
        }
    }

    /// Address of the port's configuration register.
    pub fn as_config_addr(self) -> (addr: u8)
        ensures
            addr == self.config_addr(),
            addr == REG_PORT_CONFIG + self.number(),
    {
        REG_PORT_CONFIG + self.as_u8()
    }
}

/// Voltage range of a port driven by the DAC.
#[allow(non_camel_case_types)]
#[derive(Clone, Copy, Debug, PartialEq, Eq)]
pub enum DACRANGE {
    /// 0 V to +10 V
    Rg0_10v,
    /// -5 V to +5 V
    RgNeg5_5v,
    /// -10 V to 0 V
    RgNeg10_0v,
}

impl DACRANGE {
    /// The range field of the port configuration word.
    pub open spec fn bits(self) -> u16 {
        match self {
            DACRANGE::Rg0_10v => 1,
            DACRANGE::RgNeg5_5v => 2,
            DACRANGE::RgNeg10_0v => 3,
        }
    }

    /// The range field of the port configuration word.
    pub fn as_u16(self) -> (b: u16)
        ensures
            b == self.bits(),
            b <= 7,
    {
        match self {
            DACRANGE::Rg0_10v => 1,
            DACRANGE::RgNeg5_5v => 2,
            DACRANGE::RgNeg10_0v => 3,
        }
    }
}

/// Voltage range of a port read by the ADC.
#[allow(non_camel_case_types)]
#[derive(Clone, Copy, Debug, PartialEq, Eq)]
pub enum ADCRANGE {
    /// 0 V to +10 V
    Rg0_10v,
    /// -5 V to +5 V
    RgNeg5_5v,
    /// -10 V to 0 V
    RgNeg10_0v,
    /// 0 V to +2.5 V
    Rg0_2v5,
}

impl ADCRANGE {
    /// The range field of the port configuration word.
    pub open spec fn bits(self) -> u16 {
        match self {
            ADCRANGE::Rg0_10v => 1,
            ADCRANGE::RgNeg5_5v => 2,
            ADCRANGE::RgNeg10_0v => 3,
            ADCRANGE::Rg0_2v5 => 4,
        }
    }

    /// The range field of the port configuration word.
    pub fn as_u16(self) -> (b: u16)
        ensures
            b == self.bits(),
            b <= 7,
    {
        match self {
            ADCRANGE::Rg0_10v => 1,
            ADCRANGE::RgNeg5_5v => 2,
            ADCRANGE::RgNeg10_0v => 3,
            ADCRANGE::Rg0_2v5 => 4,
        }
    }
}

/// Voltage reference of the ADC.
#[derive(Clone, Copy, Debug, PartialEq, Eq)]
pub enum AVR {
    InternalRef,
    ExternalRef,
}

impl AVR {
    /// The reference bit of the port configuration word.
    pub open spec fn bits(self) -> u16 {
        match self {
            AVR::InternalRef => 0,
            AVR::ExternalRef => 1,
        }
    }

    /// The reference bit of the port configuration word.
    pub fn as_u16(self) -> (b: u16)
        ensures
            b == self.bits(),
            b <= 1,
    {
        match self {
            AVR::InternalRef => 0,
            AVR::ExternalRef => 1,
        }
    }
}

/// Number of ADC samples averaged per result.
#[derive(Clone, Copy, Debug, PartialEq, Eq)]
pub enum NSAMPLES {
    Samples1,
    Samples2,
    Samples4,
    Samples8,
    Samples16,
    Samples32,
    Samples64,
    Samples128,
}

impl NSAMPLES {
    /// How many samples are averaged.
    pub open spec fn count(self) -> nat {
        match self {
            NSAMPLES::Samples1 => 1,
            NSAMPLES::Samples2 => 2,
            NSAMPLES::Samples4 => 4,
            NSAMPLES::Samples8 => 8,
            NSAMPLES::Samples16 => 16,
            NSAMPLES::Samples32 => 32,
            NSAMPLES::Samples64 => 64,
            NSAMPLES::Samples128 => 128,
        }
    }

    /// The sample-count field of the port configuration word.
    pub open spec fn bits(self) -> u16 {
        match self {
            NSAMPLES::Samples1 => 0,
            NSAMPLES::Samples2 => 1,
            NSAMPLES::Samples4 => 2,
            NSAMPLES::Samples8 => 3,
            NSAMPLES::Samples16 => 4,
            NSAMPLES::Samples32 => 5,
            NSAMPLES::Samples64 => 6,
            NSAMPLES::Samples128 => 7,
        }
    }

    /// The sample-count field of the port configuration word.
    pub fn as_u16(self) -> (b: u16)
        ensures
            b == self.bits(),
            b <= 7,
    {
        match self {
            NSAMPLES::Samples1 => 0,
            NSAMPLES::Samples2 => 1,
            NSAMPLES::Samples4 => 2,
            NSAMPLES::Samples8 => 3,
            NSAMPLES::Samples16 => 4,
            NSAMPLES::Samples32 => 5,
            NSAMPLES::Samples64 => 6,
            NSAMPLES::Samples128 => 7,
        }
    }
}

/// ADC conversion mode of the device.
#[derive(Clone, Copy, Debug, PartialEq, Eq)]
pub enum ADCCTL {
    IdleMode,
    SingleSweep,
    SingleConversion,
    ContinuousSweep,
}

impl ADCCTL {
    /// The field's value in the device control word.
    pub open spec fn bits(self) -> u16 {
        match self {
            ADCCTL::IdleMode => 0,
            ADCCTL::SingleSweep => 1,
            ADCCTL::SingleConversion => 2,
            ADCCTL::ContinuousSweep => 3,
        }
    }

    /// The field's value in the device control word.
    pub fn as_u16(self) -> (b: u16)
        ensures
            b == self.bits(),
            b <= 3,
    {
        match self {
            ADCCTL::IdleMode => 0,
            ADCCTL::SingleSweep => 1,
            ADCCTL::SingleConversion => 2,
            ADCCTL::ContinuousSweep => 3,
        }
    }
}

/// DAC update mode of the device.
#[derive(Clone, Copy, Debug, PartialEq, Eq)]
pub enum DACCTL {
    Sequential,
    Immediate,
    PresetData1,
    PresetData2,
}

impl DACCTL {
    /// The field's value in the device control word.
    pub open spec fn bits(self) -> u16 {
        match self {
            DACCTL::Sequential => 0,
            DACCTL::Immediate => 1,
            DACCTL::PresetData1 => 2,
            DACCTL::PresetData2 => 3,
        }
    }

    /// The field's value in the device control word.
    pub fn as_u16(self) -> (b: u16)
        ensures
            b == self.bits(),
            b <= 3,
    {
        match self {
            DACCTL::Sequential => 0,
            DACCTL::Immediate => 1,
            DACCTL::PresetData1 => 2,
            DACCTL::PresetData2 => 3,
        }
    }
}

/// ADC conversion rate of the device.
#[derive(Clone, Copy, Debug, PartialEq, Eq)]
pub enum ADCCONV {
    Rate200ksps,
    Rate250ksps,
    Rate333ksps,
    Rate400ksps,
}

impl ADCCONV {
    /// The field's value in the device control word.
    pub open spec fn bits(self) -> u16 {
        match self {
            ADCCONV::Rate200ksps => 0,
            ADCCONV::Rate250ksps => 1,
            ADCCONV::Rate333ksps => 2,
            ADCCONV::Rate400ksps => 3,
        }
    }

    /// The field's value in the device control word.
    pub fn as_u16(self) -> (b: u16)
        ensures
            b == self.bits(),
            b <= 3,
    {
        match self {
            ADCCONV::Rate200ksps => 0,
            ADCCONV::Rate250ksps => 1,
            ADCCONV::Rate333ksps => 2,
            ADCCONV::Rate400ksps => 3,
        }
    }
}

/// Voltage reference of the DACs.
#[derive(Clone, Copy, Debug, PartialEq, Eq)]
pub enum DACREF {
    ExternalRef,
    InternalRef,
}

impl DACREF {
    /// The field's value in the device control word.
    pub open spec fn bits(self) -> u16 {
        match self {
            DACREF::ExternalRef => 0,
            DACREF::InternalRef => 1,
        }
    }

    /// The field's value in the device control word.
    pub fn as_u16(self) -> (b: u16)
        ensures
            b == self.bits(),
            b <= 1,
    {
        match self {
            DACREF::ExternalRef => 0,
            DACREF::InternalRef => 1,
        }
    }
}

/// Thermal shutdown of the device.
#[derive(Clone, Copy, Debug, PartialEq, Eq)]
pub enum THSHDN {
    Disabled,
    Enabled,
}

impl THSHDN {
    /// The field's value in the device control word.
    pub open spec fn bits(self) -> u16 {
        match self {
            THSHDN::Disabled => 0,
            THSHDN::Enabled => 1,
        }
    }

    /// The field's value in the device control word.
    pub fn as_u16(self) -> (b: u16)
        ensures
            b == self.bits(),
            b <= 1,
    {
        match self {
            THSHDN::Disabled => 0,
            THSHDN::Enabled => 1,
        }
    }
}

/// Settings written to the device control register when the device is brought up.
#[derive(Clone, Copy, Debug, PartialEq, Eq)]
pub struct DeviceConfig {
    pub adcctl: ADCCTL,
    pub dacctl: DACCTL,
    pub adcconv: ADCCONV,
    pub dacref: DACREF,
    pub thshdn: THSHDN,
}

impl DeviceConfig {
    /// The device control word: ADC mode in bits 1:0, DAC mode in bits 3:2,
    /// conversion rate in bits 5:4, DAC reference in bit 6, thermal shutdown in bit 7.
    pub open spec fn word(self) -> u16 {
        (self.adcctl.bits() + 4 * self.dacctl.bits() + 16 * self.adcconv.bits() + 64
            * self.dacref.bits() + 128 * self.thshdn.bits()) as u16
    }

    /// The device control word.
    pub fn as_u16(&self) -> (w: u16)
        ensures
            w == self.word(),
            w == self.adcctl.bits() + 4 * self.dacctl.bits() + 16 * self.adcconv.bits() + 64
                * self.dacref.bits() + 128 * self.thshdn.bits(),
    {
        self.adcctl.as_u16() + 4 * self.dacctl.as_u16() + 16 * self.adcconv.as_u16() + 64
            * self.dacref.as_u16() + 128 * self.thshdn.as_u16()
    }
}

impl Default for DeviceConfig {
    /// Every field at its first setting: the device control word is 0.
    fn default() -> (config: Self)
        ensures
            config.adcctl == ADCCTL::IdleMode,
            config.dacctl == DACCTL::Sequential,
            config.adcconv == ADCCONV::Rate200ksps,
            config.dacref == DACREF::ExternalRef,
            config.thshdn == THSHDN::Disabled,
            config.word() == 0,
    {
        DeviceConfig {
            adcctl: ADCCTL::IdleMode,
            dacctl: DACCTL::Sequential,
            adcconv: ADCCONV::Rate200ksps,
            dacref: DACREF::ExternalRef,
            thshdn: THSHDN::Disabled,
        }
    }
}

/// A port configuration word: function in bits 15:12, ADC reference in bit 11,
/// range in bits 10:8, sample count in bits 7:5 and associated port in bits 4:0.
pub open spec fn port_word(funcid: u16, avr: u16, range: u16, nsamples: u16, assoc: u16) -> u16 {
    (4096 * funcid + 2048 * avr + 256 * range + 32 * nsamples + assoc) as u16
}

/// Packs the fields of a port configuration word.
fn pack_port_config(funcid: u16, avr: u16, range: u16, nsamples: u16, assoc: u16) -> (w: u16)
    requires
        funcid <= 12,
        avr <= 1,
        range <= 7,
        nsamples <= 7,
        assoc < 32,
    ensures
        w == port_word(funcid, avr, range, nsamples, assoc),
        w == 4096 * funcid + 2048 * avr + 256 * range + 32 * nsamples + assoc,
{
    4096 * funcid + 2048 * avr + 256 * range + 32 * nsamples + assoc
}

/// A port function together with its parameters.
pub trait PortMode: Copy {
    /// The port configuration word of this mode.
    spec fn word(&self) -> u16;

    /// The port configuration word of this mode.
    fn as_u16(&self) -> (w: u16)
        ensures
            w == self.word(),
    ;
}

/// Mode 0: high impedance.
#[derive(Clone, Copy, Debug, PartialEq, Eq)]
pub struct ConfigMode0;

/// Mode 1: digital input with programmable threshold.
#[derive(Clone, Copy, Debug, PartialEq, Eq)]
pub struct ConfigMode1;

/// Mode 2: bidirectional level shifter terminal.
#[derive(Clone, Copy, Debug, PartialEq, Eq)]
pub struct ConfigMode2;

/// Mode 3: register-driven digital output with DAC-controlled level.
#[derive(Clone, Copy, Debug, PartialEq, Eq)]
pub struct ConfigMode3;

/// Mode 4: unidirectional path output with DAC-controlled level, driven by the associated port.
#[derive(Clone, Copy, Debug, PartialEq, Eq)]
pub struct ConfigMode4(pub Port);

/// Mode 5: analog output of the DAC.
#[derive(Clone, Copy, Debug, PartialEq, Eq)]
pub struct ConfigMode5(pub DACRANGE);

/// Mode 6: analog output of the DAC with ADC monitoring.
#[derive(Clone, Copy, Debug, PartialEq, Eq)]
pub struct ConfigMode6(pub AVR, pub DACRANGE, pub NSAMPLES);

/// Mode 7: positive analog input to the single-ended ADC.
#[derive(Clone, Copy, Debug, PartialEq, Eq)]
pub struct ConfigMode7(pub AVR, pub ADCRANGE, pub NSAMPLES);

/// Mode 8: positive analog input to the differential ADC, against the associated port.
#[derive(Clone, Copy, Debug, PartialEq, Eq)]
pub struct ConfigMode8(pub AVR, pub ADCRANGE, pub NSAMPLES, pub Port);

/// Mode 9: negative analog input to the differential ADC.
#[derive(Clone, Copy, Debug, PartialEq, Eq)]
pub struct ConfigMode9(pub AVR, pub ADCRANGE);

/// Mode 10: analog output of the DAC and negative analog input to the differential ADC.
#[derive(Clone, Copy, Debug, PartialEq, Eq)]
pub struct ConfigMode10(pub AVR, pub DACRANGE);

/// Mode 11: terminal of an analog switch controlled by the associated port.
#[derive(Clone, Copy, Debug, PartialEq, Eq)]
pub struct ConfigMode11(pub Port);

/// Mode 12: terminal of a register-controlled analog switch.
#[derive(Clone, Copy, Debug, PartialEq, Eq)]
pub struct ConfigMode12;

impl PortMode for ConfigMode0 {
    open spec fn word(&self) -> u16 {
        port_word(0, 0, 0, 0, 0)
    }

    fn as_u16(&self) -> (w: u16) {
        pack_port_config(0, 0, 0, 0, 0)
    }
}

impl PortMode for ConfigMode1 {
    open spec fn word(&self) -> u16 {
        port_word(1, 0, 0, 0, 0)
    }

    fn as_u16(&self) -> (w: u16) {
        pack_port_config(1, 0, 0, 0, 0)
    }
}

impl PortMode for ConfigMode2 {
    open spec fn word(&self) -> u16 {
        port_word(2, 0, 0, 0, 0)
    }

    fn as_u16(&self) -> (w: u16) {
        pack_port_config(2, 0, 0, 0, 0)
    }
}

impl PortMode for ConfigMode3 {
    open spec fn word(&self) -> u16 {
        port_word(3, 0, 0, 0, 0)
    }

    fn as_u16(&self) -> (w: u16) {
        pack_port_config(3, 0, 0, 0, 0)
    }
}

impl PortMode for ConfigMode4 {
    open spec fn word(&self) -> u16 {
        port_word(4, 0, 0, 0, self.0.number() as u16)
    }

    fn as_u16(&self) -> (w: u16) {
        pack_port_config(4, 0, 0, 0, self.0.as_u8() as u16)
    }
}

impl PortMode for ConfigMode5 {
    open spec fn word(&self) -> u16 {
        port_word(5, 0, self.0.bits(), 0, 0)
    }

    fn as_u16(&self) -> (w: u16) {
        pack_port_config(5, 0, self.0.as_u16(), 0, 0)
    }
}

impl PortMode for ConfigMode6 {
    open spec fn word(&self) -> u16 {
        port_word(6, self.0.bits(), self.1.bits(), self.2.bits(), 0)
    }

    fn as_u16(&self) -> (w: u16) {
        pack_port_config(6, self.0.as_u16(), self.1.as_u16(), self.2.as_u16(), 0)
    }
}

impl PortMode for ConfigMode7 {
    open spec fn word(&self) -> u16 {
        port_word(7, self.0.bits(), self.1.bits(), self.2.bits(), 0)
    }

    fn as_u16(&self) -> (w: u16) {
        pack_port_config(7, self.0.as_u16(), self.1.as_u16(), self.2.as_u16(), 0)
    }
}

impl PortMode for ConfigMode8 {
    open spec fn word(&self) -> u16 {
        port_word(8, self.0.bits(), self.1.bits(), self.2.bits(), self.3.number() as u16)
    }

    fn as_u16(&self) -> (w: u16) {
        pack_port_config(
            8,
            self.0.as_u16(),
            self.1.as_u16(),
            self.2.as_u16(),
            self.3.as_u8() as u16,
        )
    }
}

impl PortMode for ConfigMode9 {
    open spec fn word(&self) -> u16 {
        port_word(9, self.0.bits(), self.1.bits(), 0, 0)
    }

    fn as_u16(&self) -> (w: u16) {
        pack_port_config(9, self.0.as_u16(), self.1.as_u16(), 0, 0)
    }
}

impl PortMode for ConfigMode10 {
    open spec fn word(&self) -> u16 {
        port_word(10, self.0.bits(), self.1.bits(), 0, 0)
    }

    fn as_u16(&self) -> (w: u16) {
        pack_port_config(10, self.0.as_u16(), self.1.as_u16(), 0, 0)
    }
}

impl PortMode for ConfigMode11 {
    open spec fn word(&self) -> u16 {
        port_word(11, 0, 0, 0, self.0.number() as u16)
    }

    fn as_u16(&self) -> (w: u16) {
        pack_port_config(11, 0, 0, 0, self.0.as_u8() as u16)
    }
}

impl PortMode for ConfigMode12 {
    open spec fn word(&self) -> u16 {
        port_word(12, 0, 0, 0, 0)
    }

    fn as_u16(&self) -> (w: u16) {
        pack_port_config(12, 0, 0, 0, 0)
    }
}

/// Each field of a port configuration word can be read back from the word.
pub proof fn lemma_port_word_fields(funcid: u16, avr: u16, range: u16, nsamples: u16, assoc: u16)
    requires
        funcid <= 12,
        avr <= 1,
        range <= 7,
        nsamples <= 7,
        assoc < 32,
    ensures
        port_word(funcid, avr, range, nsamples, assoc) / 4096 == funcid,
        port_word(funcid, avr, range, nsamples, assoc) / 2048 % 2 == avr,
        port_word(funcid, avr, range, nsamples, assoc) / 256 % 8 == range,
        port_word(funcid, avr, range, nsamples, assoc) / 32 % 8 == nsamples,
        port_word(funcid, avr, range, nsamples, assoc) % 32 == assoc,
{
    let (f, a, r, n, p) = (funcid as int, avr as int, range as int, nsamples as int, assoc as int);
    let w = 4096 * f + 2048 * a + 256 * r + 32 * n + p;
    assert(port_word(funcid, avr, range, nsamples, assoc) == w);
    lemma_fundamental_div_mod_converse(w, 4096, f, 2048 * a + 256 * r + 32 * n + p);
    lemma_fundamental_div_mod_converse(w, 2048, 2 * f + a, 256 * r + 32 * n + p);
    lemma_fundamental_div_mod_converse(2 * f + a, 2, f, a);
    lemma_fundamental_div_mod_converse(w, 256, 16 * f + 8 * a + r, 32 * n + p);
    lemma_fundamental_div_mod_converse(16 * f + 8 * a + r, 8, 2 * f + a, r);
    lemma_fundamental_div_mod_converse(w, 32, 128 * f + 64 * a + 8 * r + n, p);
    lemma_fundamental_div_mod_converse(128 * f + 64 * a + 8 * r + n, 8, 16 * f + 8 * a + r, n);
}

/// Each field of the device control word can be read back from the word.
pub proof fn lemma_device_word_fields(config: DeviceConfig)
    ensures
        config.word() % 4 == config.adcctl.bits(),
        config.word() / 4 % 4 == config.dacctl.bits(),
        config.word() / 16 % 4 == config.adcconv.bits(),
        config.word() / 64 % 2 == config.dacref.bits(),
        config.word() / 128 == config.thshdn.bits(),
{
    let a = config.adcctl.bits() as int;
    let d = config.dacctl.bits() as int;
    let c = config.adcconv.bits() as int;
    let r = config.dacref.bits() as int;
    let t = config.thshdn.bits() as int;
    assert(0 <= a < 4 && 0 <= d < 4 && 0 <= c < 4 && 0 <= r < 2 && 0 <= t < 2);
    let w = a + 4 * d + 16 * c + 64 * r + 128 * t;
    assert(config.word() == w);
    lemma_fundamental_div_mod_converse(w, 4, d + 4 * c + 16 * r + 32 * t, a);
    lemma_fundamental_div_mod_converse(w, 128, t, a + 4 * d + 16 * c + 64 * r);
    lemma_fundamental_div_mod_converse(w, 16, c + 4 * r + 8 * t, a + 4 * d);
    lemma_fundamental_div_mod_converse(c + 4 * r + 8 * t, 4, r + 2 * t, c);
    lemma_fundamental_div_mod_converse(w, 64, r + 2 * t, a + 4 * d + 16 * c);
    lemma_fundamental_div_mod_converse(r + 2 * t, 2, t, r);
    lemma_fundamental_div_mod_converse(w / 4, 4, c + 4 * r + 8 * t, d);
}

/// The sample-count field holds the base-2 logarithm of the number of
/// samples averaged, so different counts give different fields.
pub proof fn lemma_nsamples_field_is_log2(n: NSAMPLES, m: NSAMPLES)
    ensures
        n.bits() < 8,
        pow2(n.bits() as nat) == n.count(),
        n != m ==> n.bits() != m.bits(),
{
    lemma2_to64();
}

/// The device control word holds each setting in its own field: the ADC mode
/// (idle 0, single sweep 1, single conversion 2, continuous sweep 3) in bits
/// 1:0, the DAC mode (sequential 0, immediate 1, preset data 1 2, preset data
/// 2 3) in bits 3:2, the conversion rate (200, 250, 333, 400 ksps as 0 to 3)
/// in bits 5:4, the DAC reference (set for the internal one) in bit 6 and
/// thermal shutdown (set when enabled) in bit 7.
pub proof fn lemma_device_control_fields(config: DeviceConfig)
    ensures
        config.word() % 4 == (match config.adcctl {
            ADCCTL::IdleMode => 0int,
            ADCCTL::SingleSweep => 1int,
            ADCCTL::SingleConversion => 2int,
            ADCCTL::ContinuousSweep => 3int,
        }),
        config.word() / 4 % 4 == (match config.dacctl {
            DACCTL::Sequential => 0int,
            DACCTL::Immediate => 1int,
            DACCTL::PresetData1 => 2int,
            DACCTL::PresetData2 => 3int,
        }),
        config.word() / 16 % 4 == (match config.adcconv {
            ADCCONV::Rate200ksps => 0int,
            ADCCONV::Rate250ksps => 1int,
            ADCCONV::Rate333ksps => 2int,
            ADCCONV::Rate400ksps => 3int,
        }),
        config.word() / 64 % 2 == 1 <==> config.dacref == DACREF::InternalRef,
        config.word() / 128 == 1 <==> config.thshdn == THSHDN::Enabled,
        config.word() < 256,
{
    lemma_device_word_fields(config);
}

/// The range, reference and sample fields of a port configuration word:
/// a DAC range of 0 to 10 V, -5 to 5 V or -10 to 0 V is 1, 2 or 3; an ADC
/// range of 0 to 10 V, -5 to 5 V, -10 to 0 V or 0 to 2.5 V is 1, 2, 3 or 4;
/// the reference bit is set for the external reference.
pub proof fn lemma_port_field_codes(dac: DACRANGE, adc: ADCRANGE, avr: AVR)
    ensures
        dac.bits() == (match dac {
            DACRANGE::Rg0_10v => 1int,
            DACRANGE::RgNeg5_5v => 2int,
            DACRANGE::RgNeg10_0v => 3int,
        }),
        adc.bits() == (match adc {
            ADCRANGE::Rg0_10v => 1int,
            ADCRANGE::RgNeg5_5v => 2int,
            ADCRANGE::RgNeg10_0v => 3int,
            ADCRANGE::Rg0_2v5 => 4int,
        }),
        avr.bits() == 1 <==> avr == AVR::ExternalRef,
        avr.bits() <= 1,
{
}

/// What the configuration word of each mode holds: the mode's number in bits
/// 15:12, and each of its parameters in its own field, every other field
/// clear. A port parameter (the associated port) stands in bits 4:0.
pub proof fn lemma_mode_words(p: Port, avr: AVR, dac: DACRANGE, adc: ADCRANGE, n: NSAMPLES)
    ensures
        ConfigMode0.word() == 0x0000,
        ConfigMode1.word() == 0x1000,
        ConfigMode2.word() == 0x2000,
        ConfigMode3.word() == 0x3000,
        ConfigMode4(p).word() == 0x4000 + p.number(),
        ConfigMode5(dac).word() == 0x5000 + 0x100 * dac.bits(),
        ConfigMode6(avr, dac, n).word() == 0x6000 + 0x800 * avr.bits() + 0x100 * dac.bits() + 0x20
            * n.bits(),
        ConfigMode7(avr, adc, n).word() == 0x7000 + 0x800 * avr.bits() + 0x100 * adc.bits() + 0x20
            * n.bits(),
        ConfigMode8(avr, adc, n, p).word() == 0x8000 + 0x800 * avr.bits() + 0x100 * adc.bits()
            + 0x20 * n.bits() + p.number(),
        ConfigMode9(avr, adc).word() == 0x9000 + 0x800 * avr.bits() + 0x100 * adc.bits(),
        ConfigMode10(avr, dac).word() == 0xa000 + 0x800 * avr.bits() + 0x100 * dac.bits(),
        ConfigMode11(p).word() == 0xb000 + p.number(),
        ConfigMode12.word() == 0xc000,
        ConfigMode4(p).word() % 32 == p.number(),
        ConfigMode8(avr, adc, n, p).word() % 32 == p.number(),
        ConfigMode8(avr, adc, n, p).word() / 32 % 8 == n.bits(),
        ConfigMode7(avr, adc, n).word() / 32 % 8 == n.bits(),
        ConfigMode6(avr, dac, n).word() / 32 % 8 == n.bits(),
        ConfigMode11(p).word() % 32 == p.number(),
        ConfigMode11(p).word() / 4096 == 11,
{
    lemma_port_field_codes(dac, adc, avr);
    lemma_nsamples_field_is_log2(n, n);
    lemma_port_word_fields(4, 0, 0, 0, p.number() as u16);
    lemma_port_word_fields(8, avr.bits(), adc.bits(), n.bits(), p.number() as u16);
    lemma_port_word_fields(7, avr.bits(), adc.bits(), n.bits(), 0);
    lemma_port_word_fields(6, avr.bits(), dac.bits(), n.bits(), 0);
    lemma_port_word_fields(11, 0, 0, 0, p.number() as u16);
}

} // verus!
