use std::collections::VecDeque;

use max11300::config::{
    ADCCONV, ADCCTL, DACCTL, DACREF, THSHDN, ConfigMode1, ConfigMode5, ConfigMode7, DeviceConfig, Port, ADCRANGE, AVR, DACRANGE, NSAMPLES,
};
use max11300::port::{check_in_a_row, read_adc_values, write_dac_values, ConfiguredPort};
use max11300::session::{BusOp, Outcome, Request, Session, Step};
use max11300::Error;

/// What the fake hardware saw, in order.
#[derive(Debug, PartialEq)]
enum Seen {
    High,
    Low,
    Transfer(Vec<u8>),
    Write(Vec<u8>),
}

/// Hardware that answers every step, handing out queued replies to transfers.
struct FakeBus {
    seen: Vec<Seen>,
    replies: VecDeque<Vec<u8>>,
    fail_pin_at: Option<usize>,
    fail_spi_at: Option<usize>,
}

impl FakeBus {
    fn new(replies: Vec<Vec<u8>>) -> Self {
        FakeBus { seen: Vec::new(), replies: replies.into(), fail_pin_at: None, fail_spi_at: None }
    }

    fn perform(&mut self, op: BusOp) -> Outcome<&'static str, &'static str> {
        let index = self.seen.len();
        let outcome = match op {
            BusOp::EnableHigh => {
                self.seen.push(Seen::High);
                Outcome::Completed(Vec::new())
            }
            BusOp::EnableLow => {
                self.seen.push(Seen::Low);
                Outcome::Completed(Vec::new())
            }
            BusOp::Transfer { command, read_len } => {
                self.seen.push(Seen::Transfer(vec![command]));
                let reply = self.replies.pop_front().unwrap_or_else(|| vec![0; read_len]);
                assert_eq!(reply.len(), read_len);
                Outcome::Completed(reply)
            }
            BusOp::Write(frame) => {
                self.seen.push(Seen::Write(frame.to_vec()));
                Outcome::Completed(Vec::new())
            }
            BusOp::WriteBurst(buf) => {
                self.seen.push(Seen::Write(buf.to_vec()));
                Outcome::Completed(Vec::new())
            }
        };
        let pin_step = matches!(self.seen[index], Seen::High | Seen::Low);
        if pin_step && self.fail_pin_at == Some(index) {
            return Outcome::PinFailed("pin");
        }
        if !pin_step && self.fail_spi_at == Some(index) {
            return Outcome::SpiFailed("spi");
        }
        outcome
    }

    fn run(&mut self, request: Request) -> Result<Vec<u16>, Error<&'static str, &'static str>> {
        let mut step = Session::begin(request);
        loop {
            match step {
                Step::Done(result) => return result,
                Step::Next(session, op) => {
                    let outcome = self.perform(op);
                    step = session.advance(outcome);
                }
            }
        }
    }

    fn pins(&self) -> Vec<bool> {
        self.seen
            .iter()
            .filter_map(|s| match s {
                Seen::High => Some(true),
                Seen::Low => Some(false),
                _ => None,
            })
            .collect()
    }

    fn frames(&self) -> Vec<&Seen> {
        self.seen.iter().filter(|s| !matches!(s, Seen::High | Seen::Low)).collect()
    }
}

const H: bool = true;
const L: bool = false;

fn bring_up(bus: &mut FakeBus) {
    bus.run(Request::Init(DeviceConfig::default())).unwrap();
}

#[test]
fn into_configured() {
    let mut bus = FakeBus::new(vec![vec![0x0, 0x04, 0x24]]);
    bring_up(&mut bus);
    assert_eq!(bus.pins(), vec![H, L, H, L, H]);
    assert_eq!(
        bus.frames(),
        vec![&Seen::Transfer(vec![1]), &Seen::Write(vec![0x10 << 1, 0, 0])]
    );
}

#[test]
fn config_modes() {
    let mut bus = FakeBus::new(vec![vec![0x0, 0x04, 0x24]]);
    bring_up(&mut bus);
    // Configure port 5 for the first time
    let (port5, request) = ConfiguredPort::configure(Port::P5, ConfigMode1);
    bus.run(request).unwrap();
    // Reconfigure port 5
    let (_port5, request) = port5.into_mode(ConfigMode7(
        AVR::InternalRef,
        ADCRANGE::Rg0_10v,
        NSAMPLES::Samples64,
    ));
    bus.run(request).unwrap();
    assert_eq!(bus.pins(), vec![H, L, H, L, H, L, H, L, H]);
    assert_eq!(
        bus.frames(),
        vec![
            &Seen::Transfer(vec![1]),
            &Seen::Write(vec![0x10 << 1, 0, 0]),
            &Seen::Write(vec![0x25 << 1, 16, 0]),
            &Seen::Write(vec![0x25 << 1, 113, 192]),
        ]
    );
}

#[test]
fn config_mode_5() {
    let mut bus = FakeBus::new(vec![vec![0x0, 0x04, 0x24]]);
    bring_up(&mut bus);
    let (port5, request) = ConfiguredPort::configure(Port::P5, ConfigMode5(DACRANGE::Rg0_10v));
    bus.run(request).unwrap();
    bus.run(port5.set_value(42)).unwrap();
    assert_eq!(bus.pins(), vec![H, L, H, L, H, L, H, L, H]);
    assert_eq!(
        bus.frames(),
        vec![
            &Seen::Transfer(vec![1]),
            &Seen::Write(vec![0x10 << 1, 0, 0]),
            &Seen::Write(vec![0x25 << 1, 81, 0]),
            &Seen::Write(vec![0x65 << 1, 0, 42]),
        ]
    );
}

#[test]
fn config_mode_7() {
    let mut bus = FakeBus::new(vec![vec![0x0, 0x04, 0x24], vec![0x0, 0x1, 0x1]]);
    bring_up(&mut bus);
    let (port5, request) = ConfiguredPort::configure(
        Port::P5,
        ConfigMode7(AVR::InternalRef, ADCRANGE::Rg0_10v, NSAMPLES::Samples64),
    );
    bus.run(request).unwrap();
    let val = bus.run(port5.get_value()).unwrap()[0];
    assert_eq!(val, 257);
    assert_eq!(bus.pins(), vec![H, L, H, L, H, L, H, L, H]);
    assert_eq!(
        bus.frames(),
        vec![
            &Seen::Transfer(vec![1]),
            &Seen::Write(vec![0x10 << 1, 0, 0]),
            &Seen::Write(vec![0x25 << 1, 113, 192]),
            &Seen::Transfer(vec![0x45 << 1 | 1]),
        ]
    );
}

#[test]
fn multiport() {
    let mut bus = FakeBus::new(vec![vec![0x0, 0x04, 0x24]]);
    bring_up(&mut bus);
    let (port5, request) = ConfiguredPort::configure(Port::P5, ConfigMode5(DACRANGE::Rg0_10v));
    bus.run(request).unwrap();
    let (port6, request) = ConfiguredPort::configure(Port::P6, ConfigMode5(DACRANGE::Rg0_10v));
    bus.run(request).unwrap();
    check_in_a_row::<(), ()>(&[port5.port, port6.port]).unwrap();
    bus.run(write_dac_values(port5.port, vec![42, 43])).unwrap();
    assert_eq!(bus.pins(), vec![H, L, H, L, H, L, H, L, H, L, H]);
    assert_eq!(
        bus.frames(),
        vec![
            &Seen::Transfer(vec![1]),
            &Seen::Write(vec![0x10 << 1, 0, 0]),
            &Seen::Write(vec![0x25 << 1, 81, 0]),
            &Seen::Write(vec![0x26 << 1, 81, 0]),
            &Seen::Write(vec![0x65 << 1, 0, 42, 0, 43]),
        ]
    );
}

#[test]
fn bring_up_refuses_unknown_device() {
    let mut bus = FakeBus::new(vec![vec![0x0, 0x04, 0x25]]);
    let result = bus.run(Request::Init(DeviceConfig::default()));
    assert!(matches!(result, Err(Error::Conn)));
    // the identification was read, the control register was not written
    assert_eq!(bus.seen, vec![Seen::High, Seen::Low, Seen::Transfer(vec![1]), Seen::High]);
}

#[test]
fn bring_up_writes_the_device_control_word() {
    let config = DeviceConfig {
        adcctl: ADCCTL::ContinuousSweep,
        dacctl: DACCTL::Immediate,
        adcconv: ADCCONV::Rate400ksps,
        dacref: DACREF::InternalRef,
        thshdn: THSHDN::Enabled,
    };
    assert_eq!(config.as_u16(), 3 + 4 + 48 + 64 + 128);
    let mut bus = FakeBus::new(vec![vec![0xff, 0x04, 0x24]]);
    bus.run(Request::Init(config)).unwrap();
    assert_eq!(bus.frames()[1], &Seen::Write(vec![0x20, 0, 0xf7]));
}

#[test]
fn pin_failure_ends_the_operation() {
    let mut bus = FakeBus::new(vec![]);
    bus.fail_pin_at = Some(0);
    let result = bus.run(Request::WriteRegister(0x60, 7));
    assert!(matches!(result, Err(Error::Pin("pin"))));
    assert_eq!(bus.seen, vec![Seen::Low]);

    let mut bus = FakeBus::new(vec![]);
    bus.fail_pin_at = Some(2);
    let result = bus.run(Request::WriteRegister(0x60, 7));
    assert!(matches!(result, Err(Error::Pin("pin"))));
    assert_eq!(bus.seen, vec![Seen::Low, Seen::Write(vec![0xc0, 0, 7]), Seen::High]);
}

#[test]
fn bus_failure_ends_the_operation() {
    let mut bus = FakeBus::new(vec![]);
    bus.fail_spi_at = Some(1);
    let result = bus.run(Request::ReadRegister(0x45));
    assert!(matches!(result, Err(Error::Spi("spi"))));
    // the enable pin is left low, as the driver leaves it when the bus fails
    assert_eq!(bus.seen, vec![Seen::Low, Seen::Transfer(vec![0x8b])]);

    let mut bus = FakeBus::new(vec![]);
    bus.fail_spi_at = Some(2);
    let result = bus.run(Request::Init(DeviceConfig::default()));
    assert!(matches!(result, Err(Error::Spi("spi"))));
}

#[test]
fn address_out_of_range_is_refused_before_any_step() {
    for request in [
        Request::ReadRegister(0x74),
        Request::WriteRegister(0x80, 1),
        Request::ReadRegisters(0x70, 5),
        Request::ReadRegisters(0x60, 21),
        Request::WriteRegisters(0x73, vec![1, 2]),
        Request::WriteRegisters(0x40, vec![0; 21]),
    ] {
        let mut bus = FakeBus::new(vec![]);
        assert!(matches!(bus.run(request), Err(Error::Address)));
        assert!(bus.seen.is_empty());
    }
    let mut bus = FakeBus::new(vec![]);
    assert!(bus.run(Request::ReadRegister(0x73)).is_ok());
    assert!(bus.run(Request::WriteRegisters(0x70, vec![1, 2, 3, 4])).is_ok());
}

#[test]
fn burst_read_decodes_each_register() {
    let mut bus = FakeBus::new(vec![vec![0xaa, 0x01, 0x02, 0x0f, 0xff, 0x00, 0x00]]);
    let words = bus.run(Request::ReadRegisters(0x45, 3)).unwrap();
    assert_eq!(words, vec![0x0102, 0x0fff, 0]);
    assert_eq!(bus.seen, vec![Seen::Low, Seen::Transfer(vec![0x8b]), Seen::High]);
    let words = bus.run(read_adc_values(Port::P0, 0)).unwrap();
    assert!(words.is_empty());
}

#[test]
fn burst_write_of_twenty_registers() {
    let data: Vec<u16> = (0..20).map(|i| 0x0100 * i + i).collect();
    let mut bus = FakeBus::new(vec![]);
    bus.run(write_dac_values(Port::P0, data.clone())).unwrap();
    let mut expected = vec![0x60 << 1];
    for w in &data {
        expected.push((w >> 8) as u8);
        expected.push((w & 0xff) as u8);
    }
    assert_eq!(expected.len(), 41);
    assert_eq!(bus.frames(), vec![&Seen::Write(expected)]);
}

#[test]
fn written_burst_reads_back() {
    let data = vec![0xbeef, 0x0001, 0x8000];
    let mut bus = FakeBus::new(vec![]);
    bus.run(Request::WriteRegisters(0x61, data.clone())).unwrap();
    let frame = match bus.frames()[0] {
        Seen::Write(frame) => frame.clone(),
        other => panic!("unexpected {:?}", other),
    };
    let mut bus = FakeBus::new(vec![frame]);
    assert_eq!(bus.run(Request::ReadRegisters(0x41, 3)).unwrap(), data);
}

#[test]
fn ports_in_a_row() {
    assert!(check_in_a_row::<(), ()>(&[Port::P5, Port::P6, Port::P7]).is_ok());
    assert!(check_in_a_row::<(), ()>(&[Port::P19]).is_ok());
    assert!(check_in_a_row::<(), ()>(&[]).is_ok());
    assert!(matches!(check_in_a_row::<(), ()>(&[Port::P5, Port::P7]), Err(Error::Port)));
    assert!(matches!(check_in_a_row::<(), ()>(&[Port::P6, Port::P5]), Err(Error::Port)));
    assert!(matches!(
        check_in_a_row::<(), ()>(&[Port::P1, Port::P2, Port::P2]),
        Err(Error::Port)
    ));
}

#[test]
fn port_reconfiguration_changes_one_field() {
    let (mut port, request) = ConfiguredPort::configure(
        Port::P3,
        ConfigMode7(AVR::InternalRef, ADCRANGE::Rg0_10v, NSAMPLES::Samples1),
    );
    let mut bus = FakeBus::new(vec![]);
    bus.run(request).unwrap();
    bus.run(port.configure_avr(AVR::ExternalRef)).unwrap();
    bus.run(port.configure_range(ADCRANGE::Rg0_2v5)).unwrap();
    bus.run(port.configure_nsamples(NSAMPLES::Samples128)).unwrap();
    assert_eq!(
        port.config,
        ConfigMode7(AVR::ExternalRef, ADCRANGE::Rg0_2v5, NSAMPLES::Samples128)
    );
    assert_eq!(
        bus.frames(),
        vec![
            &Seen::Write(vec![0x46, 0x71, 0x00]),
            &Seen::Write(vec![0x46, 0x79, 0x00]),
            &Seen::Write(vec![0x46, 0x7c, 0x00]),
            &Seen::Write(vec![0x46, 0x7c, 0xe0]),
        ]
    );

    let (mut dac, _) = ConfiguredPort::configure(Port::P19, ConfigMode5(DACRANGE::Rg0_10v));
    let request = dac.configure_range(DACRANGE::RgNeg10_0v);
    assert_eq!(dac.config, ConfigMode5(DACRANGE::RgNeg10_0v));
    let mut bus = FakeBus::new(vec![]);
    bus.run(request).unwrap();
    bus.run(dac.set_value(0x0fff)).unwrap();
    assert_eq!(
        bus.frames(),
        vec![&Seen::Write(vec![0x33 << 1, 0x53, 0x00]), &Seen::Write(vec![0x73 << 1, 0x0f, 0xff])]
    );
}

#[test]
fn one_register_burst_is_a_single_access() {
    let mut single = FakeBus::new(vec![vec![0x5a, 0x12, 0x34]]);
    let mut burst = FakeBus::new(vec![vec![0x5a, 0x12, 0x34]]);
    let a = single.run(Request::ReadRegister(0x47)).unwrap();
    let b = burst.run(Request::ReadRegisters(0x47, 1)).unwrap();
    assert_eq!(a, vec![0x1234]);
    assert_eq!(a, b);
    assert_eq!(single.seen, burst.seen);

    let mut single = FakeBus::new(vec![]);
    let mut burst = FakeBus::new(vec![]);
    single.run(Request::WriteRegister(0x62, 0xabcd)).unwrap();
    burst.run(Request::WriteRegisters(0x62, vec![0xabcd])).unwrap();
    assert_eq!(single.seen, burst.seen);
    assert_eq!(single.frames(), vec![&Seen::Write(vec![0xc4, 0xab, 0xcd])]);
}

#[test]
fn row_burst_sets_the_registers_of_single_writes() {
    let ports = [Port::P10, Port::P11, Port::P12];
    let data = [7u16, 0x0100, 0xffff];
    check_in_a_row::<(), ()>(&ports).unwrap();
    let mut burst = FakeBus::new(vec![]);
    burst.run(write_dac_values(ports[0], data.to_vec())).unwrap();
    let frame = match burst.frames()[0] {
        Seen::Write(frame) => frame.clone(),
        other => panic!("unexpected {:?}", other),
    };
    let mut pairs = Vec::new();
    for i in 0..(frame.len() - 1) / 2 {
        let value = (frame[2 * i + 1] as u16) << 8 | frame[2 * i + 2] as u16;
        pairs.push((frame[0] / 2 + i as u8, value));
    }
    let mut singles = Vec::new();
    for (port, value) in ports.iter().zip(data) {
        let (state, _) = ConfiguredPort::configure(*port, ConfigMode5(DACRANGE::Rg0_10v));
        let mut bus = FakeBus::new(vec![]);
        bus.run(state.set_value(value)).unwrap();
        match bus.frames()[0] {
            Seen::Write(f) => singles.push((f[0] / 2, (f[1] as u16) << 8 | f[2] as u16)),
            other => panic!("unexpected {:?}", other),
        }
    }
    assert_eq!(pairs, singles);
    assert_eq!(pairs, vec![(0x6a, 7), (0x6b, 0x0100), (0x6c, 0xffff)]);
}
